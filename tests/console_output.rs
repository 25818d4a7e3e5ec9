use virtio_test::console::{print, Stdout};
use virtio_test::sbi::SbiCall;

fn delivered(calls: &[SbiCall]) -> Vec<u8> {
    let mut out = Vec::new();
    for c in calls {
        if let SbiCall::Legacy { which: 1, arg0, .. } = c {
            out.push(*arg0 as u8);
        }
    }
    out
}

#[test]
fn ascii_text_is_delivered_in_order() {
    let text = "<< Test-kernel: Hart id = 0\n";
    let calls = print(text);
    assert_eq!(calls.len(), text.len());
    assert_eq!(delivered(&calls), text.as_bytes().to_vec());
}

#[test]
fn every_call_is_a_legacy_putchar() {
    for c in print("abc") {
        match c {
            SbiCall::Legacy { which, arg1, arg2, .. } => {
                assert_eq!(which, 1);
                assert_eq!(arg1, 0);
                assert_eq!(arg2, 0);
            }
            SbiCall::Standard { .. } => panic!("standard call in console output"),
        }
    }
}

#[test]
fn multibyte_characters_are_sent_as_utf8_bytes() {
    let calls = Stdout.write_str("é€");
    assert_eq!(delivered(&calls), vec![0xC3, 0xA9, 0xE2, 0x82, 0xAC]);
}

#[test]
fn empty_text_makes_no_call() {
    assert!(print("").is_empty());
}
