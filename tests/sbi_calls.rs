use virtio_test::sbi::{
    console_getchar, console_putchar, extension_present, get_marchid, get_mimpid, get_mvendorid,
    get_sbi_impl_id, get_sbi_impl_version, get_spec_version, probe_extension, sbi_call,
    sbi_call_legacy, set_timer, shutdown, SbiCall, SbiRet, EXTENSION_BASE, EXTENSION_TIMER,
};

fn base(function: usize, arg0: usize) -> SbiCall {
    SbiCall::Standard { extension: 0x10, function, arg0, arg1: 0, arg2: 0 }
}

#[test]
fn base_queries_use_base_extension_and_function_ids() {
    assert_eq!(get_spec_version(), base(0, 0));
    assert_eq!(get_sbi_impl_id(), base(1, 0));
    assert_eq!(get_sbi_impl_version(), base(2, 0));
    assert_eq!(get_mvendorid(), base(4, 0));
    assert_eq!(get_marchid(), base(5, 0));
    assert_eq!(get_mimpid(), base(6, 0));
}

#[test]
fn probe_passes_the_extension_id_in_the_first_argument() {
    assert_eq!(probe_extension(EXTENSION_BASE), base(3, 0x10));
    assert_eq!(probe_extension(EXTENSION_TIMER), base(3, 0x54494D45));
}

#[test]
fn legacy_calls_use_legacy_function_numbers() {
    assert_eq!(console_putchar(b'A' as usize), SbiCall::Legacy { which: 1, arg0: 65, arg1: 0, arg2: 0 });
    assert_eq!(console_getchar(), SbiCall::Legacy { which: 2, arg0: 0, arg1: 0, arg2: 0 });
    assert_eq!(shutdown(), SbiCall::Legacy { which: 8, arg0: 0, arg1: 0, arg2: 0 });
    assert_eq!(set_timer(123456), SbiCall::Legacy { which: 0, arg0: 123456, arg1: 0, arg2: 0 });
}

#[test]
fn generic_calls_keep_every_argument() {
    assert_eq!(
        sbi_call(0x735049, 7, 1, 2, 3),
        SbiCall::Standard { extension: 0x735049, function: 7, arg0: 1, arg1: 2, arg2: 3 }
    );
    assert_eq!(sbi_call_legacy(4, 9, 8, 7), SbiCall::Legacy { which: 4, arg0: 9, arg1: 8, arg2: 7 });
    assert!(sbi_call(1, 2, 3, 4, 5).returns_pair());
    assert!(!sbi_call_legacy(1, 2, 3, 4).returns_pair());
}

#[test]
fn probe_answer_zero_means_absent() {
    assert!(!extension_present(SbiRet { error: 0, value: 0 }));
    assert!(extension_present(SbiRet { error: 0, value: 1 }));
    assert!(extension_present(SbiRet { error: 0, value: 0x2 }));
}
