use virtio_test::kernel::{Action, Event, Failure, Kernel, Message, Phase, Query};
use virtio_test::mmio::VirtIoHeader;
use virtio_test::sbi::{get_spec_version, probe_extension, shutdown, SbiRet, EXTENSION_BASE};

fn ret(value: usize) -> Event {
    Event::Returned { ret: SbiRet { error: 0, value } }
}

fn good_header() -> VirtIoHeader {
    VirtIoHeader { magic: 0x7472_6976, version: 1, device_id: 2 }
}

fn print(message: Message) -> Action {
    Action::Print { message }
}

/// Runs the kernel to the trap on a healthy platform.
fn boot_to_trap(k: &mut Kernel) {
    k.handle(Event::Booted { hart_id: 0, dtb: 0x8220_0000 });
    k.handle(ret(1));
    for v in 0..6usize {
        k.handle(ret(v));
    }
    k.handle(Event::TimeRead { time: 0x1234 });
    k.handle(Event::DeviceHeader { header: good_header() });
}

#[test]
fn healthy_platform_ends_in_success_and_shutdown() {
    let mut k = Kernel::new();
    let a = k.handle(Event::Booted { hart_id: 0, dtb: 0x8220_0000 });
    assert_eq!(
        a,
        vec![
            print(Message::Banner { hart_id: 0, dtb: 0x8220_0000 }),
            print(Message::TestingBaseExtension),
            Action::Call { call: probe_extension(EXTENSION_BASE) },
        ]
    );
    let a = k.handle(ret(1));
    assert_eq!(
        a,
        vec![print(Message::BaseExtensionVersion { version: 1 }), Action::Call { call: get_spec_version() }]
    );
    let queries = [Query::SpecVersion, Query::ImplId, Query::ImplVersion, Query::Mvendorid, Query::Marchid];
    for (i, q) in queries.iter().enumerate() {
        let a = k.handle(ret(0x100 + i));
        assert_eq!(a[0], print(Message::Identity { query: *q, value: 0x100 + i }));
        assert_eq!(a[1], Action::Call { call: q.next().unwrap().call() });
    }
    let a = k.handle(ret(7));
    assert_eq!(
        a,
        vec![
            print(Message::Identity { query: Query::Mimpid, value: 7 }),
            print(Message::TestingInstructionEmulation),
            Action::ReadTime,
        ]
    );
    let a = k.handle(Event::TimeRead { time: 0xabcd });
    assert_eq!(
        a,
        vec![print(Message::CurrentTime { time: 0xabcd }), print(Message::TestingDevice), Action::ReadDeviceHeader]
    );
    let a = k.handle(Event::DeviceHeader { header: good_header() });
    assert_eq!(
        a,
        vec![
            print(Message::DeviceFound { device_id: 2 }),
            Action::InstallTrapVector,
            print(Message::TriggerIllegalInstruction),
            Action::TriggerIllegalInstruction,
        ]
    );
    assert_eq!(k.phase, Phase::AwaitingTrap);
    let a = k.handle(Event::Resumed);
    assert_eq!(a, vec![print(Message::Success), Action::Call { call: shutdown() }]);
    assert_eq!(k.phase, Phase::Halted);
}

#[test]
fn missing_base_extension_is_fatal() {
    let mut k = Kernel::new();
    k.handle(Event::Booted { hart_id: 0, dtb: 0 });
    let a = k.handle(ret(0));
    assert_eq!(
        a,
        vec![
            print(Message::NoBaseExtension),
            print(Message::Failed { reason: Failure::NoBaseExtension }),
            Action::Call { call: shutdown() },
        ]
    );
    assert_eq!(k.phase, Phase::Halted);
}

#[test]
fn missing_device_is_fatal() {
    let mut k = Kernel::new();
    k.handle(Event::Booted { hart_id: 0, dtb: 0 });
    k.handle(ret(2));
    for v in 0..6usize {
        k.handle(ret(v));
    }
    k.handle(Event::TimeRead { time: 1 });
    let header = VirtIoHeader { magic: 0x7472_6976, version: 1, device_id: 0 };
    let a = k.handle(Event::DeviceHeader { header });
    assert_eq!(
        a,
        vec![
            print(Message::DeviceNotFound { header }),
            print(Message::Failed { reason: Failure::NoDevice }),
            Action::Call { call: shutdown() },
        ]
    );
}

#[test]
fn panic_is_fatal_in_any_phase() {
    let mut k = Kernel::new();
    boot_to_trap(&mut k);
    let a = k.handle(Event::Panicked);
    assert_eq!(a, vec![print(Message::Failed { reason: Failure::Panic }), Action::Call { call: shutdown() }]);
    assert_eq!(k.phase, Phase::Halted);
}

#[test]
fn unexpected_event_is_fatal() {
    let mut k = Kernel::new();
    let a = k.handle(Event::Resumed);
    assert_eq!(
        a,
        vec![print(Message::Failed { reason: Failure::UnexpectedEvent }), Action::Call { call: shutdown() }]
    );
}

#[test]
fn halted_kernel_does_nothing() {
    let mut k = Kernel::new();
    boot_to_trap(&mut k);
    k.handle(Event::Resumed);
    assert!(k.handle(Event::Resumed).is_empty());
    assert!(k.handle(Event::Panicked).is_empty());
    assert_eq!(k.phase, Phase::Halted);
}
