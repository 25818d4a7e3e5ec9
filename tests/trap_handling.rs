use virtio_test::trap::{
    restore_registers, rust_trap_exception, save_registers, saved_register, skip_instruction,
    start_trap, HartState, RegisterFile, TrapAction, TrapCause, FRAME_BYTES, FRAME_SLOTS, SP,
};

fn sample_registers() -> RegisterFile {
    let mut x: Vec<usize> = Vec::new();
    for i in 0..32usize {
        x.push(0x1000 + i * 0x11);
    }
    x[SP] = 0x8040_0000;
    RegisterFile { x }
}

fn illegal_instruction() -> TrapCause {
    TrapCause { interrupt: false, code: 2 }
}

#[test]
fn slot_order_is_ra_temporaries_then_arguments() {
    let expected: Vec<usize> = vec![1, 5, 6, 7, 28, 29, 30, 31, 10, 11, 12, 13, 14, 15, 16, 17];
    let got: Vec<usize> = (0..FRAME_SLOTS).map(saved_register).collect();
    assert_eq!(got, expected);
}

#[test]
fn restore_undoes_save() {
    let regs = sample_registers();
    let frame = save_registers(&regs);
    assert_eq!(frame.slots.len(), 16);
    assert_eq!(frame.slots[0], regs.x[1]);
    assert_eq!(frame.slots[15], regs.x[17]);
    let mut clobbered = RegisterFile { x: vec![0xdead; 32] };
    clobbered.x[SP] = regs.x[SP];
    for r in [0usize, 3, 4, 8, 9, 18, 19, 20, 21, 22, 23, 24, 25, 26, 27] {
        clobbered.x[r] = regs.x[r];
    }
    restore_registers(&frame, &mut clobbered);
    assert_eq!(clobbered.x, regs.x);
}

#[test]
fn illegal_instruction_resumes_four_bytes_later() {
    assert_eq!(
        rust_trap_exception(illegal_instruction(), 0x8020_0100),
        TrapAction::Resume { sepc: 0x8020_0104 }
    );
}

#[test]
fn other_causes_shut_down() {
    let breakpoint = TrapCause { interrupt: false, code: 3 };
    assert_eq!(rust_trap_exception(breakpoint, 0x8020_0100), TrapAction::Shutdown);
    let page_fault = TrapCause { interrupt: false, code: 13 };
    assert_eq!(rust_trap_exception(page_fault, 0x8020_0100), TrapAction::Shutdown);
    let interrupt_two = TrapCause { interrupt: true, code: 2 };
    assert_eq!(rust_trap_exception(interrupt_two, 0x8020_0100), TrapAction::Shutdown);
}

#[test]
fn skipping_wraps_at_the_top_of_the_address_space() {
    assert_eq!(skip_instruction(0x100), 0x104);
    assert_eq!(skip_instruction(usize::MAX - 1), 2);
}

#[test]
fn trap_entry_restores_registers_and_advances_sepc() {
    let entry = sample_registers();
    let mut hart = HartState { regs: RegisterFile { x: entry.x.clone() }, sepc: 0x8020_0200 };
    let mut after_call = RegisterFile { x: entry.x.clone() };
    after_call.x[SP] = entry.x[SP] - FRAME_BYTES;
    for r in [1usize, 5, 6, 7, 10, 11, 12, 13, 14, 15, 16, 17, 28, 29, 30, 31] {
        after_call.x[r] = 0xbad0 + r;
    }
    let action = start_trap(&mut hart, illegal_instruction(), &after_call);
    assert_eq!(action, TrapAction::Resume { sepc: 0x8020_0204 });
    assert_eq!(hart.regs.x, entry.x);
    assert_eq!(hart.sepc, 0x8020_0204);
}

#[test]
fn trap_entry_with_unknown_cause_does_not_resume() {
    let entry = sample_registers();
    let mut hart = HartState { regs: RegisterFile { x: entry.x.clone() }, sepc: 0x8020_0200 };
    let mut after_call = RegisterFile { x: entry.x.clone() };
    after_call.x[SP] = entry.x[SP] - FRAME_BYTES;
    let action = start_trap(&mut hart, TrapCause { interrupt: true, code: 5 }, &after_call);
    assert_eq!(action, TrapAction::Shutdown);
    assert_eq!(hart.sepc, 0x8020_0200);
}
