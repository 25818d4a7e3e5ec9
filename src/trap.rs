//! Trap entry and the trap classifier.
//!
//! The trap entry reserves a frame of `FRAME_SLOTS` words below the stack
//! pointer, stores the caller-saved registers into it in a fixed slot order,
//! calls the classifier with the frame's address, loads the same registers
//! from the same slots, releases the frame and returns with `sret`.
use vstd::prelude::*;

verus! {

/// Number of general-purpose registers (`x0` to `x31`).
pub const NUM_REGISTERS: usize = 32;

/// Register number of the stack pointer (`sp`).
pub const SP: usize = 2;

/// Bytes in one register (RV64).
pub const REGBYTES: usize = 8;

/// Number of slots in a trap frame: `ra`, `t0`-`t6`, `a0`-`a7`.
pub const FRAME_SLOTS: usize = 16;

/// Bytes that the trap entry reserves on the stack.
pub const FRAME_BYTES: usize = 128;

/// Exception code of an illegal instruction.
pub const EXCEPTION_ILLEGAL_INSTRUCTION: usize = 2;

/// Width in bytes of the instruction that the recognised trap skips.
pub const INSTRUCTION_WIDTH: usize = 4;

/// The register stored in frame slot `slot`: `ra` (x1), then `t0`-`t2`
/// (x5-x7), `t3`-`t6` (x28-x31), and `a0`-`a7` (x10-x17).
pub open spec fn slot_register(slot: int) -> int {
    if slot == 0 {
        1
    } else if slot < 4 {
        slot + 4
    } else if slot < 8 {
        slot + 24
    } else {
        slot + 2
    }
}

/// Whether register `r` is one that the trap entry saves.
pub open spec fn is_saved(r: int) -> bool {
    r == 1 || (5 <= r <= 7) || (28 <= r <= 31) || (10 <= r <= 17)
}

/// The general-purpose registers of a hart, by register number.
#[derive(Debug)]
pub struct RegisterFile {
    pub x: Vec<usize>,
}

impl RegisterFile {
    pub open spec fn wf(&self) -> bool {
        self.x@.len() == NUM_REGISTERS
    }
}

/// The words that the trap entry stores on the stack, by slot.
#[derive(Debug)]
pub struct TrapFrame {
    pub slots: Vec<usize>,
}

impl TrapFrame {
    pub open spec fn wf(&self) -> bool {
        self.slots@.len() == FRAME_SLOTS
    }
}

/// Every slot holds a distinct saved register, and the saved registers are
/// exactly those of the slots.
pub proof fn lemma_slots_cover_saved_registers()
    ensures
        forall|s: int| 0 <= s < FRAME_SLOTS ==> #[trigger] is_saved(slot_register(s)),
        forall|s1: int, s2: int|
            0 <= s1 < FRAME_SLOTS && 0 <= s2 < FRAME_SLOTS && s1 != s2 ==> slot_register(s1)
                != slot_register(s2),
        forall|r: int|
            #[trigger] is_saved(r) ==> exists|s: int| 0 <= s < FRAME_SLOTS && slot_register(s) == r,
{
    assert forall|r: int| #[trigger] is_saved(r) implies exists|s: int|
        0 <= s < FRAME_SLOTS && slot_register(s) == r by {
        if r == 1 {
            assert(slot_register(0) == r);
        } else if r <= 7 {
            assert(slot_register(r - 4) == r);
        } else if r >= 28 {
            assert(slot_register(r - 24) == r);
        } else {
            assert(slot_register(r - 2) == r);
        }
    }
}

/// The register number held in frame slot `slot`.
pub fn saved_register(slot: usize) -> (r: usize)
    requires
        slot < FRAME_SLOTS,
    ensures
        r == slot_register(slot as int),
{
    if slot == 0 {
        1
    } else if slot < 4 {
        slot + 4
    } else if slot < 8 {
        slot + 24
    } else {
        slot + 2
    }
}

/// Stores the saved registers into a frame, slot by slot.
pub fn save_registers(regs: &RegisterFile) -> (frame: TrapFrame)
    requires
        regs.wf(),
    ensures
        frame.wf(),
        forall|s: int| 0 <= s < FRAME_SLOTS ==> #[trigger] frame.slots@[s] == regs.x@[slot_register(s)],
{
    let mut slots: Vec<usize> = Vec::new();
    let mut s: usize = 0;
    while s < FRAME_SLOTS
        invariant
            regs.wf(),
            s <= FRAME_SLOTS,
            slots@.len() == s,
            forall|k: int| 0 <= k < s ==> #[trigger] slots@[k] == regs.x@[slot_register(k)],
        decreases FRAME_SLOTS - s,
    {
        let r = saved_register(s);
        slots.push(regs.x[r]);
        s = s + 1;
    }
    TrapFrame { slots }
}

/// Loads the saved registers back from a frame, slot by slot; every other
/// register is left as it is.
pub fn restore_registers(frame: &TrapFrame, regs: &mut RegisterFile)
    requires
        frame.wf(),
        old(regs).wf(),
    ensures
        final(regs).wf(),
        forall|s: int|
            0 <= s < FRAME_SLOTS ==> #[trigger] final(regs).x@[slot_register(s)] == frame.slots@[s],
        forall|r: int|
            0 <= r < NUM_REGISTERS && !is_saved(r) ==> #[trigger] final(regs).x@[r] == old(
                regs,
            ).x@[r],
{
    let mut s: usize = 0;
    while s < FRAME_SLOTS
        invariant
            frame.wf(),
            regs.wf(),
            s <= FRAME_SLOTS,
            forall|k: int| 0 <= k < s ==> #[trigger] regs.x@[slot_register(k)] == frame.slots@[k],
            forall|r: int|
                0 <= r < NUM_REGISTERS && !(exists|k: int| 0 <= k < s && slot_register(k) == r)
                    ==> #[trigger] regs.x@[r] == old(regs).x@[r],
        decreases FRAME_SLOTS - s,
    {
        let r = saved_register(s);
        regs.x.set(r, frame.slots[s]);
        proof {
            assert forall|k: int| 0 <= k < s + 1 implies #[trigger] regs.x@[slot_register(k)]
                == frame.slots@[k] by {
                if k < s {
                    assert(slot_register(k) != slot_register(s as int));
                }
            }
        }
        s = s + 1;
    }
    proof {
        assert forall|r: int| 0 <= r < NUM_REGISTERS && !is_saved(r) implies #[trigger] regs.x@[r]
            == old(regs).x@[r] by {
            if exists|k: int| 0 <= k < FRAME_SLOTS && slot_register(k) == r {
                let k = choose|k: int| 0 <= k < FRAME_SLOTS && slot_register(k) == r;
                assert(is_saved(slot_register(k)));
            }
        }
    }
}

/// The cause of a trap as `scause` reports it: whether it is an interrupt,
/// and its code.
#[derive(Clone, Copy, Debug, PartialEq, Eq, Structural)]
pub struct TrapCause {
    pub interrupt: bool,
    pub code: usize,
}

/// What the classifier decides for a trap.
#[derive(Clone, Copy, Debug, PartialEq, Eq, Structural)]
pub enum TrapAction {
    /// Return from the trap to address `sepc`.
    Resume { sepc: usize },
    /// Report the unexpected cause and power the machine off.
    Shutdown,
}

/// The one cause that the kernel recovers from: the illegal-instruction
/// exception that it raises on purpose.
pub open spec fn is_recognized(cause: TrapCause) -> bool {
    !cause.interrupt && cause.code == EXCEPTION_ILLEGAL_INSTRUCTION
}

/// The address after the faulting instruction, modulo the address space.
pub open spec fn resume_address(sepc: usize) -> usize {
    if sepc + INSTRUCTION_WIDTH <= usize::MAX {
        (sepc + INSTRUCTION_WIDTH) as usize
    } else {
        (sepc + INSTRUCTION_WIDTH - usize::MAX - 1) as usize
    }
}

/// The classifier's decision for `cause` at `sepc`.
pub open spec fn classify(cause: TrapCause, sepc: usize) -> TrapAction {
    if is_recognized(cause) {
        TrapAction::Resume { sepc: resume_address(sepc) }
    } else {
        TrapAction::Shutdown
    }
}

/// Relies on riscv's `scause::Exception::from`: code 2, and no other code,
/// decodes to `Exception::IllegalInstruction`.
#[verifier::external_body]
fn is_illegal_instruction(code: usize) -> (r: bool)
    ensures
        r == (code == EXCEPTION_ILLEGAL_INSTRUCTION),
{
    riscv::register::scause::Exception::from(code)
        == riscv::register::scause::Exception::IllegalInstruction
}

/// The address of the instruction after the one at `sepc`.
pub fn skip_instruction(sepc: usize) -> (r: usize)
    ensures
        r == resume_address(sepc),
{
    if sepc <= usize::MAX - INSTRUCTION_WIDTH {
        sepc + INSTRUCTION_WIDTH
    } else {
        sepc - (usize::MAX - INSTRUCTION_WIDTH + 1)
    }
}

/// The trap classifier: an illegal-instruction exception resumes after the
/// faulting instruction; any other cause shuts the machine down.
pub fn rust_trap_exception(cause: TrapCause, sepc: usize) -> (action: TrapAction)
    ensures
        action == classify(cause, sepc),
        is_recognized(cause) && sepc + INSTRUCTION_WIDTH <= usize::MAX ==> action == (
        TrapAction::Resume { sepc: (sepc + INSTRUCTION_WIDTH) as usize }),
        !is_recognized(cause) ==> action == TrapAction::Shutdown,
{
    if cause.interrupt || !is_illegal_instruction(cause.code) {
        TrapAction::Shutdown
    } else {
        TrapAction::Resume { sepc: skip_instruction(sepc) }
    }
}

/// A hart as the trap entry sees it: its registers and its `sepc`.
#[derive(Debug)]
pub struct HartState {
    pub regs: RegisterFile,
    pub sepc: usize,
}

/// Whether `after` is a register file that a call made from `at_call` may
/// return with: a compliant callee changes no register outside the saved
/// set, and leaves the stack pointer as it found it.
pub open spec fn call_preserves(at_call: Seq<usize>, after: Seq<usize>) -> bool {
    forall|r: int| 0 <= r < NUM_REGISTERS && !is_saved(r) ==> #[trigger] after[r] == at_call[r]
}

/// The register file at the call of the classifier: the entry state with the
/// frame reserved below the stack pointer.
pub open spec fn at_classifier_call(entry: Seq<usize>) -> Seq<usize> {
    entry.update(SP as int, (entry[SP as int] - FRAME_BYTES) as usize)
}

/// Runs the trap entry: reserve the frame, save, classify, and, where the
/// classifier returns, restore and release the frame. `after_call` is the
/// register file that the classifier returns with.
pub fn start_trap(hart: &mut HartState, cause: TrapCause, after_call: &RegisterFile) -> (action:
    TrapAction)
    requires
        old(hart).regs.wf(),
        after_call.wf(),
        old(hart).regs.x@[SP as int] >= FRAME_BYTES,
        call_preserves(at_classifier_call(old(hart).regs.x@), after_call.x@),
    ensures
        action == classify(cause, old(hart).sepc),
        action is Resume ==> final(hart).regs.x@ == old(hart).regs.x@ && final(hart).sepc
            == action->sepc,
        action is Shutdown ==> final(hart).regs.x@ == at_classifier_call(old(hart).regs.x@)
            && final(hart).sepc == old(hart).sepc,
{
    let ghost entry = hart.regs.x@;
    let sp = hart.regs.x[SP];
    hart.regs.x.set(SP, sp - FRAME_BYTES);
    let frame = save_registers(&hart.regs);
    let action = rust_trap_exception(cause, hart.sepc);
    match action {
        TrapAction::Shutdown => {
            assert(hart.regs.x@ == at_classifier_call(entry));
            action
        },
        TrapAction::Resume { sepc } => {
            hart.regs.x = after_call.x.clone();
            restore_registers(&frame, &mut hart.regs);
            let sp_after = hart.regs.x[SP];
            hart.regs.x.set(SP, sp_after + FRAME_BYTES);
            hart.sepc = sepc;
            proof {
                lemma_slots_cover_saved_registers();
                assert forall|r: int| 0 <= r < NUM_REGISTERS implies #[trigger] hart.regs.x@[r]
                    == entry[r] by {
                    if is_saved(r) {
                        let s = choose|s: int| 0 <= s < FRAME_SLOTS && slot_register(s) == r;
                        assert(frame.slots@[s] == at_classifier_call(entry)[slot_register(s)]);
                    }
                }
                assert(hart.regs.x@ =~= entry);
            }
            action
        },
    }
}

} // verus!
