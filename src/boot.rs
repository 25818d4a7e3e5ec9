//! Per-hart boot stacks. One statically reserved region is cut into equal
//! slices, one per hart; a hart's stack grows down from the top of its slice.
use vstd::prelude::*;

verus! {

/// Bytes of stack given to each hart.
pub const HART_STACK_SIZE: usize = 0x4000;

/// Number of harts that the boot stack region provides for.
pub const MAX_HARTS: usize = 8;

/// Bytes in the whole boot stack region.
pub const BOOT_STACK_SIZE: usize = 4096 * 4 * 8;

/// Lowest address of the stack slice of `hart_id`.
pub open spec fn hart_stack_bottom(base: int, hart_id: int) -> int {
    base + hart_id * HART_STACK_SIZE
}

/// One past the highest address of the stack slice of `hart_id`: the initial
/// stack pointer of that hart.
pub open spec fn hart_stack_top(base: int, hart_id: int) -> int {
    base + (hart_id + 1) * HART_STACK_SIZE
}

/// Whether `addr` lies in the stack slice of `hart_id`.
pub open spec fn in_hart_stack(base: int, hart_id: int, addr: int) -> bool {
    hart_stack_bottom(base, hart_id) <= addr < hart_stack_top(base, hart_id)
}

/// The stack pointer that the entry stub installs for `hart_id`, given the
/// address of the boot stack region: `base + (hart_id + 1) * HART_STACK_SIZE`.
/// Harts beyond `MAX_HARTS` have no stack; the entry stub cannot check this,
/// so it is the caller's precondition.
pub fn entry_stack_pointer(stack_base: usize, hart_id: usize) -> (sp: usize)
    requires
        hart_id < MAX_HARTS,
        stack_base + BOOT_STACK_SIZE <= usize::MAX,
    ensures
        sp == hart_stack_top(stack_base as int, hart_id as int),
{
    let offset: usize = (hart_id + 1) * HART_STACK_SIZE;
    stack_base + offset
}

/// The slices of two distinct harts share no address, and every slice lies
/// inside the boot stack region.
pub proof fn lemma_hart_stacks_disjoint(base: int, h1: int, h2: int, addr: int)
    requires
        0 <= h1 < MAX_HARTS,
        0 <= h2 < MAX_HARTS,
        h1 != h2,
    ensures
        !(in_hart_stack(base, h1, addr) && in_hart_stack(base, h2, addr)),
        base <= hart_stack_bottom(base, h1),
        hart_stack_top(base, h1) <= base + BOOT_STACK_SIZE,
        hart_stack_top(base, h1) - hart_stack_bottom(base, h1) == HART_STACK_SIZE,
{
}

} // verus!
