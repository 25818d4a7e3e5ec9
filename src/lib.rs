//! Core of a bare-metal RISC-V diagnostic kernel: the SBI call ABI, console
//! byte emission, per-hart boot stacks, trap-frame save/restore, the trap
//! classifier, the virtio-MMIO header check and the boot diagnostic sequence.
pub mod sbi;
pub mod console;
pub mod boot;
pub mod trap;
pub mod mmio;
pub mod kernel;
