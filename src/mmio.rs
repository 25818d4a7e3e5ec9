//! The identity prefix of a legacy virtio-over-MMIO device header.
//!
//! The header is a block of 32-bit registers at a fixed physical address. The
//! kernel reads three of its read-only registers, at offsets 0x000, 0x004 and
//! 0x008, to learn whether a device sits there.
use vstd::prelude::*;

verus! {

/// The value of the magic register: "virt" in little-endian ASCII.
pub const VIRTIO_MAGIC: u32 = 0x7472_6976;

/// The version register of a legacy device.
pub const LEGACY_VERSION: u32 = 1;

/// Byte offset of the magic register.
pub const MAGIC_OFFSET: usize = 0x000;

/// Byte offset of the version register.
pub const VERSION_OFFSET: usize = 0x004;

/// Byte offset of the device id register.
pub const DEVICE_ID_OFFSET: usize = 0x008;

/// The registers of a virtio MMIO header that identify the device, as read.
#[derive(Clone, Copy, Debug, PartialEq, Eq, Structural)]
pub struct VirtIoHeader {
    /// Magic value.
    pub magic: u32,
    /// Device version number.
    pub version: u32,
    /// Virtio subsystem device id; zero means no device at this slot.
    pub device_id: u32,
}

/// Whether the registers identify a present legacy virtio device.
pub open spec fn is_valid_header(magic: u32, version: u32, device_id: u32) -> bool {
    magic == VIRTIO_MAGIC && version == LEGACY_VERSION && device_id != 0
}

impl VirtIoHeader {
    /// Verify a valid header: the magic value, the legacy version and a
    /// non-zero device id.
    pub fn verify(&self) -> (r: bool)
        ensures
            r == is_valid_header(self.magic, self.version, self.device_id),
    {
        self.magic == VIRTIO_MAGIC && self.version == LEGACY_VERSION && self.device_id != 0
    }
}

} // verus!
