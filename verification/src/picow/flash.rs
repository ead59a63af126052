//! The parts of the flash memory that hold the software of the Wi-Fi chip.
//!
//! They are loaded once, each to its base address:
//! `probe-rs download <file> --binary-format bin --chip RP2040 --base-address <base>`.
use vstd::prelude::*;

verus! {

/// Where the firmware of the Wi-Fi chip begins.
pub const FIRMWARE_BASE: usize = 0x1010_0000;

/// The length of the firmware, in bytes.
pub const FIRMWARE_LEN: usize = 231_077;

/// Where the country locale matrix of the Wi-Fi chip begins.
pub const CLM_BASE: usize = 0x1014_0000;

/// The length of the country locale matrix, in bytes.
pub const CLM_LEN: usize = 984;

/// A part of the flash memory.
#[derive(Clone, Copy, Debug, PartialEq, Eq, Structural)]
pub struct FlashRegion {
    pub base: usize,
    pub len: usize,
}

impl FlashRegion {
    /// Whether the address lies in the region.
    pub open spec fn covers(self, address: int) -> bool {
        self.base <= address < self.base + self.len
    }
}

/// The firmware of the Wi-Fi chip.
pub open spec fn firmware_region() -> FlashRegion {
    FlashRegion { base: FIRMWARE_BASE, len: FIRMWARE_LEN }
}

/// The country locale matrix of the Wi-Fi chip.
pub open spec fn clm_region() -> FlashRegion {
    FlashRegion { base: CLM_BASE, len: CLM_LEN }
}

/// The two parts have no byte in common, so that loading one leaves the other alone.
pub proof fn law_flash_regions_are_apart(address: int)
    ensures
        !(firmware_region().covers(address) && clm_region().covers(address)),
{
}

} // verus!
