//! Firmware image placement: legacy BIOS dual map and option-ROM validation.
//!
//! A legacy BIOS image sits right-aligned under the top of the 32-bit space and
//! its last (up to) 128 KiB are aliased right-aligned under 1 MiB. Expansion
//! ROMs carry a `55 AA` header, a size byte in 512-byte blocks and a zero
//! byte-wise checksum, and must lie on a 2 KiB boundary inside
//! `0xC0000`-`0xDFFFF`.
use vstd::prelude::*;

use crate::bytes::{checksum8, checksum_of, copy_range};

verus! {

/// End of the 32-bit physical address space (top of 4 GiB).
pub const BIOS_ROM_HIGH_END: u64 = 0x1_0000_0000;

/// End of the first mebibyte, where the low BIOS alias ends.
pub const BIOS_ROM_LOW_END: u64 = 0x0010_0000;

/// Largest BIOS image accepted by [`prepare_bios_rom`].
pub const BIOS_ROM_MAX_SIZE: usize = 262144;

/// Size of the low-memory alias window (`0xE0000`-`0xFFFFF`).
pub const BIOS_ROM_LOW_ALIAS_MAX: usize = 131072;

/// Base of the legacy expansion-ROM region.
pub const OPTION_ROM_REGION_BASE: u64 = 0x000C_0000;

/// End (exclusive) of the legacy expansion-ROM region.
pub const OPTION_ROM_REGION_END: u64 = 0x000E_0000;

/// Boundary the expansion-ROM scan steps by (2 KiB).
pub const OPTION_ROM_SCAN_STEP: u64 = 2048;

/// Conventional base of the video BIOS.
pub const VGA_OPTION_ROM_BASE: u64 = 0x000C_0000;

/// First signature byte of an expansion ROM.
pub const OPTION_ROM_SIGNATURE_0: u8 = 0x55;

/// Second signature byte of an expansion ROM.
pub const OPTION_ROM_SIGNATURE_1: u8 = 0xAA;

/// Unit of the initialization-size byte at offset 2.
pub const OPTION_ROM_BLOCK_SIZE: usize = 512;

/// Smallest header a size and checksum can be read from.
pub const OPTION_ROM_HEADER_LEN: usize = 3;

/// How a ROM image is placed in physical memory.
#[derive(Clone, Debug, PartialEq, Eq)]
pub struct RomImage {
    pub phys_base: u64,
    pub data: Vec<u8>,
}

impl RomImage {
    pub fn new(phys_base: u64, data: Vec<u8>) -> (r: Self)
        ensures
            r.phys_base == phys_base,
            r.data@ == data@,
    {
        RomImage { phys_base, data }
    }
}

/// Dual placement of a legacy BIOS ROM (high map plus below-1 MiB alias).
#[derive(Clone, Debug, PartialEq, Eq)]
pub struct BiosRomMap {
    /// Whole image right-aligned under [`BIOS_ROM_HIGH_END`].
    pub high: RomImage,
    /// Last `min(len, 128 KiB)` bytes right-aligned under [`BIOS_ROM_LOW_END`].
    pub low: RomImage,
}

/// Errors from [`prepare_bios_rom`].
#[derive(Clone, Copy, Debug, PartialEq, Eq, Structural)]
pub enum BiosRomError {
    Empty,
    TooLarge,
}

/// Errors from [`prepare_option_rom`].
#[derive(Clone, Copy, Debug, PartialEq, Eq, Structural)]
pub enum OptionRomError {
    /// Shorter than the signature plus size byte.
    TooSmall,
    /// Offsets 0-1 are not `0x55 0xAA`.
    BadSignature,
    /// The initialization-size byte is zero.
    ZeroSize,
    /// The declared size runs past the supplied image.
    SizeExceedsImage,
    /// The byte-wise sum over the declared size is not zero.
    BadChecksum,
    /// The base is not on a 2 KiB boundary.
    Misaligned,
    /// The image does not fit inside `0xC0000`-`0xDFFFF`.
    OutsideRegion,
}

/// Length of the low alias of an `n`-byte BIOS image.
pub open spec fn bios_low_len(n: int) -> int {
    if n < BIOS_ROM_LOW_ALIAS_MAX as int {
        n
    } else {
        BIOS_ROM_LOW_ALIAS_MAX as int
    }
}

/// The error [`prepare_bios_rom`] reports for an image of `n` bytes, if any.
pub open spec fn bios_rom_error(n: int) -> Option<BiosRomError> {
    if n == 0 {
        Some(BiosRomError::Empty)
    } else if n > BIOS_ROM_MAX_SIZE as int {
        Some(BiosRomError::TooLarge)
    } else {
        None
    }
}

/// Compute the classic-PC high map and low alias of a BIOS image.
///
/// The high copy holds the whole image and ends at the top of 4 GiB; the low
/// copy holds the last `min(len, 128 KiB)` bytes and ends at 1 MiB.
pub fn prepare_bios_rom(data: &[u8]) -> (r: Result<BiosRomMap, BiosRomError>)
    ensures
        match r {
            Ok(map) => {
                &&& bios_rom_error(data@.len() as int) is None
                &&& map.high.phys_base == BIOS_ROM_HIGH_END - data@.len()
                &&& map.high.data@ == data@
                &&& map.low.phys_base == BIOS_ROM_LOW_END - bios_low_len(data@.len() as int)
                &&& map.low.data@ == data@.subrange(
                    data@.len() - bios_low_len(data@.len() as int),
                    data@.len() as int,
                )
            },
            Err(e) => bios_rom_error(data@.len() as int) == Some(e),
        },
{
    if data.len() == 0 {
        return Err(BiosRomError::Empty);
    }
    if data.len() > BIOS_ROM_MAX_SIZE {
        return Err(BiosRomError::TooLarge);
    }
    let n = data.len();
    let high_base = BIOS_ROM_HIGH_END - n as u64;
    let high = RomImage::new(high_base, copy_range(data, 0, n));
    let low_len = if n < BIOS_ROM_LOW_ALIAS_MAX {
        n
    } else {
        BIOS_ROM_LOW_ALIAS_MAX
    };
    let low_off = n - low_len;
    let low_base = BIOS_ROM_LOW_END - low_len as u64;
    let low = RomImage::new(low_base, copy_range(data, low_off, n));
    assert(data@.subrange(0, n as int) =~= data@);
    Ok(BiosRomMap { high, low })
}

/// Declared initialization size of an expansion ROM whose size byte is `b`.
pub open spec fn option_rom_declared_len(b: u8) -> int {
    b as int * OPTION_ROM_BLOCK_SIZE as int
}

/// The error [`prepare_option_rom`] reports for `data` at `phys_base`, if any,
/// checked in the order the BIOS scan applies them.
pub open spec fn option_rom_error(phys_base: u64, data: Seq<u8>) -> Option<OptionRomError> {
    if data.len() < OPTION_ROM_HEADER_LEN {
        Some(OptionRomError::TooSmall)
    } else if data[0] != OPTION_ROM_SIGNATURE_0 || data[1] != OPTION_ROM_SIGNATURE_1 {
        Some(OptionRomError::BadSignature)
    } else if data[2] == 0 {
        Some(OptionRomError::ZeroSize)
    } else if option_rom_declared_len(data[2]) > data.len() {
        Some(OptionRomError::SizeExceedsImage)
    } else if checksum8(data.take(option_rom_declared_len(data[2]))) != 0 {
        Some(OptionRomError::BadChecksum)
    } else if phys_base as int % OPTION_ROM_SCAN_STEP as int != 0 {
        Some(OptionRomError::Misaligned)
    } else if phys_base < OPTION_ROM_REGION_BASE || phys_base as int + option_rom_declared_len(
        data[2],
    ) > OPTION_ROM_REGION_END as int {
        Some(OptionRomError::OutsideRegion)
    } else {
        None
    }
}

/// Validate a PC-compatible expansion ROM and place it in the legacy region.
///
/// Only the declared initialization size is mapped; trailing bytes of the
/// supplied image are not.
pub fn prepare_option_rom(phys_base: u64, data: &[u8]) -> (r: Result<RomImage, OptionRomError>)
    ensures
        match r {
            Ok(img) => {
                &&& option_rom_error(phys_base, data@) is None
                &&& img.phys_base == phys_base
                &&& img.data@ == data@.take(option_rom_declared_len(data@[2]))
            },
            Err(e) => option_rom_error(phys_base, data@) == Some(e),
        },
{
    if data.len() < OPTION_ROM_HEADER_LEN {
        return Err(OptionRomError::TooSmall);
    }
    if data[0] != OPTION_ROM_SIGNATURE_0 || data[1] != OPTION_ROM_SIGNATURE_1 {
        return Err(OptionRomError::BadSignature);
    }
    let blocks = data[2] as usize;
    if blocks == 0 {
        return Err(OptionRomError::ZeroSize);
    }
    let len = blocks * OPTION_ROM_BLOCK_SIZE;
    if len > data.len() {
        return Err(OptionRomError::SizeExceedsImage);
    }
    let checksum = checksum_of(&data[0..len]);
    assert(data@.subrange(0, len as int) =~= data@.take(len as int));
    if checksum != 0 {
        return Err(OptionRomError::BadChecksum);
    }
    if phys_base % OPTION_ROM_SCAN_STEP != 0 {
        return Err(OptionRomError::Misaligned);
    }
    let end = match phys_base.checked_add(len as u64) {
        Some(e) => e,
        None => {
            return Err(OptionRomError::OutsideRegion);
        },
    };
    if phys_base < OPTION_ROM_REGION_BASE || end > OPTION_ROM_REGION_END {
        return Err(OptionRomError::OutsideRegion);
    }
    Ok(RomImage::new(phys_base, copy_range(data, 0, len)))
}


impl BiosRomError {
    pub open spec fn spec_message(self) -> Seq<char> {
        match self {
            BiosRomError::Empty => "BIOS ROM image is empty"@,
            BiosRomError::TooLarge => "BIOS ROM image exceeds 262144 bytes"@,
        }
    }

    /// Human-readable description of the error.
    pub fn message(&self) -> (r: &'static str)
        ensures
            r@ == self.spec_message(),
    {
        match self {
            BiosRomError::Empty => "BIOS ROM image is empty",
            BiosRomError::TooLarge => "BIOS ROM image exceeds 262144 bytes",
        }
    }
}

impl OptionRomError {
    pub open spec fn spec_message(self) -> Seq<char> {
        match self {
            OptionRomError::TooSmall => "option ROM shorter than its header"@,
            OptionRomError::BadSignature => "option ROM signature is not 0x55AA"@,
            OptionRomError::ZeroSize => "option ROM initialization size is zero"@,
            OptionRomError::SizeExceedsImage => "option ROM size byte exceeds the image"@,
            OptionRomError::BadChecksum => "option ROM checksum is not zero"@,
            OptionRomError::Misaligned => "option ROM base is not 2048-byte aligned"@,
            OptionRomError::OutsideRegion => "option ROM does not fit in 0xC0000-0xDFFFF"@,
        }
    }

    /// Human-readable description of the error.
    pub fn message(&self) -> (r: &'static str)
        ensures
            r@ == self.spec_message(),
    {
        match self {
            OptionRomError::TooSmall => "option ROM shorter than its header",
            OptionRomError::BadSignature => "option ROM signature is not 0x55AA",
            OptionRomError::ZeroSize => "option ROM initialization size is zero",
            OptionRomError::SizeExceedsImage => "option ROM size byte exceeds the image",
            OptionRomError::BadChecksum => "option ROM checksum is not zero",
            OptionRomError::Misaligned => "option ROM base is not 2048-byte aligned",
            OptionRomError::OutsideRegion => "option ROM does not fit in 0xC0000-0xDFFFF",
        }
    }
}

} // verus!
