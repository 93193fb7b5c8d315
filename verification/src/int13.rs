//! INT 13h register packing and fixed 16-head / 63-sector CHS geometry.
use vstd::prelude::*;

verus! {

/// First floppy (`DL`).
pub const INT13_DRIVE_FD0: u8 = 0x00;

/// First hard disk (`DL`).
pub const INT13_DRIVE_HD0: u8 = 0x80;

/// AH=00h: reset disk system.
pub const INT13_AH_RESET: u8 = 0x00;

/// AH=02h: read sectors into `ES:BX`.
pub const INT13_AH_READ: u8 = 0x02;

/// AH=03h: write sectors from `ES:BX`.
pub const INT13_AH_WRITE: u8 = 0x03;

/// AH=08h: get drive parameters.
pub const INT13_AH_GET_DRIVE_PARAMS: u8 = 0x08;

/// AH=41h: check extensions present.
pub const INT13_AH_CHECK_EXTENSIONS: u8 = 0x41;

/// AH=42h: extended read.
pub const INT13_AH_EXT_READ: u8 = 0x42;

/// AH=43h: extended write.
pub const INT13_AH_EXT_WRITE: u8 = 0x43;

/// Magic `BX` input for AH=41h.
pub const INT13_EXT_MAGIC_IN: u16 = 0x55AA;

/// Heads of the fixed hard-disk geometry.
pub const INT13_HD_HEADS: u16 = 16;

/// Sectors per track of the fixed hard-disk geometry.
pub const INT13_HD_SPT: u16 = 63;

/// ATA / BIOS sector size.
pub const INT13_SECTOR_SIZE: usize = 512;

/// `CX` for a cylinder and sector: cylinder bits 7:0 in `CH`, cylinder bits
/// 9:8 in `CL` bits 7:6, sector in `CL` bits 5:0.
pub open spec fn pack_cx_spec(cylinder: u16, sector: u8) -> u16 {
    (((cylinder & 0xFF) << 8u16) | (((cylinder >> 8u16) & 0x03) << 6u16) | ((sector & 0x3F) as u16)) as u16
}

/// Cylinder and sector held in a `CX` value.
pub open spec fn unpack_cx_spec(cx: u16) -> (u16, u8) {
    ((((cx >> 6u16) & 0x03) << 8u16) | ((cx >> 8u16) & 0xFF), (cx & 0x3F) as u8)
}

/// Pack cylinder/sector into INT 13h `CX`.
pub fn pack_cx(cylinder: u16, sector: u8) -> (r: u16)
    ensures
        r == pack_cx_spec(cylinder, sector),
{
    let cyl_hi = (cylinder >> 8u16) & 0x03;
    let cyl_lo = cylinder & 0xFF;
    let sec = (sector & 0x3F) as u16;
    (cyl_lo << 8u16) | (cyl_hi << 6u16) | sec
}

/// Unpack INT 13h `CX` into (cylinder, sector).
pub fn unpack_cx(cx: u16) -> (r: (u16, u8))
    ensures
        r == unpack_cx_spec(cx),
{
    let sector = (cx & 0x3F) as u8;
    let cyl_lo = (cx >> 8u16) & 0xFF;
    let cyl_hi = (cx >> 6u16) & 0x03;
    ((cyl_hi << 8u16) | cyl_lo, sector)
}

/// LBA of a CHS address under the fixed 16/63 geometry (sector is 1-based).
pub open spec fn chs_to_lba_spec(cylinder: u16, head: u8, sector: u8) -> Option<u64> {
    if sector == 0 || head >= INT13_HD_HEADS || sector > INT13_HD_SPT {
        None
    } else {
        Some(((cylinder * INT13_HD_HEADS + head) * INT13_HD_SPT + sector - 1) as u64)
    }
}

/// CHS to LBA using fixed 16/63 geometry; `None` for sector 0, a head
/// beyond 15 or a sector beyond 63.
pub fn chs_to_lba(cylinder: u16, head: u8, sector: u8) -> (r: Option<u64>)
    ensures
        r == chs_to_lba_spec(cylinder, head, sector),
{
    if sector == 0 || (head as u16) >= INT13_HD_HEADS || (sector as u16) > INT13_HD_SPT {
        return None;
    }
    assert((cylinder as u64) * 16 <= 0x10_0000) by (nonlinear_arith)
        requires
            cylinder <= 0xFFFF,
    ;
    assert(((cylinder as u64) * 16 + 15) * 63 <= 0x1000_0000) by (nonlinear_arith)
        requires
            (cylinder as u64) * 16 <= 0x10_0000,
    ;
    let lba = ((cylinder as u64) * (INT13_HD_HEADS as u64) + (head as u64)) * (INT13_HD_SPT as u64)
        + (sector as u64 - 1);
    Some(lba)
}

/// Packing a cylinder below 1024 and a sector below 64 into `CX` and
/// unpacking it gives them back.
pub proof fn law_pack_unpack_cx(cylinder: u16, sector: u8)
    requires
        cylinder < 1024,
        sector < 64,
    ensures
        unpack_cx_spec(pack_cx_spec(cylinder, sector)) == (cylinder, sector),
{
    let cx = pack_cx_spec(cylinder, sector);
    let c2 = unpack_cx_spec(cx).0;
    let s2 = unpack_cx_spec(cx).1;
    let sec16 = (sector & 0x3F) as u16;
    assert(sec16 < 64 && sec16 == sector) by (bit_vector)
        requires
            sector < 64,
            sec16 == (sector & 0x3F) as u16,
    ;
    assert(c2 == cylinder) by (bit_vector)
        requires
            cylinder < 1024,
            sec16 < 64,
            cx == ((cylinder & 0xFF) << 8u16) | (((cylinder >> 8u16) & 0x03) << 6u16) | sec16,
            c2 == (((cx >> 6u16) & 0x03) << 8u16) | ((cx >> 8u16) & 0xFF),
    ;
    assert((cx & 0x3F) == sec16) by (bit_vector)
        requires
            sec16 < 64,
            cx == ((cylinder & 0xFF) << 8u16) | (((cylinder >> 8u16) & 0x03) << 6u16) | sec16,
    ;
}

/// Every `CX` value is the packing of the cylinder and sector it holds.
pub proof fn law_unpack_pack_cx(cx: u16)
    ensures
        pack_cx_spec(unpack_cx_spec(cx).0, unpack_cx_spec(cx).1) == cx,
{
    let c = unpack_cx_spec(cx).0;
    let s = unpack_cx_spec(cx).1;
    let s16 = (s & 0x3F) as u16;
    assert(s16 == cx & 0x3F) by (bit_vector)
        requires
            s == (cx & 0x3F) as u8,
            s16 == (s & 0x3F) as u16,
    ;
    assert(((c & 0xFF) << 8u16) | (((c >> 8u16) & 0x03) << 6u16) | (cx & 0x3F) == cx) by (bit_vector)
        requires
            c == (((cx >> 6u16) & 0x03) << 8u16) | ((cx >> 8u16) & 0xFF),
    ;
}

} // verus!
