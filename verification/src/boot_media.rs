//! INT 19h boot-media classification and minimal bootable disk images.
//!
//! A raw image is an INT 19h candidate when its first sector carries `55 AA`
//! and it is either an exact 1.44 MB floppy or a disk with an active (`80h`)
//! partition entry.
use vstd::prelude::*;

use crate::text::{alt_hex, dec_digits, push_alt_hex, push_dec};
use crate::int13_disk::IdeDisk;
use crate::int13_floppy::FloppyMedia;
use crate::bytes::{fill, le32_at, le32_of, le32_seq, push_bytes, push_fill, push_le32};
use crate::mbr::{
    first_active_index, first_active_slot, has_boot_signature, part_entry_off, MBR_PART0_OFF,
    MBR_PART_BOOTABLE, MBR_SECTOR_SIZE, MBR_SIGNATURE_HI, MBR_SIGNATURE_LO,
};

verus! {

/// Size of a 1.44 MB floppy image.
pub const FDC_1440_IMAGE_SIZE: usize = 1474560;

/// FAT12 system ID.
pub const MBR_PART_TYPE_FAT12: u8 = 0x01;

/// How a raw image looks to an INT 19h boot scan.
#[derive(Clone, Copy, Debug, PartialEq, Eq, Structural)]
pub enum Int19BootMediaClass {
    /// Shorter than one sector.
    TooShort,
    /// Sector 0 lacks `0x55AA`.
    MissingSignature,
    /// Disk image with signature but no active partition.
    HdSignatureOnly,
    /// Disk image with an active partition entry.
    HdActivePartition { part_lba: u32, part_type: u8 },
    /// Exact 1.44 MB floppy with a signed boot sector.
    FloppyBootSector,
}

impl Int19BootMediaClass {
    pub open spec fn spec_tag(self) -> Seq<char> {
        match self {
            Int19BootMediaClass::TooShort => "too-short"@,
            Int19BootMediaClass::MissingSignature => "missing-signature"@,
            Int19BootMediaClass::HdSignatureOnly => "hd-signature-only"@,
            Int19BootMediaClass::HdActivePartition { .. } => "hd-active-partition"@,
            Int19BootMediaClass::FloppyBootSector => "floppy-boot-sector"@,
        }
    }

    pub open spec fn spec_is_int19_candidate(self) -> bool {
        self is HdActivePartition || self is FloppyBootSector
    }

    /// Stable triage tag.
    pub fn tag(&self) -> (r: &'static str)
        ensures
            r@ == self.spec_tag(),
    {
        match self {
            Int19BootMediaClass::TooShort => "too-short",
            Int19BootMediaClass::MissingSignature => "missing-signature",
            Int19BootMediaClass::HdSignatureOnly => "hd-signature-only",
            Int19BootMediaClass::HdActivePartition { .. } => "hd-active-partition",
            Int19BootMediaClass::FloppyBootSector => "floppy-boot-sector",
        }
    }

    /// True when an INT 19h scan would treat this as bootable media.
    pub fn is_int19_candidate(&self) -> (r: bool)
        ensures
            r == self.spec_is_int19_candidate(),
    {
        match self {
            Int19BootMediaClass::HdActivePartition { .. } => true,
            Int19BootMediaClass::FloppyBootSector => true,
            _ => false,
        }
    }
}

/// The class [`classify_int19_boot_image`] gives `image`.
pub open spec fn int19_class_spec(image: Seq<u8>) -> Int19BootMediaClass {
    if image.len() < MBR_SECTOR_SIZE {
        Int19BootMediaClass::TooShort
    } else if !has_boot_signature(image) {
        Int19BootMediaClass::MissingSignature
    } else if image.len() == FDC_1440_IMAGE_SIZE {
        Int19BootMediaClass::FloppyBootSector
    } else {
        match first_active_slot(image, 0) {
            Some(i) => Int19BootMediaClass::HdActivePartition {
                part_lba: le32_at(image, part_entry_off(i) + 8) as u32,
                part_type: image[part_entry_off(i) + 4],
            },
            None => Int19BootMediaClass::HdSignatureOnly,
        }
    }
}

/// Classify a raw disk or floppy buffer for INT 19h boot candidacy (boot
/// signature, then exact floppy size, then an active partition entry).
pub fn classify_int19_boot_image(image: &[u8]) -> (r: Int19BootMediaClass)
    ensures
        r == int19_class_spec(image@),
{
    if image.len() < MBR_SECTOR_SIZE {
        return Int19BootMediaClass::TooShort;
    }
    if image[510] != MBR_SIGNATURE_LO || image[511] != MBR_SIGNATURE_HI {
        return Int19BootMediaClass::MissingSignature;
    }
    if image.len() == FDC_1440_IMAGE_SIZE {
        return Int19BootMediaClass::FloppyBootSector;
    }
    match first_active_index(image) {
        Some(i) => {
            let off = MBR_PART0_OFF + i * 16;
            Int19BootMediaClass::HdActivePartition {
                part_lba: le32_of(image, off + 8),
                part_type: image[off + 4],
            }
        },
        None => Int19BootMediaClass::HdSignatureOnly,
    }
}

/// An active partition-table entry with decorative CHS `0/1/1`.
pub open spec fn active_part_entry(part_lba: u32, part_sectors: u32, part_type: u8) -> Seq<u8> {
    seq![MBR_PART_BOOTABLE, 0x01u8, 0x01, 0x00, part_type, 0x01, 0x01, 0x00] + le32_seq(part_lba)
        + le32_seq(part_sectors)
}

/// A sector whose code is a lone `HLT`, padded with `NOP`s and signed.
pub open spec fn hlt_sector() -> Seq<u8> {
    seq![0xF4u8] + fill(509, 0x90) + seq![MBR_SIGNATURE_LO, MBR_SIGNATURE_HI]
}

/// A signed MBR: `HLT`, a four-byte marker, `NOP` padding and partition
/// entry 0 active.
pub open spec fn marked_mbr(marker: Seq<u8>, part_lba: u32, part_sectors: u32, part_type: u8) -> Seq<u8> {
    seq![0xF4u8] + marker + fill(441, 0x90) + active_part_entry(part_lba, part_sectors, part_type)
        + fill(48, 0x90) + seq![MBR_SIGNATURE_LO, MBR_SIGNATURE_HI]
}

/// ASCII `INT1`.
pub open spec fn marker_int1() -> Seq<u8> {
    seq![0x49u8, 0x4E, 0x54, 0x31]
}

/// ASCII `FDST`.
pub open spec fn marker_fdst() -> Seq<u8> {
    seq![0x46u8, 0x44, 0x53, 0x54]
}

/// ASCII `FLOP`.
pub open spec fn marker_flop() -> Seq<u8> {
    seq![0x46u8, 0x4C, 0x4F, 0x50]
}

/// Real-mode code: print `FD` on COM1, store a white-on-black `F` at the top
/// left of VGA text memory, halt.
pub open spec fn fd_banner_code() -> Seq<u8> {
    seq![
        0xBAu8, 0xF8, 0x03, 0xB0, 0x46, 0xEE, 0xB0, 0x44, 0xEE, 0xB8, 0x00, 0xB8, 0x8E, 0xC0,
        0x31, 0xFF, 0xB0, 0x46, 0xB4, 0x07, 0xAB, 0xF4,
    ]
}

/// ASCII `FREEDOS-STUB-PAYLOAD` followed by a NUL.
pub open spec fn freedos_stub_payload() -> Seq<u8> {
    seq![
        0x46u8, 0x52, 0x45, 0x45, 0x44, 0x4F, 0x53, 0x2D, 0x53, 0x54, 0x55, 0x42, 0x2D, 0x50,
        0x41, 0x59, 0x4C, 0x4F, 0x41, 0x44, 0x00,
    ]
}

/// Append the bytes of a partition-table entry.
pub fn push_active_part_entry(v: &mut Vec<u8>, part_lba: u32, part_sectors: u32, part_type: u8)
    ensures
        final(v)@ == old(v)@ + active_part_entry(part_lba, part_sectors, part_type),
{
    let head: Vec<u8> = vec![MBR_PART_BOOTABLE, 0x01u8, 0x01, 0x00, part_type, 0x01, 0x01, 0x00];
    push_bytes(v, head.as_slice());
    push_le32(v, part_lba);
    push_le32(v, part_sectors);
    assert(v@ =~= old(v)@ + active_part_entry(part_lba, part_sectors, part_type));
}

/// Append a `HLT` sector.
pub fn push_hlt_sector(v: &mut Vec<u8>)
    ensures
        final(v)@ == old(v)@ + hlt_sector(),
{
    v.push(0xF4);
    push_fill(v, 0x90, 509);
    v.push(MBR_SIGNATURE_LO);
    v.push(MBR_SIGNATURE_HI);
    assert(v@ =~= old(v)@ + hlt_sector());
}

/// Append a marked MBR.
pub fn push_marked_mbr(v: &mut Vec<u8>, marker: &[u8], part_lba: u32, part_sectors: u32, part_type: u8)
    ensures
        final(v)@ == old(v)@ + marked_mbr(marker@, part_lba, part_sectors, part_type),
{
    v.push(0xF4);
    push_bytes(v, marker);
    push_fill(v, 0x90, 441);
    push_active_part_entry(v, part_lba, part_sectors, part_type);
    push_fill(v, 0x90, 48);
    v.push(MBR_SIGNATURE_LO);
    v.push(MBR_SIGNATURE_HI);
    assert(v@ =~= old(v)@ + marked_mbr(marker@, part_lba, part_sectors, part_type));
}

/// Bytes of [`fd_banner_code`].
pub fn fd_banner_code_bytes() -> (r: Vec<u8>)
    ensures
        r@ == fd_banner_code(),
{
    let r: Vec<u8> = vec![
        0xBAu8, 0xF8, 0x03, 0xB0, 0x46, 0xEE, 0xB0, 0x44, 0xEE, 0xB8, 0x00, 0xB8, 0x8E, 0xC0,
        0x31, 0xFF, 0xB0, 0x46, 0xB4, 0x07, 0xAB, 0xF4,
    ];
    assert(r@ =~= fd_banner_code());
    r
}

/// Layout of [`synthetic_int19_bootable_hd`].
pub open spec fn bootable_hd_spec() -> Seq<u8> {
    marked_mbr(marker_int1(), 1, 31, MBR_PART_TYPE_FAT12) + hlt_sector() + fill(15360, 0)
}

/// Minimal INT 19h-bootable disk: signed `HLT` MBR marked `INT1` with an
/// active FAT12 partition at LBA 1 (31 sectors), a `HLT` VBR at LBA 1, and
/// zeroed sectors up to 32 in all.
pub fn synthetic_int19_bootable_hd() -> (r: Vec<u8>)
    ensures
        r@ == bootable_hd_spec(),
{
    let marker: Vec<u8> = vec![0x49u8, 0x4E, 0x54, 0x31];
    assert(marker@ =~= marker_int1());
    let mut img: Vec<u8> = Vec::new();
    push_marked_mbr(&mut img, marker.as_slice(), 1, 31, MBR_PART_TYPE_FAT12);
    push_hlt_sector(&mut img);
    push_fill(&mut img, 0, 30 * 512);
    assert(img@ =~= bootable_hd_spec());
    img
}

/// VBR that prints `FD`, stores a VGA glyph and halts.
pub open spec fn fd_banner_vbr() -> Seq<u8> {
    fd_banner_code() + fill(488, 0x90) + seq![MBR_SIGNATURE_LO, MBR_SIGNATURE_HI]
}

/// Layout of [`synthetic_int19_freedos_stub_hd`].
pub open spec fn freedos_stub_hd_spec() -> Seq<u8> {
    marked_mbr(marker_fdst(), 1, 31, MBR_PART_TYPE_FAT12) + fd_banner_vbr() + freedos_stub_payload()
        + fill(491, 0) + fill(14848, 0)
}

/// INT 19h disk with an active partition whose VBR prints `FD` then halts;
/// the MBR is a marked `HLT` (`FDST`) and LBA 2 holds a payload marker.
pub fn synthetic_int19_freedos_stub_hd() -> (r: Vec<u8>)
    ensures
        r@ == freedos_stub_hd_spec(),
{
    let marker: Vec<u8> = vec![0x46u8, 0x44, 0x53, 0x54];
    assert(marker@ =~= marker_fdst());
    let mut img: Vec<u8> = Vec::new();
    push_marked_mbr(&mut img, marker.as_slice(), 1, 31, MBR_PART_TYPE_FAT12);
    let code = fd_banner_code_bytes();
    push_bytes(&mut img, code.as_slice());
    push_fill(&mut img, 0x90, 488);
    img.push(MBR_SIGNATURE_LO);
    img.push(MBR_SIGNATURE_HI);
    let payload: Vec<u8> = vec![
        0x46u8, 0x52, 0x45, 0x45, 0x44, 0x4F, 0x53, 0x2D, 0x53, 0x54, 0x55, 0x42, 0x2D, 0x50,
        0x41, 0x59, 0x4C, 0x4F, 0x41, 0x44, 0x00,
    ];
    assert(payload@ =~= freedos_stub_payload());
    push_bytes(&mut img, payload.as_slice());
    push_fill(&mut img, 0, 491);
    push_fill(&mut img, 0, 29 * 512);
    assert(img@ =~= freedos_stub_hd_spec());
    img
}

/// Layout of [`synthetic_int19_bootable_floppy`].
pub open spec fn bootable_floppy_spec() -> Seq<u8> {
    seq![0xF4u8] + marker_flop() + fill(505, 0x90) + seq![MBR_SIGNATURE_LO, MBR_SIGNATURE_HI] + fill(
        (FDC_1440_IMAGE_SIZE - 512) as int,
        0,
    )
}

/// Minimal INT 19h-bootable 1.44 MB floppy: a signed `HLT` boot sector
/// marked `FLOP`, the rest zero.
pub fn synthetic_int19_bootable_floppy() -> (r: Vec<u8>)
    ensures
        r@ == bootable_floppy_spec(),
{
    let mut img: Vec<u8> = Vec::new();
    img.push(0xF4);
    let marker: Vec<u8> = vec![0x46u8, 0x4C, 0x4F, 0x50];
    assert(marker@ =~= marker_flop());
    push_bytes(&mut img, marker.as_slice());
    push_fill(&mut img, 0x90, 505);
    img.push(MBR_SIGNATURE_LO);
    img.push(MBR_SIGNATURE_HI);
    push_fill(&mut img, 0, FDC_1440_IMAGE_SIZE - 512);
    assert(img@ =~= bootable_floppy_spec());
    img
}


impl Int19BootMediaClass {
    /// The displayed class: the tag, with the LBA and type of an active
    /// partition (`hd-active-partition:lba=N type=0xTT`).
    pub open spec fn spec_display(self) -> Seq<char> {
        match self {
            Int19BootMediaClass::HdActivePartition { part_lba, part_type } => "hd-active-partition:lba="@
                + dec_digits(part_lba as nat) + " type="@ + alt_hex(part_type as nat, 4),
            _ => self.spec_tag(),
        }
    }

    /// Render the class as [`Self::spec_display`] describes.
    pub fn to_string(&self) -> (r: String)
        ensures
            r@ == self.spec_display(),
    {
        match self {
            Int19BootMediaClass::HdActivePartition { part_lba, part_type } => {
                let mut s = String::from_str("hd-active-partition:lba=");
                push_dec(&mut s, *part_lba as u64);
                s.append(" type=");
                push_alt_hex(&mut s, *part_type as u64, 4);
                s
            },
            _ => String::from_str(self.tag()),
        }
    }
}


/// INT 19h class of the attached IDE disk (none, or an empty image, is
/// too short).
pub fn classify_attached_ide_int19(ide: &IdeDisk) -> (r: Int19BootMediaClass)
    ensures
        r == (if !ide.present || ide.image@.len() == 0 {
            Int19BootMediaClass::TooShort
        } else {
            int19_class_spec(ide.image@)
        }),
{
    if !ide.present || ide.image.len() == 0 {
        return Int19BootMediaClass::TooShort;
    }
    classify_int19_boot_image(ide.image.as_slice())
}

/// INT 19h class of the attached floppy from its CHS (0,0,1) sector: too
/// short without media or sector, else signed boot sector or not.
pub fn classify_attached_floppy_int19(fd: &FloppyMedia) -> (r: Int19BootMediaClass)
    ensures
        r == (if !fd.attached || fd.image@.len() < 512 {
            Int19BootMediaClass::TooShort
        } else if !has_boot_signature(fd.image@) {
            Int19BootMediaClass::MissingSignature
        } else {
            Int19BootMediaClass::FloppyBootSector
        }),
{
    if !fd.attached || fd.image.len() < MBR_SECTOR_SIZE {
        return Int19BootMediaClass::TooShort;
    }
    if fd.image[510] != MBR_SIGNATURE_LO || fd.image[511] != MBR_SIGNATURE_HI {
        return Int19BootMediaClass::MissingSignature;
    }
    Int19BootMediaClass::FloppyBootSector
}

} // verus!
