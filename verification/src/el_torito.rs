//! El Torito boot-catalog detection on a raw 2048-byte-sector ISO image.
//!
//! Locates the Boot Record Volume Descriptor, reads the Boot Catalog, checks
//! the Validation Entry (`01h` header, `55h`/`AAh` keys, zero word sum) and
//! reports the Initial/Default Entry. Nothing is loaded or executed.
use vstd::prelude::*;

use crate::bytes::{le16, le16_at, le16_of, le32_at, le32_of, read_le16};

verus! {

/// ISO 9660 logical block size used by El Torito pointers.
pub const EL_TORITO_SECTOR_BYTES: usize = 2048;

/// Sector of the ISO 9660 Primary Volume Descriptor, where the scan starts.
pub const ISO9660_PVD_LBA: u32 = 16;

/// Last sector the volume-descriptor scan looks at.
pub const ISO9660_SCAN_LAST_LBA: u32 = 80;

/// Volume Descriptor Type: Boot Record.
pub const ISO9660_VD_BOOT_RECORD: u8 = 0;

/// Volume Descriptor Type: Set Terminator.
pub const ISO9660_VD_TERMINATOR: u8 = 255;

/// Validation Entry header ID.
pub const EL_TORITO_VALIDATION_HEADER_ID: u8 = 0x01;

/// First Validation Entry key byte (offset 30).
pub const EL_TORITO_KEY_55: u8 = 0x55;

/// Second Validation Entry key byte (offset 31).
pub const EL_TORITO_KEY_AA: u8 = 0xAA;

/// Initial/Default Entry boot indicator for a bootable image.
pub const EL_TORITO_BOOTABLE: u8 = 0x88;

/// Boot media type `00h`: no emulation.
pub const EL_TORITO_MEDIA_NO_EMUL: u8 = 0x00;

/// Load segment used when the catalog stores `0000h`.
pub const EL_TORITO_DEFAULT_LOAD_SEGMENT: u16 = 0x07C0;

/// Physical address of [`EL_TORITO_DEFAULT_LOAD_SEGMENT`].
pub const EL_TORITO_DEFAULT_LOAD_PHYS: u64 = 0x7C00;

/// Platform ID `00h`: 80x86.
pub const EL_TORITO_PLATFORM_X86: u8 = 0x00;

/// The standard identifier `CD001` of every ISO 9660 volume descriptor.
pub open spec fn iso9660_standard_id() -> Seq<u8> {
    seq![0x43u8, 0x44, 0x30, 0x30, 0x31]
}

/// The Boot System Identifier `EL TORITO SPECIFICATION`.
pub open spec fn el_torito_boot_system_id() -> Seq<u8> {
    seq![
        0x45u8, 0x4C, 0x20, 0x54, 0x4F, 0x52, 0x49, 0x54, 0x4F, 0x20, 0x53, 0x50, 0x45, 0x43,
        0x49, 0x46, 0x49, 0x43, 0x41, 0x54, 0x49, 0x4F, 0x4E,
    ]
}

/// Bytes of the ISO 9660 standard identifier `CD001`.
pub fn iso9660_standard_id_bytes() -> (r: Vec<u8>)
    ensures
        r@ == iso9660_standard_id(),
{
    let r: Vec<u8> = vec![0x43u8, 0x44, 0x30, 0x30, 0x31];
    assert(r@ =~= iso9660_standard_id());
    r
}

/// Bytes of the Boot System Identifier `EL TORITO SPECIFICATION`.
pub fn el_torito_boot_system_id_bytes() -> (r: Vec<u8>)
    ensures
        r@ == el_torito_boot_system_id(),
{
    let r: Vec<u8> = vec![
        0x45u8, 0x4C, 0x20, 0x54, 0x4F, 0x52, 0x49, 0x54, 0x4F, 0x20, 0x53, 0x50, 0x45, 0x43,
        0x49, 0x46, 0x49, 0x43, 0x41, 0x54, 0x49, 0x4F, 0x4E,
    ];
    assert(r@ =~= el_torito_boot_system_id());
    r
}

/// Host-side summary of a validated El Torito catalog.
#[derive(Clone, Copy, Debug, PartialEq, Eq, Structural)]
pub struct ElToritoInfo {
    /// Sector of the Boot Record Volume Descriptor.
    pub boot_record_lba: u32,
    /// Sector of the Boot Catalog.
    pub catalog_lba: u32,
    /// Platform ID from the Validation Entry (`00h` = 80x86).
    pub platform_id: u8,
    /// True when the Initial/Default Entry boot indicator is `88h`.
    pub bootable: bool,
    /// Boot media type from the Initial/Default Entry.
    pub media_type: u8,
    /// Load segment from the Initial/Default Entry (`0000h` means default).
    pub load_segment: u16,
    /// Sector of the boot image.
    pub load_rba: u32,
    /// Count of 512-byte virtual sectors to load.
    pub sector_count: u16,
}

impl ElToritoInfo {
    pub open spec fn spec_effective_load_segment(self) -> u16 {
        if self.load_segment == 0 {
            EL_TORITO_DEFAULT_LOAD_SEGMENT
        } else {
            self.load_segment
        }
    }

    /// Effective real-mode load segment (`0000h` resolves to `07C0h`).
    pub fn effective_load_segment(&self) -> (r: u16)
        ensures
            r == self.spec_effective_load_segment(),
    {
        if self.load_segment == 0 {
            EL_TORITO_DEFAULT_LOAD_SEGMENT
        } else {
            self.load_segment
        }
    }

    /// Physical load address: effective segment times 16.
    pub fn load_phys(&self) -> (r: u64)
        ensures
            r == self.spec_effective_load_segment() as int * 16,
    {
        (self.effective_load_segment() as u64) * 16
    }

    /// Bytes the BIOS would transfer (`sector_count` x 512).
    pub fn load_byte_len(&self) -> (r: Option<usize>)
        ensures
            r == Some((self.sector_count as int * 512) as usize),
    {
        Some((self.sector_count as usize) * 512)
    }
}

/// Errors from [`parse_el_torito`].
#[derive(Clone, Copy, Debug, PartialEq, Eq, Structural)]
pub enum ElToritoError {
    /// Image shorter than one ISO sector, or a sector is out of range.
    Truncated,
    /// No El Torito Boot Record Volume Descriptor was found.
    NoBootRecord,
    /// The Boot Catalog sector is missing or truncated.
    TruncatedCatalog,
    /// Validation Entry header ID is not `01h`.
    BadValidationHeader,
    /// Validation Entry key bytes are not `55h`/`AAh`.
    BadValidationKey,
    /// Sum of the Validation Entry words is not zero.
    BadValidationChecksum,
}

impl ElToritoError {
    pub open spec fn spec_message(self) -> Seq<char> {
        match self {
            ElToritoError::Truncated => "ISO image truncated for El Torito parse"@,
            ElToritoError::NoBootRecord => "no El Torito Boot Record Volume Descriptor"@,
            ElToritoError::TruncatedCatalog => "El Torito Boot Catalog truncated"@,
            ElToritoError::BadValidationHeader => "El Torito Validation Entry bad header"@,
            ElToritoError::BadValidationKey => "El Torito Validation Entry missing 55AA"@,
            ElToritoError::BadValidationChecksum => "El Torito Validation Entry checksum failed"@,
        }
    }

    /// Human-readable description of the error.
    pub fn message(&self) -> (r: &'static str)
        ensures
            r@ == self.spec_message(),
    {
        match self {
            ElToritoError::Truncated => "ISO image truncated for El Torito parse",
            ElToritoError::NoBootRecord => "no El Torito Boot Record Volume Descriptor",
            ElToritoError::TruncatedCatalog => "El Torito Boot Catalog truncated",
            ElToritoError::BadValidationHeader => "El Torito Validation Entry bad header",
            ElToritoError::BadValidationKey => "El Torito Validation Entry missing 55AA",
            ElToritoError::BadValidationChecksum => "El Torito Validation Entry checksum failed",
        }
    }
}

/// Whether sector `lba` lies wholly inside an image of `len` bytes.
pub open spec fn sector_in_image(len: int, lba: int) -> bool {
    lba * 2048 + 2048 <= len
}

/// Bytes of sector `lba`.
pub open spec fn sector_bytes(image: Seq<u8>, lba: int) -> Seq<u8> {
    image.subrange(lba * 2048, lba * 2048 + 2048)
}

/// Whether a 2048-byte volume descriptor is an El Torito Boot Record.
pub open spec fn is_boot_record(sec: Seq<u8>) -> bool {
    &&& sec.len() >= 72
    &&& sec[0] == ISO9660_VD_BOOT_RECORD
    &&& sec.subrange(1, 6) == iso9660_standard_id()
    &&& sec[6] == 1
    &&& sec.subrange(7, 30) == el_torito_boot_system_id()
}

/// Outcome of scanning volume descriptors from sector `lba` on: the boot
/// record sector and its catalog pointer, or why none was found.
pub open spec fn scan_boot_record(image: Seq<u8>, lba: int) -> Result<(u32, u32), ElToritoError>
    decreases ISO9660_SCAN_LAST_LBA - lba,
{
    if !sector_in_image(image.len() as int, lba) {
        Err(ElToritoError::Truncated)
    } else if sector_bytes(image, lba)[0] == ISO9660_VD_TERMINATOR {
        Err(ElToritoError::NoBootRecord)
    } else if is_boot_record(sector_bytes(image, lba)) {
        Ok((lba as u32, le32_at(sector_bytes(image, lba), 0x47) as u32))
    } else if lba >= ISO9660_SCAN_LAST_LBA {
        Err(ElToritoError::NoBootRecord)
    } else {
        scan_boot_record(image, lba + 1)
    }
}

/// Sum of the first `n` little-endian words of `entry`, modulo 65536.
pub open spec fn word_sum(entry: Seq<u8>, n: int) -> int
    decreases n,
{
    if n <= 0 {
        0
    } else {
        (word_sum(entry, n - 1) + le16_at(entry, 2 * (n - 1))) % 65536
    }
}

/// Whether the 16 words of a 32-byte Validation Entry sum to zero.
pub open spec fn validation_checksum_holds(entry: Seq<u8>) -> bool {
    word_sum(entry, 16) == 0
}

/// What [`parse_el_torito`] reports for `image`.
pub open spec fn el_torito_spec(image: Seq<u8>) -> Result<ElToritoInfo, ElToritoError> {
    if image.len() < EL_TORITO_SECTOR_BYTES {
        Err(ElToritoError::Truncated)
    } else {
        match scan_boot_record(image, ISO9660_PVD_LBA as int) {
            Err(e) => Err(e),
            Ok((br, cat)) => {
                if !sector_in_image(image.len() as int, cat as int) {
                    Err(ElToritoError::TruncatedCatalog)
                } else {
                    let c = sector_bytes(image, cat as int);
                    if c[0] != EL_TORITO_VALIDATION_HEADER_ID {
                        Err(ElToritoError::BadValidationHeader)
                    } else if c[30] != EL_TORITO_KEY_55 || c[31] != EL_TORITO_KEY_AA {
                        Err(ElToritoError::BadValidationKey)
                    } else if !validation_checksum_holds(c.take(32)) {
                        Err(ElToritoError::BadValidationChecksum)
                    } else {
                        Ok(
                            ElToritoInfo {
                                boot_record_lba: br,
                                catalog_lba: cat,
                                platform_id: c[1],
                                bootable: c[32] == EL_TORITO_BOOTABLE,
                                media_type: c[33],
                                load_segment: le16_at(c, 34) as u16,
                                load_rba: le32_at(c, 40) as u32,
                                sector_count: le16_at(c, 38) as u16,
                            },
                        )
                    }
                }
            },
        }
    }
}

/// Start offset of sector `lba`, when the whole sector lies inside `image`.
fn sector_start(image: &[u8], lba: u32) -> (r: Option<usize>)
    ensures
        match r {
            Some(start) => sector_in_image(image@.len() as int, lba as int) && start == lba * 2048,
            None => !sector_in_image(image@.len() as int, lba as int),
        },
{
    let _n = image.len();
    let start = match (lba as usize).checked_mul(EL_TORITO_SECTOR_BYTES) {
        Some(s) => s,
        None => {
            return None;
        },
    };
    let end = match start.checked_add(EL_TORITO_SECTOR_BYTES) {
        Some(e) => e,
        None => {
            return None;
        },
    };
    if end > image.len() {
        return None;
    }
    Some(start)
}

/// Whether the sector starting at `start` is an El Torito Boot Record.
fn is_el_torito_boot_record(image: &[u8], start: usize) -> (r: bool)
    requires
        start + 2048 <= image@.len(),
    ensures
        r == is_boot_record(image@.subrange(start as int, start + 2048)),
{
    let ghost sec = image@.subrange(start as int, start + 2048);
    let n = image.len();
    if image[start] != ISO9660_VD_BOOT_RECORD {
        return false;
    }
    let id = iso9660_standard_id_bytes();
    let mut i: usize = 0;
    while i < 5
        invariant
            start + 2048 <= image@.len(),
            sec == image@.subrange(start as int, start + 2048),
            id@ == iso9660_standard_id(),
            n == image@.len(),
            i <= 5,
            forall|j: int| 0 <= j < i ==> sec[1 + j] == id@[j],
        decreases 5 - i,
    {
        if image[start + 1 + i] != id[i] {
            assert(sec.subrange(1, 6)[i as int] != iso9660_standard_id()[i as int]);
            return false;
        }
        i = i + 1;
    }
    assert(sec.subrange(1, 6) =~= iso9660_standard_id());
    if image[start + 6] != 1 {
        return false;
    }
    let sys = el_torito_boot_system_id_bytes();
    let mut k: usize = 0;
    while k < 23
        invariant
            start + 2048 <= image@.len(),
            sec == image@.subrange(start as int, start + 2048),
            sys@ == el_torito_boot_system_id(),
            n == image@.len(),
            k <= 23,
            forall|j: int| 0 <= j < k ==> sec[7 + j] == sys@[j],
        decreases 23 - k,
    {
        if image[start + 7 + k] != sys[k] {
            assert(sec.subrange(7, 30)[k as int] != el_torito_boot_system_id()[k as int]);
            return false;
        }
        k = k + 1;
    }
    assert(sec.subrange(7, 30) =~= el_torito_boot_system_id());
    true
}

/// Scan volume descriptors from the Primary Volume Descriptor for the Boot
/// Record; returns its sector and the catalog pointer it holds.
fn find_boot_record(image: &[u8]) -> (r: Result<(u32, u32), ElToritoError>)
    ensures
        r == scan_boot_record(image@, ISO9660_PVD_LBA as int),
{
    let mut lba: u32 = ISO9660_PVD_LBA;
    loop
        invariant
            ISO9660_PVD_LBA <= lba <= ISO9660_SCAN_LAST_LBA,
            scan_boot_record(image@, ISO9660_PVD_LBA as int) == scan_boot_record(image@, lba as int),
        decreases ISO9660_SCAN_LAST_LBA - lba,
    {
        let start = match sector_start(image, lba) {
            Some(s) => s,
            None => {
                return Err(ElToritoError::Truncated);
            },
        };
        assert(sector_bytes(image@, lba as int) =~= image@.subrange(start as int, start + 2048));
        if image[start] == ISO9660_VD_TERMINATOR {
            return Err(ElToritoError::NoBootRecord);
        }
        if is_el_torito_boot_record(image, start) {
            let catalog = le32_of(image, start + 0x47);
            return Ok((lba, catalog));
        }
        if lba >= ISO9660_SCAN_LAST_LBA {
            return Err(ElToritoError::NoBootRecord);
        }
        lba = lba + 1;
    }
}

proof fn lemma_word_sum_bound(entry: Seq<u8>, n: int)
    ensures
        0 <= word_sum(entry, n) < 65536,
    decreases n,
{
    if n > 0 {
        lemma_word_sum_bound(entry, n - 1);
    }
}

/// Whether the 16 little-endian words of the entry at `start` sum to zero.
fn validation_checksum_ok(image: &[u8], start: usize) -> (r: bool)
    requires
        start + 32 <= image@.len(),
    ensures
        r == validation_checksum_holds(image@.subrange(start as int, start + 32)),
{
    let ghost entry = image@.subrange(start as int, start + 32);
    let n = image.len();
    let mut sum: u16 = 0;
    let mut k: usize = 0;
    while k < 16
        invariant
            start + 32 <= image@.len(),
            entry == image@.subrange(start as int, start + 32),
            n == image@.len(),
            k <= 16,
            sum as int == word_sum(entry, k as int),
        decreases 16 - k,
    {
        let w = read_le16(image[start + 2 * k], image[start + 2 * k + 1]);
        proof {
            lemma_word_sum_bound(entry, k as int);
            assert(w as int == le16_at(entry, 2 * k as int));
        }
        sum = sum.wrapping_add(w);
        k = k + 1;
    }
    sum == 0
}

/// Parse the El Torito boot catalog of a raw ISO image.
///
/// Locates the Boot Record, reads the catalog, verifies the Validation Entry
/// and reports the Initial/Default Entry fields.
pub fn parse_el_torito(image: &[u8]) -> (r: Result<ElToritoInfo, ElToritoError>)
    ensures
        r == el_torito_spec(image@),
{
    if image.len() < EL_TORITO_SECTOR_BYTES {
        return Err(ElToritoError::Truncated);
    }
    let (boot_record_lba, catalog_lba) = match find_boot_record(image) {
        Ok(p) => p,
        Err(e) => {
            return Err(e);
        },
    };
    let c0 = match sector_start(image, catalog_lba) {
        Some(s) => s,
        None => {
            return Err(ElToritoError::TruncatedCatalog);
        },
    };
    let ghost c = sector_bytes(image@, catalog_lba as int);
    assert(c =~= image@.subrange(c0 as int, c0 + 2048));
    if image[c0] != EL_TORITO_VALIDATION_HEADER_ID {
        return Err(ElToritoError::BadValidationHeader);
    }
    if image[c0 + 30] != EL_TORITO_KEY_55 || image[c0 + 31] != EL_TORITO_KEY_AA {
        return Err(ElToritoError::BadValidationKey);
    }
    assert(c.take(32) =~= image@.subrange(c0 as int, c0 + 32));
    if !validation_checksum_ok(image, c0) {
        return Err(ElToritoError::BadValidationChecksum);
    }
    let bootable = image[c0 + 32] == EL_TORITO_BOOTABLE;
    let media_type = image[c0 + 33];
    let load_segment = le16_of(image, c0 + 34);
    let sector_count = le16_of(image, c0 + 38);
    let load_rba = le32_of(image, c0 + 40);
    Ok(
        ElToritoInfo {
            boot_record_lba,
            catalog_lba,
            platform_id: image[c0 + 1],
            bootable,
            media_type,
            load_segment,
            load_rba,
            sector_count,
        },
    )
}


/// Where every field of a parsed catalog comes from: the Boot Record sits
/// in a whole sector holding descriptor type 0 and, at byte 47h, the
/// catalog's sector; that sector lies inside the image, starts with header
/// ID 01h and carries the key `55 AA` at bytes 30-31; the platform is byte
/// 1; the Initial/Default Entry at byte 32 gives the boot indicator (byte
/// 32, bootable when 88h), the media type (byte 33), the load segment
/// (bytes 34-35), the sector count (bytes 38-39) and the load RBA (bytes
/// 40-43), all little-endian.
pub proof fn law_el_torito_fields_come_from_the_catalog(image: Seq<u8>)
    ensures
        el_torito_spec(image) matches Ok(info) ==> {
            let b = info.boot_record_lba as int * 2048;
            let c = info.catalog_lba as int * 2048;
            &&& b + 2048 <= image.len()
            &&& image[b] == 0
            &&& info.catalog_lba == image[b + 0x47] as int + 256 * image[b + 0x48] as int + 65536
                * image[b + 0x49] as int + 16777216 * image[b + 0x4A] as int
            &&& c + 2048 <= image.len()
            &&& image[c] == 0x01
            &&& image[c + 30] == 0x55
            &&& image[c + 31] == 0xAA
            &&& info.platform_id == image[c + 1]
            &&& info.bootable == (image[c + 32] == 0x88)
            &&& info.media_type == image[c + 33]
            &&& info.load_segment == image[c + 34] as int + 256 * image[c + 35] as int
            &&& info.sector_count == image[c + 38] as int + 256 * image[c + 39] as int
            &&& info.load_rba == image[c + 40] as int + 256 * image[c + 41] as int + 65536
                * image[c + 42] as int + 16777216 * image[c + 43] as int
        },
{
    if let Ok(info) = el_torito_spec(image) {
        lemma_scan_boot_record_found(image, ISO9660_PVD_LBA as int);
        let (br, cat) = scan_boot_record(image, ISO9660_PVD_LBA as int)->Ok_0;
        let sb = sector_bytes(image, br as int);
        let sc = sector_bytes(image, cat as int);
        assert(sb[0] == image[br as int * 2048]);
        assert(sb[0x47] == image[br as int * 2048 + 0x47]);
        assert(sb[0x48] == image[br as int * 2048 + 0x48]);
        assert(sb[0x49] == image[br as int * 2048 + 0x49]);
        assert(sb[0x4A] == image[br as int * 2048 + 0x4A]);
        let c = cat as int * 2048;
        assert(sc[0] == image[c] && sc[1] == image[c + 1] && sc[30] == image[c + 30] && sc[31]
            == image[c + 31] && sc[32] == image[c + 32] && sc[33] == image[c + 33]);
        assert(sc[34] == image[c + 34] && sc[35] == image[c + 35] && sc[38] == image[c + 38]
            && sc[39] == image[c + 39]);
        assert(sc[40] == image[c + 40] && sc[41] == image[c + 41] && sc[42] == image[c + 42]
            && sc[43] == image[c + 43]);
    }
}

/// A boot record found by the scan is a whole sector of the image holding
/// descriptor type 0, and the catalog pointer is its little-endian dword at
/// byte 47h.
proof fn lemma_scan_boot_record_found(image: Seq<u8>, lba: int)
    requires
        0 <= lba <= ISO9660_SCAN_LAST_LBA,
    ensures
        scan_boot_record(image, lba) matches Ok((br, cat)) ==> {
            &&& br >= lba
            &&& sector_in_image(image.len() as int, br as int)
            &&& is_boot_record(sector_bytes(image, br as int))
            &&& cat == le32_at(sector_bytes(image, br as int), 0x47) as u32
            &&& sector_bytes(image, br as int)[0] == 0
        },
    decreases ISO9660_SCAN_LAST_LBA - lba,
{
    if sector_in_image(image.len() as int, lba) && sector_bytes(image, lba)[0] != ISO9660_VD_TERMINATOR
        && !is_boot_record(sector_bytes(image, lba)) && lba < ISO9660_SCAN_LAST_LBA {
        lemma_scan_boot_record_found(image, lba + 1);
    }
}

} // verus!
