//! Synthetic guest images for the measure harness: a FreeDOS-like disk, a
//! Linux serial stub disk, a bzImage-shaped real-mode setup, and El Torito
//! no-emulation ISOs whose boot image is an HLT stub or that setup. None is
//! an operating system.
use vstd::prelude::*;

use crate::bytes::{fill, le16_at, le16_seq, le32_at, le32_seq, push_bytes, push_fill, push_le16, push_le32};
use crate::el_torito::{
    el_torito_boot_system_id, el_torito_boot_system_id_bytes, el_torito_spec, is_boot_record,
    iso9660_standard_id, iso9660_standard_id_bytes, scan_boot_record, sector_bytes, word_sum,
    ElToritoError, ElToritoInfo, EL_TORITO_SECTOR_BYTES,
};
use crate::linux_boot::{
    deeper_class_spec, synthetic_header_spec, synthetic_linux_boot_protocol_header,
    BzImageEarlyClass, BzImageNextStep,
};

verus! {

/// Real-mode code: `mov dx,3F8h; mov al,'F'; out dx,al; mov al,'D';
/// out dx,al; mov ax,0B800h; mov es,ax; xor di,di; mov al,'F'; mov ah,07h;
/// stosw; hlt`.
pub open spec fn fd_banner_code() -> Seq<u8> {
    seq![
        0xBAu8, 0xF8, 0x03, 0xB0, 0x46, 0xEE, 0xB0, 0x44, 0xEE, 0xB8, 0x00, 0xB8, 0x8E, 0xC0,
        0x31, 0xFF, 0xB0, 0x46, 0xB4, 0x07, 0xAB, 0xF4,
    ]
}

/// Real-mode code: `mov dx,3F8h`, then `mov al,c; out dx,al` for `L`, `X`,
/// CR and LF, then `hlt`.
pub open spec fn lx_crlf_code() -> Seq<u8> {
    seq![
        0xBAu8, 0xF8, 0x03, 0xB0, 0x4C, 0xEE, 0xB0, 0x58, 0xEE, 0xB0, 0x0D, 0xEE, 0xB0, 0x0A,
        0xEE, 0xF4,
    ]
}

/// Real-mode code: `mov dx,3F8h`, then `L` and `X` out to COM1, then `hlt`.
pub open spec fn lx_hlt_code() -> Seq<u8> {
    seq![0xBAu8, 0xF8, 0x03, 0xB0, 0x4C, 0xEE, 0xB0, 0x58, 0xEE, 0xF4]
}

/// ASCII `FREEDOS-LIKE-PAYLOAD` and a NUL.
pub open spec fn freedos_like_marker() -> Seq<u8> {
    seq![
        0x46u8, 0x52, 0x45, 0x45, 0x44, 0x4F, 0x53, 0x2D, 0x4C, 0x49, 0x4B, 0x45, 0x2D, 0x50,
        0x41, 0x59, 0x4C, 0x4F, 0x41, 0x44, 0x00,
    ]
}

/// ASCII `LINUX-SERIAL-STUB` and a NUL.
pub open spec fn linux_serial_marker() -> Seq<u8> {
    seq![
        0x4Cu8, 0x49, 0x4E, 0x55, 0x58, 0x2D, 0x53, 0x45, 0x52, 0x49, 0x41, 0x4C, 0x2D, 0x53,
        0x54, 0x55, 0x42, 0x00,
    ]
}

/// A signed 512-byte boot sector: `code`, `NOP` padding, `55 AA`.
pub open spec fn signed_nop_sector(code: Seq<u8>) -> Seq<u8> {
    code + fill(510 - code.len(), 0x90) + seq![0x55u8, 0xAA]
}

/// The FreeDOS-like disk: the banner MBR, the payload marker in LBA1, and
/// two zero sectors.
pub open spec fn freedos_like_disk_spec() -> Seq<u8> {
    signed_nop_sector(fd_banner_code()) + freedos_like_marker() + fill(512 - 21, 0) + fill(1024, 0)
}

/// The Linux serial stub disk: the `LX` CR LF MBR and the marker in LBA1.
pub open spec fn linux_serial_stub_disk_spec() -> Seq<u8> {
    signed_nop_sector(lx_crlf_code()) + linux_serial_marker() + fill(512 - 18, 0)
}

/// Append `code`, `NOP` padding and `55 AA`.
fn push_signed_nop_sector(img: &mut Vec<u8>, code: &[u8])
    requires
        code@.len() <= 510,
    ensures
        final(img)@ == old(img)@ + signed_nop_sector(code@),
{
    push_bytes(img, code);
    push_fill(img, 0x90, 510 - code.len());
    img.push(0x55);
    img.push(0xAA);
    assert(img@ =~= old(img)@ + signed_nop_sector(code@));
}

/// FreeDOS-like IDE image: the MBR prints `FD` to COM1 and an `F` to VGA,
/// then halts; LBA1 holds an ASCII payload marker.
pub fn synthetic_freedos_like_disk() -> (r: Vec<u8>)
    ensures
        r@ == freedos_like_disk_spec(),
        r@.len() == 2048,
{
    let code: Vec<u8> = vec![
        0xBAu8, 0xF8, 0x03, 0xB0, 0x46, 0xEE, 0xB0, 0x44, 0xEE, 0xB8, 0x00, 0xB8, 0x8E, 0xC0,
        0x31, 0xFF, 0xB0, 0x46, 0xB4, 0x07, 0xAB, 0xF4,
    ];
    assert(code@ =~= fd_banner_code());
    let marker: Vec<u8> = vec![
        0x46u8, 0x52, 0x45, 0x45, 0x44, 0x4F, 0x53, 0x2D, 0x4C, 0x49, 0x4B, 0x45, 0x2D, 0x50,
        0x41, 0x59, 0x4C, 0x4F, 0x41, 0x44, 0x00,
    ];
    assert(marker@ =~= freedos_like_marker());
    let mut img: Vec<u8> = Vec::new();
    push_signed_nop_sector(&mut img, code.as_slice());
    push_bytes(&mut img, marker.as_slice());
    push_fill(&mut img, 0, 512 - 21);
    push_fill(&mut img, 0, 1024);
    assert(img@ =~= freedos_like_disk_spec());
    img
}

/// Linux serial-path stub disk: the MBR prints `LX` CR LF to COM1, then
/// halts; LBA1 holds an ASCII marker.
pub fn synthetic_linux_serial_stub_disk() -> (r: Vec<u8>)
    ensures
        r@ == linux_serial_stub_disk_spec(),
        r@.len() == 1024,
{
    let code: Vec<u8> = vec![
        0xBAu8, 0xF8, 0x03, 0xB0, 0x4C, 0xEE, 0xB0, 0x58, 0xEE, 0xB0, 0x0D, 0xEE, 0xB0, 0x0A,
        0xEE, 0xF4,
    ];
    assert(code@ =~= lx_crlf_code());
    let marker: Vec<u8> = vec![
        0x4Cu8, 0x49, 0x4E, 0x55, 0x58, 0x2D, 0x53, 0x45, 0x52, 0x49, 0x41, 0x4C, 0x2D, 0x53,
        0x54, 0x55, 0x42, 0x00,
    ];
    assert(marker@ =~= linux_serial_marker());
    let mut img: Vec<u8> = Vec::new();
    push_signed_nop_sector(&mut img, code.as_slice());
    push_bytes(&mut img, marker.as_slice());
    push_fill(&mut img, 0, 512 - 18);
    assert(img@ =~= linux_serial_stub_disk_spec());
    img
}

/// The synthetic real-mode setup: a protocol 2.00 header with one setup
/// sector, a short `JMP` to `0x220` at the entry `0x200`, the `LX` + `HLT`
/// code at `0x220`, and `NOP` padding to 1024 bytes.
pub open spec fn bzimage_setup_hlt_spec() -> Seq<u8> {
    synthetic_header_spec(1, 0x0200, 0, 0).update(0x200, 0xEB).update(0x201, 0x1E) + lx_hlt_code()
        + fill(1024 - 0x22A, 0x90)
}

/// The class the setup deepen gives [`synthetic_linux_bzimage_setup_hlt`].
pub open spec fn bzimage_setup_hlt_class() -> BzImageEarlyClass {
    BzImageEarlyClass::SetupLoadable {
        setup_sects: 1,
        version: 0x0200,
        loaded_high: false,
        code32_start: Some(0u32),
        next: BzImageNextStep::RunRealModeSetup,
    }
}

/// Synthetic bzImage real-mode blob whose setup entry prints `LX` and halts.
pub fn synthetic_linux_bzimage_setup_hlt() -> (r: Vec<u8>)
    ensures
        r@ == bzimage_setup_hlt_spec(),
        r@.len() == 1024,
        deeper_class_spec(r@) == bzimage_setup_hlt_class(),
{
    let mut buf = synthetic_linux_boot_protocol_header(1, 0x0200, 0, 0);
    buf.set(0x200, 0xEB);
    buf.set(0x201, 0x1E);
    let code: Vec<u8> = vec![0xBAu8, 0xF8, 0x03, 0xB0, 0x4C, 0xEE, 0xB0, 0x58, 0xEE, 0xF4];
    assert(code@ =~= lx_hlt_code());
    push_bytes(&mut buf, code.as_slice());
    push_fill(&mut buf, 0x90, 1024 - 0x22A);
    proof {
        let s = bzimage_setup_hlt_spec();
        assert(buf@ =~= s);
        let h = synthetic_header_spec(1, 0x0200, 0, 0);
        assert(s.subrange(0x202, 0x206) =~= h.subrange(0x202, 0x206));
        assert(s[0x1F1] == h[0x1F1] && s[0x1FE] == h[0x1FE] && s[0x1FF] == h[0x1FF]);
        assert(s[0x206] == h[0x206] && s[0x207] == h[0x207] && s[0x211] == h[0x211]);
        assert(s[0x214] == h[0x214] && s[0x215] == h[0x215] && s[0x216] == h[0x216]
            && s[0x217] == h[0x217]);
    }
    buf
}

/// ISO 9660 Primary Volume Descriptor sector.
pub open spec fn pvd_sector() -> Seq<u8> {
    seq![1u8] + iso9660_standard_id() + seq![1u8] + fill(2041, 0)
}

/// El Torito Boot Record sector pointing at `catalog_lba`.
pub open spec fn boot_record_sector(catalog_lba: u32) -> Seq<u8> {
    seq![0u8] + iso9660_standard_id() + seq![1u8] + el_torito_boot_system_id() + fill(
        0x47 - 30,
        0,
    ) + le32_seq(catalog_lba) + fill(2048 - 0x4B, 0)
}

/// Volume Descriptor Set Terminator sector.
pub open spec fn terminator_sector() -> Seq<u8> {
    seq![255u8] + iso9660_standard_id() + seq![1u8] + fill(2041, 0)
}

/// x86 Validation Entry: header `01h`, checksum `55AAh`, keys `55h AAh`.
pub open spec fn validation_entry() -> Seq<u8> {
    seq![1u8, 0] + fill(26, 0) + seq![0xAAu8, 0x55, 0x55, 0xAA]
}

/// Boot catalog: the Validation Entry and a bootable no-emul Default Entry.
pub open spec fn catalog_sector(sector_count: u16, load_rba: u32) -> Seq<u8> {
    validation_entry() + seq![0x88u8, 0x00] + fill(4, 0) + le16_seq(sector_count) + le32_seq(
        load_rba,
    ) + fill(2048 - 44, 0)
}

/// A 32-sector no-emul El Torito ISO: PVD at 16, Boot Record at 17 (catalog
/// at 20), terminator at 18, catalog at 20, and `boot` at sector 24 loaded
/// as four 512-byte sectors.
pub open spec fn eltorito_iso_spec(boot: Seq<u8>) -> Seq<u8> {
    fill(32768, 0) + pvd_sector() + boot_record_sector(20) + terminator_sector() + fill(2048, 0)
        + catalog_sector(4, 24) + fill(6144, 0) + boot + fill(14336, 0)
}

/// The catalog entry of [`eltorito_iso_spec`].
pub open spec fn eltorito_iso_info() -> ElToritoInfo {
    ElToritoInfo {
        boot_record_lba: 17,
        catalog_lba: 20,
        platform_id: 0,
        bootable: true,
        media_type: 0,
        load_segment: 0,
        load_rba: 24,
        sector_count: 4,
    }
}

/// The HLT-stub boot sector.
pub open spec fn hlt_boot_sector() -> Seq<u8> {
    lx_hlt_code() + fill(2038, 0x90)
}

/// The bzImage boot sector: the synthetic setup, then zeros.
pub open spec fn bzimage_boot_sector() -> Seq<u8> {
    bzimage_setup_hlt_spec() + fill(1024, 0)
}

/// The 24 sectors in front of the boot image of [`eltorito_iso_spec`].
pub open spec fn iso_head() -> Seq<u8> {
    fill(32768, 0) + pvd_sector() + boot_record_sector(20) + terminator_sector() + fill(2048, 0)
        + catalog_sector(4, 24) + fill(6144, 0)
}

proof fn lemma_iso_split(boot: Seq<u8>)
    requires
        boot.len() == 2048,
    ensures
        eltorito_iso_spec(boot) =~= iso_head() + boot + fill(14336, 0),
        iso_head().len() == 49152,
{
}

proof fn lemma_head_sectors()
    ensures
        iso_head().subrange(32768, 34816) == pvd_sector(),
        iso_head().subrange(34816, 36864) == boot_record_sector(20),
        iso_head().subrange(40960, 43008) == catalog_sector(4, 24),
{
    let h = iso_head();
    assert(h.subrange(32768, 34816) =~= pvd_sector());
    assert(h.subrange(34816, 36864) =~= boot_record_sector(20));
    assert(h.subrange(40960, 43008) =~= catalog_sector(4, 24));
}

proof fn lemma_sector_of_head(boot: Seq<u8>, k: int)
    requires
        boot.len() == 2048,
        0 <= k < 24,
    ensures
        sector_bytes(eltorito_iso_spec(boot), k) == iso_head().subrange(k * 2048, k * 2048 + 2048),
{
    lemma_iso_split(boot);
    let img = eltorito_iso_spec(boot);
    assert(sector_bytes(img, k) =~= iso_head().subrange(k * 2048, k * 2048 + 2048));
}

proof fn lemma_boot_record_found()
    ensures
        is_boot_record(boot_record_sector(20)),
        le32_at(boot_record_sector(20), 0x47) == 20,
        pvd_sector()[0] == 1,
        !is_boot_record(pvd_sector()),
{
    let br = boot_record_sector(20);
    assert(br.subrange(1, 6) =~= iso9660_standard_id());
    assert(br.subrange(7, 30) =~= el_torito_boot_system_id());
    assert(br[0x47] == 20 && br[0x48] == 0 && br[0x49] == 0 && br[0x4A] == 0);
}

proof fn lemma_catalog_fields()
    ensures
        catalog_sector(4, 24)[0] == 1,
        catalog_sector(4, 24)[1] == 0,
        catalog_sector(4, 24)[30] == 0x55,
        catalog_sector(4, 24)[31] == 0xAA,
        word_sum(catalog_sector(4, 24).take(32), 16) == 0,
        catalog_sector(4, 24)[32] == 0x88,
        catalog_sector(4, 24)[33] == 0,
        le16_at(catalog_sector(4, 24), 34) == 0,
        le16_at(catalog_sector(4, 24), 38) == 4,
        le32_at(catalog_sector(4, 24), 40) == 24,
{
    let c = catalog_sector(4, 24);
    let e = c.take(32);
    assert(e =~= validation_entry());
    assert(word_sum(e, 16) == 0) by {
        reveal_with_fuel(word_sum, 17);
    }
    assert(c[34] == 0 && c[35] == 0);
    assert(c[38] == 4 && c[39] == 0 && c[40] == 24 && c[41] == 0 && c[42] == 0 && c[43] == 0);
}

/// The El Torito ISO parses to [`eltorito_iso_info`] whatever its
/// 2048-byte boot sector holds.
proof fn lemma_eltorito_iso_parses(boot: Seq<u8>)
    requires
        boot.len() == 2048,
    ensures
        eltorito_iso_spec(boot).len() == 65536,
        el_torito_spec(eltorito_iso_spec(boot)) == Ok::<ElToritoInfo, ElToritoError>(eltorito_iso_info()),
        eltorito_iso_spec(boot).subrange(49152, 51200) == boot,
{
    let img = eltorito_iso_spec(boot);
    lemma_iso_split(boot);
    lemma_head_sectors();
    lemma_boot_record_found();
    lemma_catalog_fields();
    lemma_sector_of_head(boot, 16);
    lemma_sector_of_head(boot, 17);
    lemma_sector_of_head(boot, 20);
    assert(scan_boot_record(img, 17) == Ok::<(u32, u32), ElToritoError>((17u32, 20u32)));
    assert(scan_boot_record(img, 16) == Ok::<(u32, u32), ElToritoError>((17u32, 20u32)));
    assert(img.subrange(49152, 51200) =~= boot);
}

/// Append the fixed 24 leading sectors of [`eltorito_iso_spec`].
fn push_iso_head(img: &mut Vec<u8>)
    ensures
        final(img)@ == old(img)@ + fill(32768, 0) + pvd_sector() + boot_record_sector(20)
            + terminator_sector() + fill(2048, 0) + catalog_sector(4, 24) + fill(6144, 0),
{
    let cd001 = iso9660_standard_id_bytes();
    let boot_id = el_torito_boot_system_id_bytes();
    let ghost start = img@;
    push_fill(img, 0, 16 * EL_TORITO_SECTOR_BYTES);
    img.push(1);
    push_bytes(img, cd001.as_slice());
    img.push(1);
    push_fill(img, 0, 2041);
    assert(img@ =~= start + fill(32768, 0) + pvd_sector());
    let ghost a = img@;
    img.push(0);
    push_bytes(img, cd001.as_slice());
    img.push(1);
    push_bytes(img, boot_id.as_slice());
    push_fill(img, 0, 0x47 - 30);
    push_le32(img, 20);
    push_fill(img, 0, 2048 - 0x4B);
    assert(img@ =~= a + boot_record_sector(20));
    let ghost b = img@;
    img.push(255);
    push_bytes(img, cd001.as_slice());
    img.push(1);
    push_fill(img, 0, 2041);
    push_fill(img, 0, 2048);
    assert(img@ =~= b + terminator_sector() + fill(2048, 0));
    let ghost c = img@;
    img.push(1);
    img.push(0);
    push_fill(img, 0, 26);
    img.push(0xAA);
    img.push(0x55);
    img.push(0x55);
    img.push(0xAA);
    img.push(0x88);
    img.push(0x00);
    push_fill(img, 0, 4);
    push_le16(img, 4);
    push_le32(img, 24);
    push_fill(img, 0, 2048 - 44);
    assert(img@ =~= c + catalog_sector(4, 24));
    push_fill(img, 0, 3 * 2048);
}

/// Synthetic El Torito no-emul ISO whose boot image prints `LX` to COM1 and
/// halts.
pub fn synthetic_eltorito_linux_hlt_iso() -> (r: Vec<u8>)
    ensures
        r@ == eltorito_iso_spec(hlt_boot_sector()),
        r@.len() == 65536,
        el_torito_spec(r@) == Ok::<ElToritoInfo, ElToritoError>(eltorito_iso_info()),
        r@.subrange(49152, 51200) == hlt_boot_sector(),
{
    let mut img: Vec<u8> = Vec::new();
    push_iso_head(&mut img);
    let code: Vec<u8> = vec![0xBAu8, 0xF8, 0x03, 0xB0, 0x4C, 0xEE, 0xB0, 0x58, 0xEE, 0xF4];
    assert(code@ =~= lx_hlt_code());
    push_bytes(&mut img, code.as_slice());
    push_fill(&mut img, 0x90, 2038);
    push_fill(&mut img, 0, 7 * EL_TORITO_SECTOR_BYTES);
    assert(img@ =~= eltorito_iso_spec(hlt_boot_sector()));
    proof {
        lemma_eltorito_iso_parses(hlt_boot_sector());
    }
    img
}

/// Synthetic El Torito no-emul ISO whose boot image is the synthetic
/// bzImage real-mode setup.
pub fn synthetic_eltorito_bzimage_iso() -> (r: Vec<u8>)
    ensures
        r@ == eltorito_iso_spec(bzimage_boot_sector()),
        r@.len() == 65536,
        el_torito_spec(r@) == Ok::<ElToritoInfo, ElToritoError>(eltorito_iso_info()),
        r@.subrange(49152, 51200) == bzimage_boot_sector(),
{
    let mut img: Vec<u8> = Vec::new();
    push_iso_head(&mut img);
    let boot = synthetic_linux_bzimage_setup_hlt();
    push_bytes(&mut img, boot.as_slice());
    push_fill(&mut img, 0, EL_TORITO_SECTOR_BYTES - 1024);
    push_fill(&mut img, 0, 7 * EL_TORITO_SECTOR_BYTES);
    assert(img@ =~= eltorito_iso_spec(bzimage_boot_sector()));
    proof {
        lemma_eltorito_iso_parses(bzimage_boot_sector());
    }
    img
}

} // verus!
