//! INT 13h hard-disk services (AH=00h/02h/03h/08h/41h/42h/43h) against the
//! primary IDE image, with the register conventions of the IBM PC BIOS and
//! the INT 13h Extensions.
use vstd::prelude::*;
use crate::bytes::{le16, le16_bytes, le16_seq, le32, le32_bytes, le32_seq, read_le16, read_le32};
use crate::int13::{
    chs_to_lba, chs_to_lba_spec, pack_cx, pack_cx_spec, unpack_cx, unpack_cx_spec,
    INT13_AH_CHECK_EXTENSIONS, INT13_AH_EXT_READ, INT13_AH_EXT_WRITE, INT13_AH_GET_DRIVE_PARAMS,
    INT13_AH_READ, INT13_AH_RESET, INT13_AH_WRITE, INT13_DRIVE_HD0, INT13_EXT_MAGIC_IN,
    INT13_HD_HEADS, INT13_HD_SPT,
};
use crate::mem::{
    byte_writes, lemma_plain_writes, lemma_read_after_byte_writes, write_all, write_range, writes_to,
    PhysMem,
};

verus! {

/// Magic `BX` output for AH=41h success.
pub const INT13_EXT_MAGIC_OUT: u16 = 0xAA55;

/// Major version returned in `AH` on AH=41h success.
pub const INT13_EXT_VERSION: u8 = 0x01;

/// `CX` bit 0: packet-structure access (AH=42h/43h) supported.
pub const INT13_EXT_CX_PACKET: u16 = 0x0001;

/// Minimum Disk Address Packet size.
pub const INT13_DAP_SIZE_MIN: u8 = 0x10;

/// Success status in `AH` with `CF` clear.
pub const INT13_STATUS_OK: u8 = 0x00;

/// Invalid command, unsupported function or bad drive.
pub const INT13_STATUS_INVALID: u8 = 0x01;

/// Write protected media.
pub const INT13_STATUS_WRITE_PROTECTED: u8 = 0x03;

/// Sector not found / address beyond the media.
pub const INT13_STATUS_SECTOR_NOT_FOUND: u8 = 0x04;

/// Drive not ready (nothing attached).
pub const INT13_STATUS_TIMEOUT: u8 = 0x80;

/// The primary IDE disk as INT 13h sees it: whether a drive is attached, and
/// its image.
pub struct IdeDisk {
    pub present: bool,
    pub image: Vec<u8>,
}

/// The registers an INT 13h call reads and sets: `AH`/`AL`, `BX`, `CX`,
/// `DH`/`DL`, `SI`, the `ES` and `DS` segment bases, and the carry flag.
#[derive(Clone, Copy, Debug, PartialEq, Eq, Structural)]
pub struct Int13Regs {
    pub ah: u8,
    pub al: u8,
    pub bx: u16,
    pub cx: u16,
    pub dh: u8,
    pub dl: u8,
    pub si: u16,
    pub es_base: u64,
    pub ds_base: u64,
    pub cf: bool,
}

/// A classic 16-byte Disk Address Packet, with its `seg:off` buffer as a
/// physical address.
#[derive(Clone, Copy, Debug, PartialEq, Eq, Structural)]
pub struct DiskAddressPacket {
    pub count: u16,
    pub buf: u64,
    pub lba: u64,
}

/// `base + off` modulo 2^64: a segment base plus a 16-bit offset.
pub open spec fn seg_addr(base: u64, off: u16) -> u64 {
    if base + off > u64::MAX {
        (base + off - 0x1_0000_0000_0000_0000) as u64
    } else {
        (base + off) as u64
    }
}

/// Status of an LBA transfer of `count` sectors at `lba` between an image of
/// `len` bytes and `phys` in a RAM of `ram_len` bytes: no drive, a zero
/// count, sectors past the image, or a buffer past RAM are refused.
pub open spec fn hd_lba_status(present: bool, len: nat, ram_len: nat, lba: u64, count: u16, phys: u64) -> Result<u16, u8> {
    if !present || len == 0 {
        Err(INT13_STATUS_TIMEOUT)
    } else if count == 0 {
        Err(INT13_STATUS_INVALID)
    } else if lba + count > len / 512 {
        Err(INT13_STATUS_SECTOR_NOT_FOUND)
    } else if phys + count * 512 > ram_len {
        Err(INT13_STATUS_INVALID)
    } else {
        Ok(count)
    }
}

/// The bytes of `n` sectors of `image` from `lba` on.
pub open spec fn sector_bytes(image: Seq<u8>, lba: int, n: int) -> Seq<u8> {
    image.subrange(lba * 512, (lba + n) * 512)
}

/// The `n` bytes memory `m` reads from `src` on.
pub open spec fn mem_bytes(m: PhysMem, src: u64, n: nat) -> Seq<u8> {
    Seq::new(n, |i: int| m.read_spec((src + i) as u64))
}

/// `image` with `data` laid over it from `off`.
pub open spec fn splice(image: Seq<u8>, off: int, data: Seq<u8>) -> Seq<u8> {
    image.subrange(0, off) + data + image.subrange(off + data.len(), image.len() as int)
}

/// Status of a CHS transfer under the fixed 16/63 geometry: the start LBA,
/// or the error status.
pub open spec fn hd_chs_status(
    present: bool,
    len: nat,
    ram_len: nat,
    cylinder: u16,
    head: u8,
    sector: u8,
    count: u8,
    phys: u64,
) -> Result<u64, u8> {
    if !present || len == 0 {
        Err(INT13_STATUS_TIMEOUT)
    } else if count == 0 || sector == 0 || head >= INT13_HD_HEADS {
        Err(INT13_STATUS_INVALID)
    } else if sector > INT13_HD_SPT {
        Err(INT13_STATUS_SECTOR_NOT_FOUND)
    } else {
        let lba = chs_to_lba_spec(cylinder, head, sector)->0;
        if lba + count > len / 512 {
            Err(INT13_STATUS_SECTOR_NOT_FOUND)
        } else if phys + count * 512 > ram_len {
            Err(INT13_STATUS_INVALID)
        } else {
            Ok(lba)
        }
    }
}

/// What a CHS transfer returns: the count on success, else the status.
pub open spec fn chs_result(status: Result<u64, u8>, count: u8) -> Result<u8, u8> {
    match status {
        Ok(_) => Ok(count),
        Err(e) => Err(e),
    }
}

proof fn lemma_sector_span(len: nat, lba: int, n: int)
    requires
        0 <= lba,
        0 <= n,
        lba + n <= len / 512,
    ensures
        (lba + n) * 512 <= len,
        lba * 512 + n * 512 == (lba + n) * 512,
{
    assert((len / 512) * 512 <= len) by (nonlinear_arith);
}

/// Read `count` sectors from the disk starting at absolute `lba` into
/// physical `dest`.
pub fn int13_hd_read_lba_to_phys(mem: &mut PhysMem, ide: &IdeDisk, lba: u64, count: u16, dest: u64) -> (r: Result<
    u16,
    u8,
>)
    requires
        old(mem).wf(),
    ensures
        final(mem).wf(),
        r == hd_lba_status(ide.present, ide.image@.len(), old(mem).ram_view().len(), lba, count, dest),
        r is Ok ==> writes_to(
            *old(mem),
            *final(mem),
            byte_writes(dest, sector_bytes(ide.image@, lba as int, count as int)),
        ),
        r is Err ==> *final(mem) == *old(mem),
{
    if !ide.present || ide.image.len() == 0 {
        return Err(INT13_STATUS_TIMEOUT);
    }
    if count == 0 {
        return Err(INT13_STATUS_INVALID);
    }
    let total = (ide.image.len() / 512) as u64;
    let need = count as u64;
    if lba > total || need > total - lba {
        return Err(INT13_STATUS_SECTOR_NOT_FOUND);
    }
    let bytes = (count as u64) * 512;
    let ram = mem.ram_len() as u64;
    if bytes > u64::MAX - dest || dest + bytes > ram {
        return Err(INT13_STATUS_INVALID);
    }
    proof {
        lemma_sector_span(ide.image@.len(), lba as int, count as int);
    }
    let byte_off = (lba as usize) * 512;
    write_range(mem, dest, ide.image.as_slice(), byte_off, bytes as usize);
    Ok(count)
}

/// Copy `n` bytes of memory from `src` into `image` from `off` on.
pub(crate) fn copy_mem_into(mem: &PhysMem, image: &mut Vec<u8>, off: usize, n: usize, src: u64)
    requires
        mem.wf(),
        off + n <= old(image)@.len(),
        src + n <= u64::MAX,
    ensures
        final(image)@ == splice(old(image)@, off as int, mem_bytes(*mem, src, n as nat)),
{
    let len = image.len();
    let mut i: usize = 0;
    while i < n
        invariant
            i <= n,
            len == image@.len(),
            mem.wf(),
            off + n <= old(image)@.len(),
            src + n <= u64::MAX,
            image@.len() == old(image)@.len(),
            forall|j: int| 0 <= j < i ==> #[trigger] image@[off + j] == mem.read_spec((src + j) as u64),
            forall|j: int|
                0 <= j < image@.len() && !(off <= j < off + i) ==> #[trigger] image@[j] == old(image)@[j],
        decreases n - i,
    {
        let b = match mem.read_u8(src + i as u64) {
            Ok(b) => b,
            Err(_) => 0,
        };
        image.set(off + i, b);
        i = i + 1;
    }
    let ghost data = mem_bytes(*mem, src, n as nat);
    assert(image@ =~= splice(old(image)@, off as int, data)) by {
        assert forall|j: int| 0 <= j < image@.len() implies image@[j] == splice(
            old(image)@,
            off as int,
            data,
        )[j] by {
            if off <= j < off + n {
                assert(image@[off + (j - off)] == mem.read_spec((src + (j - off)) as u64));
            }
        }
    }
}

/// Write `count` sectors from physical `src` to the disk starting at
/// absolute `lba`.
pub fn int13_hd_write_lba_from_phys(mem: &PhysMem, ide: &mut IdeDisk, lba: u64, count: u16, src: u64) -> (r: Result<
    u16,
    u8,
>)
    requires
        mem.wf(),
    ensures
        r == hd_lba_status(old(ide).present, old(ide).image@.len(), mem.ram_view().len(), lba, count, src),
        final(ide).present == old(ide).present,
        r is Ok ==> final(ide).image@ == splice(
            old(ide).image@,
            lba * 512,
            mem_bytes(*mem, src, (count * 512) as nat),
        ),
        r is Err ==> final(ide).image@ == old(ide).image@,
{
    if !ide.present || ide.image.len() == 0 {
        return Err(INT13_STATUS_TIMEOUT);
    }
    if count == 0 {
        return Err(INT13_STATUS_INVALID);
    }
    let total = (ide.image.len() / 512) as u64;
    let need = count as u64;
    if lba > total || need > total - lba {
        return Err(INT13_STATUS_SECTOR_NOT_FOUND);
    }
    let bytes = (count as u64) * 512;
    let ram = mem.ram_len() as u64;
    if bytes > u64::MAX - src || src + bytes > ram {
        return Err(INT13_STATUS_INVALID);
    }
    proof {
        lemma_sector_span(ide.image@.len(), lba as int, count as int);
    }
    let byte_off = (lba as usize) * 512;
    copy_mem_into(mem, &mut ide.image, byte_off, bytes as usize, src);
    Ok(count)
}

/// Check a CHS transfer and give its image offset and byte count.
fn int13_hd_chs_bounds(
    mem: &PhysMem,
    ide: &IdeDisk,
    cylinder: u16,
    head: u8,
    sector: u8,
    count: u8,
    phys: u64,
) -> (r: Result<(usize, usize), u8>)
    ensures
        match hd_chs_status(ide.present, ide.image@.len(), mem.ram_view().len(), cylinder, head, sector, count, phys) {
            Ok(lba) => (match r {
                Ok((b, n)) => b == lba * 512 && n == count * 512,
                Err(_) => false,
            }) && lba + count <= ide.image@.len() / 512 && phys + count * 512 <= mem.ram_view().len()
                && (lba + count) * 512 <= ide.image@.len() && phys + count * 512 <= u64::MAX,
            Err(e) => r == Err::<(usize, usize), u8>(e),
        },
{
    if !ide.present || ide.image.len() == 0 {
        return Err(INT13_STATUS_TIMEOUT);
    }
    if count == 0 || sector == 0 || (head as u16) >= INT13_HD_HEADS {
        return Err(INT13_STATUS_INVALID);
    }
    if (sector as u16) > INT13_HD_SPT {
        return Err(INT13_STATUS_SECTOR_NOT_FOUND);
    }
    let start_lba = match chs_to_lba(cylinder, head, sector) {
        Some(l) => l,
        None => {
            return Err(INT13_STATUS_SECTOR_NOT_FOUND);
        },
    };
    let total = (ide.image.len() / 512) as u64;
    let need = count as u64;
    if start_lba > total || need > total - start_lba {
        return Err(INT13_STATUS_SECTOR_NOT_FOUND);
    }
    let bytes = (count as u64) * 512;
    let ram = mem.ram_len() as u64;
    if bytes > u64::MAX - phys || phys + bytes > ram {
        return Err(INT13_STATUS_INVALID);
    }
    proof {
        lemma_sector_span(ide.image@.len(), start_lba as int, count as int);
    }
    Ok(((start_lba as usize) * 512, bytes as usize))
}

/// Read `count` sectors at a CHS address into physical `dest`.
pub fn int13_hd_read_chs_to_phys(
    mem: &mut PhysMem,
    ide: &IdeDisk,
    cylinder: u16,
    head: u8,
    sector: u8,
    count: u8,
    dest: u64,
) -> (r: Result<u8, u8>)
    requires
        old(mem).wf(),
    ensures
        final(mem).wf(),
        r == chs_result(
            hd_chs_status(ide.present, ide.image@.len(), old(mem).ram_view().len(), cylinder, head, sector, count, dest),
            count,
        ),
        r is Ok ==> writes_to(
            *old(mem),
            *final(mem),
            byte_writes(
                dest,
                sector_bytes(
                    ide.image@,
                    chs_to_lba_spec(cylinder, head, sector)->0 as int,
                    count as int,
                ),
            ),
        ),
        r is Err ==> *final(mem) == *old(mem),
{
    let (byte_off, bytes) = match int13_hd_chs_bounds(mem, ide, cylinder, head, sector, count, dest) {
        Ok(b) => b,
        Err(e) => {
            return Err(e);
        },
    };
    write_range(mem, dest, ide.image.as_slice(), byte_off, bytes);
    Ok(count)
}

/// Write `count` sectors from physical `src` at a CHS address.
pub fn int13_hd_write_chs_from_phys(
    mem: &PhysMem,
    ide: &mut IdeDisk,
    cylinder: u16,
    head: u8,
    sector: u8,
    count: u8,
    src: u64,
) -> (r: Result<u8, u8>)
    requires
        mem.wf(),
    ensures
        r == chs_result(
            hd_chs_status(
                old(ide).present,
                old(ide).image@.len(),
                mem.ram_view().len(),
                cylinder,
                head,
                sector,
                count,
                src,
            ),
            count,
        ),
        final(ide).present == old(ide).present,
        r is Ok ==> final(ide).image@ == splice(
            old(ide).image@,
            chs_to_lba_spec(cylinder, head, sector)->0 * 512,
            mem_bytes(*mem, src, (count * 512) as nat),
        ),
        r is Err ==> final(ide).image@ == old(ide).image@,
{
    let (byte_off, bytes) = match int13_hd_chs_bounds(mem, ide, cylinder, head, sector, count, src) {
        Ok(b) => b,
        Err(e) => {
            return Err(e);
        },
    };
    copy_mem_into(mem, &mut ide.image, byte_off, bytes, src);
    Ok(count)
}

/// What an INT 13h call does besides setting registers.
pub enum Int13Effect {
    /// Memory and disk are left alone.
    Nothing,
    /// The bytes are written to memory from the address on.
    ToMemory(u64, Seq<u8>),
    /// The disk image becomes the given bytes.
    ToImage(Seq<u8>),
}

/// `m2`/`img2` are `m`/`img` after effect `e`.
pub open spec fn effect_holds(e: Int13Effect, m: PhysMem, m2: PhysMem, img: Seq<u8>, img2: Seq<u8>) -> bool {
    match e {
        Int13Effect::Nothing => m2 == m && img2 == img,
        Int13Effect::ToMemory(dest, data) => writes_to(m, m2, byte_writes(dest, data)) && img2 == img,
        Int13Effect::ToImage(new_image) => m2 == m && img2 == new_image,
    }
}

/// Failure: `AH` = status, `CF` set.
pub open spec fn fail_regs(r: Int13Regs, status: u8) -> Int13Regs {
    Int13Regs { ah: status, cf: true, ..r }
}

/// Success with a count: `AH` = 0, `AL` = count, `CF` clear.
pub open spec fn ok_al_regs(r: Int13Regs, al: u8) -> Int13Regs {
    Int13Regs { ah: INT13_STATUS_OK, al: al, cf: false, ..r }
}

/// Success: `AH` = 0, `CF` clear.
pub open spec fn ok_regs(r: Int13Regs) -> Int13Regs {
    Int13Regs { ah: INT13_STATUS_OK, cf: false, ..r }
}

/// Little-endian word memory `m` holds at `p`.
pub open spec fn mem_le16(m: PhysMem, p: u64) -> int {
    le16(m.read_spec(p), m.read_spec((p + 1) as u64))
}

/// Little-endian doubleword memory `m` holds at `p`.
pub open spec fn mem_le32(m: PhysMem, p: u64) -> int {
    le32(m.read_spec(p), m.read_spec((p + 1) as u64), m.read_spec((p + 2) as u64), m.read_spec((p + 3) as u64))
}

/// Little-endian quadword memory `m` holds at `p`.
pub open spec fn mem_le64(m: PhysMem, p: u64) -> int {
    mem_le32(m, p) + 0x1_0000_0000 * mem_le32(m, (p + 4) as u64)
}

/// The Disk Address Packet memory `m` holds at `p`: refused when its size
/// byte is below 16 or its buffer is the flat-pointer form `FFFF:FFFF`.
pub open spec fn dap_spec(m: PhysMem, p: u64) -> Result<DiskAddressPacket, u8> {
    if m.read_spec(p) < INT13_DAP_SIZE_MIN {
        Err(INT13_STATUS_INVALID)
    } else {
        let off = mem_le16(m, (p + 4) as u64);
        let seg = mem_le16(m, (p + 6) as u64);
        if seg == 0xFFFF && off == 0xFFFF {
            Err(INT13_STATUS_INVALID)
        } else {
            Ok(
                DiskAddressPacket {
                    count: mem_le16(m, (p + 2) as u64) as u16,
                    buf: (seg * 16 + off) as u64,
                    lba: mem_le64(m, (p + 8) as u64) as u64,
                },
            )
        }
    }
}

/// Highest cylinder the fixed 16/63 geometry addresses on an image of `len`
/// bytes, capped at `FFFFh`.
pub open spec fn max_cyl_spec(len: nat) -> u16 {
    let total = len / 512;
    if total == 0 {
        0
    } else if (total - 1) / 1008 > 0xFFFF {
        0xFFFF
    } else {
        ((total - 1) / 1008) as u16
    }
}

/// AH=02h/03h: CHS read into or write from `ES:BX`.
pub open spec fn hd_rw_spec(m: PhysMem, present: bool, img: Seq<u8>, r: Int13Regs, write: bool) -> (Int13Regs, Int13Effect) {
    let c = unpack_cx_spec(r.cx).0;
    let s = unpack_cx_spec(r.cx).1;
    let p = seg_addr(r.es_base, r.bx);
    match hd_chs_status(present, img.len(), m.ram_view().len(), c, r.dh, s, r.al, p) {
        Ok(lba) => (
            ok_al_regs(r, r.al),
            if write {
                Int13Effect::ToImage(splice(img, lba * 512, mem_bytes(m, p, (r.al * 512) as nat)))
            } else {
                Int13Effect::ToMemory(p, sector_bytes(img, lba as int, r.al as int))
            },
        ),
        Err(e) => (fail_regs(Int13Regs { al: 0, ..r }, e), Int13Effect::Nothing),
    }
}

/// AH=08h: geometry in `CX`/`DH`, one drive in `DL`.
pub open spec fn hd_params_spec(present: bool, img: Seq<u8>, r: Int13Regs) -> Int13Regs {
    if !present {
        fail_regs(r, INT13_STATUS_TIMEOUT)
    } else {
        Int13Regs {
            cx: pack_cx_spec(max_cyl_spec(img.len()), 63),
            dh: 15,
            dl: 1,
            ah: INT13_STATUS_OK,
            cf: false,
            ..r
        }
    }
}

/// AH=41h: `BX=55AAh` in; version 1, `BX=AA55h` and packet access out.
pub open spec fn hd_check_ext_spec(present: bool, r: Int13Regs) -> Int13Regs {
    if r.bx != INT13_EXT_MAGIC_IN {
        fail_regs(r, INT13_STATUS_INVALID)
    } else if !present {
        fail_regs(r, INT13_STATUS_TIMEOUT)
    } else {
        Int13Regs { ah: INT13_EXT_VERSION, bx: INT13_EXT_MAGIC_OUT, cx: INT13_EXT_CX_PACKET, cf: false, ..r }
    }
}

/// AH=42h/43h: LBA transfer described by the packet at `DS:SI`.
pub open spec fn hd_ext_spec(m: PhysMem, present: bool, img: Seq<u8>, r: Int13Regs, write: bool) -> (Int13Regs, Int13Effect) {
    match dap_spec(m, seg_addr(r.ds_base, r.si)) {
        Err(e) => (fail_regs(r, e), Int13Effect::Nothing),
        Ok(d) => match hd_lba_status(present, img.len(), m.ram_view().len(), d.lba, d.count, d.buf) {
            Ok(_) => (
                ok_regs(r),
                if write {
                    Int13Effect::ToImage(splice(img, d.lba * 512, mem_bytes(m, d.buf, (d.count * 512) as nat)))
                } else {
                    Int13Effect::ToMemory(d.buf, sector_bytes(img, d.lba as int, d.count as int))
                },
            ),
            Err(e) => (fail_regs(r, e), Int13Effect::Nothing),
        },
    }
}

/// The whole hard-disk dispatch: only drive `80h`; `AH` picks the function.
pub open spec fn hd_service_spec(m: PhysMem, present: bool, img: Seq<u8>, r: Int13Regs) -> (Int13Regs, Int13Effect) {
    if r.dl != INT13_DRIVE_HD0 {
        (fail_regs(r, INT13_STATUS_INVALID), Int13Effect::Nothing)
    } else if r.ah == INT13_AH_RESET {
        if !present {
            (fail_regs(r, INT13_STATUS_TIMEOUT), Int13Effect::Nothing)
        } else {
            (ok_al_regs(r, 0), Int13Effect::Nothing)
        }
    } else if r.ah == INT13_AH_READ {
        hd_rw_spec(m, present, img, r, false)
    } else if r.ah == INT13_AH_WRITE {
        hd_rw_spec(m, present, img, r, true)
    } else if r.ah == INT13_AH_GET_DRIVE_PARAMS {
        (hd_params_spec(present, img, r), Int13Effect::Nothing)
    } else if r.ah == INT13_AH_CHECK_EXTENSIONS {
        (hd_check_ext_spec(present, r), Int13Effect::Nothing)
    } else if r.ah == INT13_AH_EXT_READ {
        hd_ext_spec(m, present, img, r, false)
    } else if r.ah == INT13_AH_EXT_WRITE {
        hd_ext_spec(m, present, img, r, true)
    } else {
        (fail_regs(r, INT13_STATUS_INVALID), Int13Effect::Nothing)
    }
}

/// The packet address of an AH=42h/43h call leaves room for the 16-byte
/// packet below 2^64.
pub open spec fn dap_in_range(r: Int13Regs) -> bool {
    (r.dl == INT13_DRIVE_HD0 && (r.ah == INT13_AH_EXT_READ || r.ah == INT13_AH_EXT_WRITE)) ==> seg_addr(
        r.ds_base,
        r.si,
    ) + 15 <= u64::MAX
}

fn read_byte(mem: &PhysMem, p: u64) -> (r: u8)
    requires
        mem.wf(),
    ensures
        r == mem.read_spec(p),
{
    match mem.read_u8(p) {
        Ok(b) => b,
        Err(_) => 0,
    }
}

/// Little-endian word at `phys`.
fn read_guest_u16(mem: &PhysMem, phys: u64) -> (r: u16)
    requires
        mem.wf(),
        phys < u64::MAX,
    ensures
        r == mem_le16(*mem, phys),
{
    read_le16(read_byte(mem, phys), read_byte(mem, phys + 1))
}

/// Little-endian quadword at `phys`.
fn read_guest_u64(mem: &PhysMem, phys: u64) -> (r: u64)
    requires
        mem.wf(),
        phys + 7 <= u64::MAX,
    ensures
        r == mem_le64(*mem, phys),
{
    let lo = read_le32(read_byte(mem, phys), read_byte(mem, phys + 1), read_byte(mem, phys + 2), read_byte(mem, phys + 3));
    let hi = read_le32(
        read_byte(mem, phys + 4),
        read_byte(mem, phys + 5),
        read_byte(mem, phys + 6),
        read_byte(mem, phys + 7),
    );
    (lo as u64) + (hi as u64) * 0x1_0000_0000
}

/// Parse the Disk Address Packet at `dap_phys`.
fn int13_parse_dap(mem: &PhysMem, dap_phys: u64) -> (r: Result<DiskAddressPacket, u8>)
    requires
        mem.wf(),
        dap_phys + 15 <= u64::MAX,
    ensures
        r == dap_spec(*mem, dap_phys),
{
    let size = read_byte(mem, dap_phys);
    if size < INT13_DAP_SIZE_MIN {
        return Err(INT13_STATUS_INVALID);
    }
    let count = read_guest_u16(mem, dap_phys + 2);
    let buf_off = read_guest_u16(mem, dap_phys + 4);
    let buf_seg = read_guest_u16(mem, dap_phys + 6);
    let lba = read_guest_u64(mem, dap_phys + 8);
    if buf_seg == 0xFFFF && buf_off == 0xFFFF {
        return Err(INT13_STATUS_INVALID);
    }
    let buf = (buf_seg as u64) * 16 + (buf_off as u64);
    Ok(DiskAddressPacket { count, buf, lba })
}

fn int13_ok_al(regs: &mut Int13Regs, al: u8)
    ensures
        *final(regs) == ok_al_regs(*old(regs), al),
{
    regs.ah = INT13_STATUS_OK;
    regs.al = al;
    regs.cf = false;
}

fn int13_fail(regs: &mut Int13Regs, status: u8)
    ensures
        *final(regs) == fail_regs(*old(regs), status),
{
    regs.ah = status;
    regs.cf = true;
}

fn int13_hd_reset(ide: &IdeDisk, regs: &mut Int13Regs)
    ensures
        *final(regs) == (if !ide.present {
            fail_regs(*old(regs), INT13_STATUS_TIMEOUT)
        } else {
            ok_al_regs(*old(regs), 0)
        }),
{
    if !ide.present {
        int13_fail(regs, INT13_STATUS_TIMEOUT);
        return;
    }
    int13_ok_al(regs, 0);
}

/// AH=02h from the registers.
fn int13_hd_read_from_regs(mem: &mut PhysMem, ide: &IdeDisk, regs: &mut Int13Regs)
    requires
        old(mem).wf(),
    ensures
        final(mem).wf(),
        *final(regs) == hd_rw_spec(*old(mem), ide.present, ide.image@, *old(regs), false).0,
        effect_holds(
            hd_rw_spec(*old(mem), ide.present, ide.image@, *old(regs), false).1,
            *old(mem),
            *final(mem),
            ide.image@,
            ide.image@,
        ),
{
    let (cylinder, sector) = unpack_cx(regs.cx);
    let dest = regs.es_base.wrapping_add(regs.bx as u64);
    match int13_hd_read_chs_to_phys(mem, ide, cylinder, regs.dh, sector, regs.al, dest) {
        Ok(n) => int13_ok_al(regs, n),
        Err(status) => {
            regs.al = 0;
            int13_fail(regs, status);
        },
    }
}

/// AH=03h from the registers.
fn int13_hd_write_from_regs(mem: &PhysMem, ide: &mut IdeDisk, regs: &mut Int13Regs)
    requires
        mem.wf(),
    ensures
        final(ide).present == old(ide).present,
        *final(regs) == hd_rw_spec(*mem, old(ide).present, old(ide).image@, *old(regs), true).0,
        effect_holds(
            hd_rw_spec(*mem, old(ide).present, old(ide).image@, *old(regs), true).1,
            *mem,
            *mem,
            old(ide).image@,
            final(ide).image@,
        ),
{
    let (cylinder, sector) = unpack_cx(regs.cx);
    let src = regs.es_base.wrapping_add(regs.bx as u64);
    match int13_hd_write_chs_from_phys(mem, ide, cylinder, regs.dh, sector, regs.al, src) {
        Ok(n) => int13_ok_al(regs, n),
        Err(status) => {
            regs.al = 0;
            int13_fail(regs, status);
        },
    }
}

/// AH=08h.
fn int13_hd_get_params(ide: &IdeDisk, regs: &mut Int13Regs)
    ensures
        *final(regs) == hd_params_spec(ide.present, ide.image@, *old(regs)),
{
    if !ide.present {
        int13_fail(regs, INT13_STATUS_TIMEOUT);
        return;
    }
    let total = (ide.image.len() / 512) as u64;
    let max_cyl: u16 = if total == 0 {
        0
    } else {
        let c = (total - 1) / 1008;
        if c > 0xFFFF {
            0xFFFF
        } else {
            c as u16
        }
    };
    regs.cx = pack_cx(max_cyl, INT13_HD_SPT as u8);
    regs.dh = (INT13_HD_HEADS - 1) as u8;
    regs.dl = 1;
    regs.ah = INT13_STATUS_OK;
    regs.cf = false;
}

/// AH=41h.
fn int13_hd_check_extensions(ide: &IdeDisk, regs: &mut Int13Regs)
    ensures
        *final(regs) == hd_check_ext_spec(ide.present, *old(regs)),
{
    if regs.bx != INT13_EXT_MAGIC_IN {
        int13_fail(regs, INT13_STATUS_INVALID);
        return;
    }
    if !ide.present {
        int13_fail(regs, INT13_STATUS_TIMEOUT);
        return;
    }
    regs.ah = INT13_EXT_VERSION;
    regs.bx = INT13_EXT_MAGIC_OUT;
    regs.cx = INT13_EXT_CX_PACKET;
    regs.cf = false;
}

/// AH=42h.
fn int13_hd_ext_read_from_regs(mem: &mut PhysMem, ide: &IdeDisk, regs: &mut Int13Regs)
    requires
        old(mem).wf(),
        seg_addr(old(regs).ds_base, old(regs).si) + 15 <= u64::MAX,
    ensures
        final(mem).wf(),
        *final(regs) == hd_ext_spec(*old(mem), ide.present, ide.image@, *old(regs), false).0,
        effect_holds(
            hd_ext_spec(*old(mem), ide.present, ide.image@, *old(regs), false).1,
            *old(mem),
            *final(mem),
            ide.image@,
            ide.image@,
        ),
{
    let dap_phys = regs.ds_base.wrapping_add(regs.si as u64);
    match int13_parse_dap(mem, dap_phys) {
        Ok(dap) => match int13_hd_read_lba_to_phys(mem, ide, dap.lba, dap.count, dap.buf) {
            Ok(_) => {
                regs.ah = INT13_STATUS_OK;
                regs.cf = false;
            },
            Err(status) => int13_fail(regs, status),
        },
        Err(status) => int13_fail(regs, status),
    }
}

/// AH=43h; the verify flag in `AL` is accepted and ignored.
fn int13_hd_ext_write_from_regs(mem: &PhysMem, ide: &mut IdeDisk, regs: &mut Int13Regs)
    requires
        mem.wf(),
        seg_addr(old(regs).ds_base, old(regs).si) + 15 <= u64::MAX,
    ensures
        final(ide).present == old(ide).present,
        *final(regs) == hd_ext_spec(*mem, old(ide).present, old(ide).image@, *old(regs), true).0,
        effect_holds(
            hd_ext_spec(*mem, old(ide).present, old(ide).image@, *old(regs), true).1,
            *mem,
            *mem,
            old(ide).image@,
            final(ide).image@,
        ),
{
    let dap_phys = regs.ds_base.wrapping_add(regs.si as u64);
    match int13_parse_dap(mem, dap_phys) {
        Ok(dap) => match int13_hd_write_lba_from_phys(mem, ide, dap.lba, dap.count, dap.buf) {
            Ok(_) => {
                regs.ah = INT13_STATUS_OK;
                regs.cf = false;
            },
            Err(status) => int13_fail(regs, status),
        },
        Err(status) => int13_fail(regs, status),
    }
}

/// INT 13h hard-disk dispatch from the registers: only drive `80h`; AH=00h
/// reset, 02h/03h CHS read/write at `ES:BX`, 08h parameters, 41h extensions
/// check, 42h/43h packet read/write at `DS:SI`; anything else fails with
/// status 01h.
pub fn service_int13_hd(mem: &mut PhysMem, ide: &mut IdeDisk, regs: &mut Int13Regs)
    requires
        old(mem).wf(),
        dap_in_range(*old(regs)),
    ensures
        final(mem).wf(),
        final(ide).present == old(ide).present,
        *final(regs) == hd_service_spec(*old(mem), old(ide).present, old(ide).image@, *old(regs)).0,
        effect_holds(
            hd_service_spec(*old(mem), old(ide).present, old(ide).image@, *old(regs)).1,
            *old(mem),
            *final(mem),
            old(ide).image@,
            final(ide).image@,
        ),
{
    if regs.dl != INT13_DRIVE_HD0 {
        int13_fail(regs, INT13_STATUS_INVALID);
        return;
    }
    let ah = regs.ah;
    if ah == INT13_AH_RESET {
        int13_hd_reset(ide, regs);
    } else if ah == INT13_AH_READ {
        int13_hd_read_from_regs(mem, ide, regs);
    } else if ah == INT13_AH_WRITE {
        int13_hd_write_from_regs(mem, ide, regs);
    } else if ah == INT13_AH_GET_DRIVE_PARAMS {
        int13_hd_get_params(ide, regs);
    } else if ah == INT13_AH_CHECK_EXTENSIONS {
        int13_hd_check_extensions(ide, regs);
    } else if ah == INT13_AH_EXT_READ {
        int13_hd_ext_read_from_regs(mem, ide, regs);
    } else if ah == INT13_AH_EXT_WRITE {
        int13_hd_ext_write_from_regs(mem, ide, regs);
    } else {
        int13_fail(regs, INT13_STATUS_INVALID);
    }
}

/// What a write lays down, a read of the same sectors gives back; the image
/// keeps its length and every byte outside the written sectors.
pub proof fn law_hd_sectors_read_back(img: Seq<u8>, lba: int, count: int, data: Seq<u8>)
    requires
        0 <= lba,
        0 < count,
        (lba + count) * 512 <= img.len(),
        data.len() == count * 512,
    ensures
        splice(img, lba * 512, data).len() == img.len(),
        sector_bytes(splice(img, lba * 512, data), lba, count) == data,
        forall|j: int|
            0 <= j < img.len() && !(lba * 512 <= j < (lba + count) * 512) ==> #[trigger] splice(
                img,
                lba * 512,
                data,
            )[j] == img[j],
{
    let s = splice(img, lba * 512, data);
    assert(sector_bytes(s, lba, count) =~= data);
}

/// INT 13h AH=03h then AH=02h with the same `CX`, `DH` and `AL` on drive
/// `80h`: when the write succeeds, the read succeeds with the same count and
/// puts into its buffer the bytes the write took from memory.
pub proof fn law_int13_chs_write_then_read(
    m: PhysMem,
    m2: PhysMem,
    present: bool,
    img: Seq<u8>,
    w: Int13Regs,
    rd: Int13Regs,
)
    requires
        w.ah == INT13_AH_WRITE,
        rd.ah == INT13_AH_READ,
        rd.cx == w.cx,
        rd.dh == w.dh,
        rd.al == w.al,
        !hd_rw_spec(m, present, img, w, true).0.cf,
        seg_addr(rd.es_base, rd.bx) + w.al * 512 <= m2.ram_view().len(),
    ensures
        hd_rw_spec(m, present, img, w, true).1 matches Int13Effect::ToImage(img2) && hd_rw_spec(
            m2,
            present,
            img2,
            rd,
            false,
        ) == (
            ok_al_regs(rd, w.al),
            Int13Effect::ToMemory(
                seg_addr(rd.es_base, rd.bx),
                mem_bytes(m, seg_addr(w.es_base, w.bx), (w.al * 512) as nat),
            ),
        ),
{
    let c = unpack_cx_spec(w.cx).0;
    let s = unpack_cx_spec(w.cx).1;
    let p = seg_addr(w.es_base, w.bx);
    let st = hd_chs_status(present, img.len(), m.ram_view().len(), c, w.dh, s, w.al, p);
    assert(st is Ok);
    let lba = st->Ok_0;
    let data = mem_bytes(m, p, (w.al * 512) as nat);
    law_hd_sectors_read_back(img, lba as int, w.al as int, data);
}

/// INT 13h AH=43h then AH=42h on drive `80h` with packets naming the same
/// LBA and count: when the write succeeds and the read's buffer fits in
/// memory, the read succeeds and puts into its buffer the bytes the write
/// took from memory.
pub proof fn law_int13_ext_write_then_read(
    m: PhysMem,
    m2: PhysMem,
    present: bool,
    img: Seq<u8>,
    w: Int13Regs,
    rd: Int13Regs,
)
    requires
        !hd_ext_spec(m, present, img, w, true).0.cf,
        dap_spec(m2, seg_addr(rd.ds_base, rd.si)) matches Ok(d2) && dap_spec(
            m,
            seg_addr(w.ds_base, w.si),
        ) matches Ok(d1) && d1.lba == d2.lba && d1.count == d2.count && d2.buf + d2.count * 512
            <= m2.ram_view().len(),
    ensures
        dap_spec(m, seg_addr(w.ds_base, w.si)) matches Ok(d1) && dap_spec(m2, seg_addr(rd.ds_base, rd.si)) matches Ok(
            d2,
        ) && hd_ext_spec(m, present, img, w, true).1 matches Int13Effect::ToImage(img2) && hd_ext_spec(
            m2,
            present,
            img2,
            rd,
            false,
        ) == (
            ok_regs(rd),
            Int13Effect::ToMemory(d2.buf, mem_bytes(m, d1.buf, (d1.count * 512) as nat)),
        ),
{
    let d1 = dap_spec(m, seg_addr(w.ds_base, w.si))->Ok_0;
    let d2 = dap_spec(m2, seg_addr(rd.ds_base, rd.si))->Ok_0;
    assert(hd_lba_status(present, img.len(), m.ram_view().len(), d1.lba, d1.count, d1.buf) is Ok);
    let data = mem_bytes(m, d1.buf, (d1.count * 512) as nat);
    law_hd_sectors_read_back(img, d1.lba as int, d1.count as int, data);
}

/// Registers of an AH=02h hard-disk read of `count` sectors at a CHS address
/// into `es:bx`.
pub fn setup_int13_hd_read(regs: &mut Int13Regs, cylinder: u16, head: u8, sector: u8, count: u8, es: u16, bx: u16)
    ensures
        *final(regs) == (Int13Regs {
            ah: INT13_AH_READ,
            al: count,
            cx: pack_cx_spec(cylinder, sector),
            dl: INT13_DRIVE_HD0,
            dh: head,
            bx: bx,
            es_base: (es * 16) as u64,
            ..*old(regs)
        }),
{
    regs.ah = INT13_AH_READ;
    regs.al = count;
    regs.cx = pack_cx(cylinder, sector);
    regs.dl = INT13_DRIVE_HD0;
    regs.dh = head;
    regs.bx = bx;
    regs.es_base = (es as u64) * 16;
}

/// Registers of an AH=03h hard-disk write of `count` sectors at a CHS
/// address from `es:bx`.
pub fn setup_int13_hd_write(regs: &mut Int13Regs, cylinder: u16, head: u8, sector: u8, count: u8, es: u16, bx: u16)
    ensures
        *final(regs) == (Int13Regs {
            ah: INT13_AH_WRITE,
            al: count,
            cx: pack_cx_spec(cylinder, sector),
            dl: INT13_DRIVE_HD0,
            dh: head,
            bx: bx,
            es_base: (es * 16) as u64,
            ..*old(regs)
        }),
{
    regs.ah = INT13_AH_WRITE;
    regs.al = count;
    regs.cx = pack_cx(cylinder, sector);
    regs.dl = INT13_DRIVE_HD0;
    regs.dh = head;
    regs.bx = bx;
    regs.es_base = (es as u64) * 16;
}

/// The 16 bytes of a classic Disk Address Packet: size 10h, a reserved
/// byte, the count, the buffer offset and segment, and the 64-bit LBA.
pub open spec fn dap_image(lba: u64, count: u16, buf_seg: u16, buf_off: u16) -> Seq<u8> {
    seq![INT13_DAP_SIZE_MIN, 0u8] + le16_seq(count) + le16_seq(buf_off) + le16_seq(buf_seg) + le32_seq(
        (lba % 0x1_0000_0000) as u32,
    ) + le32_seq((lba / 0x1_0000_0000) as u32)
}

/// Write a classic 16-byte Disk Address Packet at `dap_phys`.
pub fn write_dap(mem: &mut PhysMem, dap_phys: u64, lba: u64, count: u16, buf_seg: u16, buf_off: u16)
    requires
        old(mem).wf(),
        dap_phys + 16 <= u64::MAX,
    ensures
        final(mem).wf(),
        writes_to(*old(mem), *final(mem), byte_writes(dap_phys, dap_image(lba, count, buf_seg, buf_off))),
{
    let (c0, c1) = le16_bytes(count);
    let (o0, o1) = le16_bytes(buf_off);
    let (s0, s1) = le16_bytes(buf_seg);
    let (l0, l1, l2, l3) = le32_bytes((lba % 0x1_0000_0000) as u32);
    let (h0, h1, h2, h3) = le32_bytes((lba / 0x1_0000_0000) as u32);
    let dap: Vec<u8> = vec![INT13_DAP_SIZE_MIN, 0, c0, c1, o0, o1, s0, s1, l0, l1, l2, l3, h0, h1, h2, h3];
    assert(dap@ =~= dap_image(lba, count, buf_seg, buf_off));
    write_all(mem, dap_phys, dap.as_slice());
}

/// Write a Disk Address Packet at `dap_phys` and set up an AH=42h read on
/// drive `80h` with `DS` = 0 and `SI` = the packet address's low 16 bits.
pub fn setup_int13_hd_ext_read(
    mem: &mut PhysMem,
    regs: &mut Int13Regs,
    dap_phys: u64,
    lba: u64,
    count: u16,
    buf_seg: u16,
    buf_off: u16,
)
    requires
        old(mem).wf(),
        dap_phys + 16 <= u64::MAX,
    ensures
        final(mem).wf(),
        writes_to(*old(mem), *final(mem), byte_writes(dap_phys, dap_image(lba, count, buf_seg, buf_off))),
        *final(regs) == (Int13Regs {
            ah: INT13_AH_EXT_READ,
            dl: INT13_DRIVE_HD0,
            si: (dap_phys % 0x10000) as u16,
            ds_base: 0,
            ..*old(regs)
        }),
{
    write_dap(mem, dap_phys, lba, count, buf_seg, buf_off);
    regs.ah = INT13_AH_EXT_READ;
    regs.dl = INT13_DRIVE_HD0;
    regs.si = (dap_phys % 0x10000) as u16;
    regs.ds_base = 0;
}

/// Write a Disk Address Packet at `dap_phys` and set up an AH=43h write
/// (no verify) on drive `80h` with `DS` = 0 and `SI` = the packet address's
/// low 16 bits.
pub fn setup_int13_hd_ext_write(
    mem: &mut PhysMem,
    regs: &mut Int13Regs,
    dap_phys: u64,
    lba: u64,
    count: u16,
    buf_seg: u16,
    buf_off: u16,
)
    requires
        old(mem).wf(),
        dap_phys + 16 <= u64::MAX,
    ensures
        final(mem).wf(),
        writes_to(*old(mem), *final(mem), byte_writes(dap_phys, dap_image(lba, count, buf_seg, buf_off))),
        *final(regs) == (Int13Regs {
            ah: INT13_AH_EXT_WRITE,
            al: 0,
            dl: INT13_DRIVE_HD0,
            si: (dap_phys % 0x10000) as u16,
            ds_base: 0,
            ..*old(regs)
        }),
{
    write_dap(mem, dap_phys, lba, count, buf_seg, buf_off);
    regs.ah = INT13_AH_EXT_WRITE;
    regs.al = 0;
    regs.dl = INT13_DRIVE_HD0;
    regs.si = (dap_phys % 0x10000) as u16;
    regs.ds_base = 0;
}

proof fn lemma_le16_seq(v: u16)
    ensures
        le16(le16_seq(v)[0], le16_seq(v)[1]) == v,
{
}

proof fn lemma_le32_seq(v: u32)
    ensures
        le32(le32_seq(v)[0], le32_seq(v)[1], le32_seq(v)[2], le32_seq(v)[3]) == v,
{
}

/// A Disk Address Packet written into plain RAM parses back to the count,
/// buffer and LBA it was written with (unless its buffer is `FFFF:FFFF`).
pub proof fn law_dap_round_trip(
    m: PhysMem,
    m2: PhysMem,
    p: u64,
    lba: u64,
    count: u16,
    buf_seg: u16,
    buf_off: u16,
)
    requires
        m.wf(),
        p + 16 <= u64::MAX,
        m.plain_ram_range(p, (p + 16) as u64),
        writes_to(m, m2, byte_writes(p, dap_image(lba, count, buf_seg, buf_off))),
        !(buf_seg == 0xFFFF && buf_off == 0xFFFF),
    ensures
        dap_spec(m2, p) == Ok::<DiskAddressPacket, u8>(
            DiskAddressPacket { count: count, buf: (buf_seg * 16 + buf_off) as u64, lba: lba },
        ),
{
    let data = dap_image(lba, count, buf_seg, buf_off);
    let w = byte_writes(p, data);
    assert forall|i: int| 0 <= i < w.len() implies m.plain_ram_at(#[trigger] w[i].0) by {
        assert(w[i].0 == (p + i) as u64);
    }
    lemma_plain_writes(m, m2, w);
    assert forall|k: int| 0 <= k < 16 implies #[trigger] m2.read_spec((p + k) as u64) == data[k] by {
        lemma_read_after_byte_writes(m, p, data, k);
        assert(m.plain_ram_at((p + k) as u64));
    }
    assert(m2.read_spec((p + 0) as u64) == data[0]);
    assert((p + 0) as u64 == p);
    assert(m2.read_spec((p + 2) as u64) == data[2]);
    assert(m2.read_spec((p + 3) as u64) == data[3]);
    assert(m2.read_spec((p + 4) as u64) == data[4]);
    assert(m2.read_spec((p + 5) as u64) == data[5]);
    assert(m2.read_spec((p + 6) as u64) == data[6]);
    assert(m2.read_spec((p + 7) as u64) == data[7]);
    assert(m2.read_spec((p + 8) as u64) == data[8]);
    assert(m2.read_spec((p + 9) as u64) == data[9]);
    assert(m2.read_spec((p + 10) as u64) == data[10]);
    assert(m2.read_spec((p + 11) as u64) == data[11]);
    assert(m2.read_spec((p + 12) as u64) == data[12]);
    assert(m2.read_spec((p + 13) as u64) == data[13]);
    assert(m2.read_spec((p + 14) as u64) == data[14]);
    assert(m2.read_spec((p + 15) as u64) == data[15]);
    lemma_le16_seq(count);
    lemma_le16_seq(buf_off);
    lemma_le16_seq(buf_seg);
    let lo = (lba % 0x1_0000_0000) as u32;
    let hi = (lba / 0x1_0000_0000) as u32;
    lemma_le32_seq(lo);
    lemma_le32_seq(hi);
    assert(lo + 0x1_0000_0000 * hi == lba);
}

} // verus!
