//! INT 13h floppy services (AH=00h/02h/03h, drive `00h`) against 1.44 MB
//! media, and the dispatch of INT 13h by drive number.
use vstd::prelude::*;
use crate::guest_boot::Int13ProbeSnapshot;
use crate::int13::{
    INT13_AH_CHECK_EXTENSIONS, INT13_EXT_MAGIC_IN, pack_cx, pack_cx_spec, unpack_cx, unpack_cx_spec, INT13_AH_READ, INT13_AH_RESET, INT13_AH_WRITE, INT13_DRIVE_FD0,
    INT13_DRIVE_HD0,
};
use crate::int13_disk::{
    copy_mem_into, effect_holds, fail_regs, hd_service_spec, mem_bytes, ok_al_regs, seg_addr,
    service_int13_hd, splice, dap_in_range, IdeDisk, Int13Effect, Int13Regs, INT13_STATUS_INVALID,
    INT13_STATUS_OK, INT13_STATUS_SECTOR_NOT_FOUND, INT13_STATUS_TIMEOUT,
    INT13_STATUS_WRITE_PROTECTED, INT13_EXT_VERSION,
};
use crate::mem::{byte_writes, lemma_writes_concat, lemma_writes_none, write_range, writes_to, PhysMem};

verus! {

/// Cylinders of 1.44 MB media.
pub const FDC_1440_CYLINDERS: u8 = 80;

/// Heads of 1.44 MB media.
pub const FDC_1440_HEADS: u8 = 2;

/// Sectors per track of 1.44 MB media.
pub const FDC_1440_SECTORS_PER_TRACK: u8 = 18;

/// Sectors of 1.44 MB media.
pub const FDC_1440_SECTORS: u64 = 2880;

/// Floppy media in the first drive: whether any is attached, its image, and
/// the write-protect pin. Sector `(c, h, s)` of the geometry is the 512
/// bytes at LBA `(c * 2 + h) * 18 + s - 1` of the image, where the image
/// holds them.
pub struct FloppyMedia {
    pub attached: bool,
    pub image: Vec<u8>,
    pub write_protected: bool,
}

/// LBA of a floppy CHS address.
pub open spec fn floppy_lba(cylinder: u8, head: u8, sector: u8) -> int {
    (cylinder * 2 + head) * 18 + sector - 1
}

/// A CHS address inside the 80/2/18 geometry.
pub open spec fn floppy_chs_valid(cylinder: u8, head: u8, sector: u8) -> bool {
    cylinder < 80 && head < 2 && 1 <= sector <= 18
}

/// The next CHS address: sector, then head, then cylinder; `None` past the
/// last cylinder or where a step would pass 255.
pub open spec fn advance_chs_spec(cylinder: u8, head: u8, sector: u8) -> Option<(u8, u8, u8)> {
    if sector == 255 {
        None
    } else if sector + 1 > 18 {
        if head == 255 {
            None
        } else if head + 1 >= 2 {
            if cylinder == 255 || cylinder + 1 >= 80 {
                None
            } else {
                Some(((cylinder + 1) as u8, 0u8, 1u8))
            }
        } else {
            Some((cylinder, (head + 1) as u8, 1u8))
        }
    } else {
        Some((cylinder, head, (sector + 1) as u8))
    }
}

/// Advance floppy CHS by one sector within the 1.44 MB geometry.
pub fn advance_floppy_chs(cylinder: u8, head: u8, sector: u8) -> (r: Option<(u8, u8, u8)>)
    ensures
        r == advance_chs_spec(cylinder, head, sector),
{
    let mut sector = match sector.checked_add(1) {
        Some(s) => s,
        None => {
            return None;
        },
    };
    let mut head = head;
    let mut cylinder = cylinder;
    if sector > FDC_1440_SECTORS_PER_TRACK {
        sector = 1;
        head = match head.checked_add(1) {
            Some(h) => h,
            None => {
                return None;
            },
        };
        if head >= FDC_1440_HEADS {
            head = 0;
            cylinder = match cylinder.checked_add(1) {
                Some(c) => c,
                None => {
                    return None;
                },
            };
            if cylinder >= FDC_1440_CYLINDERS {
                return None;
            }
        }
    }
    Some((cylinder, head, sector))
}

/// Inside the geometry, advancing moves to the next LBA, and fails exactly
/// at the last sector.
pub proof fn lemma_advance_chs(cylinder: u8, head: u8, sector: u8)
    requires
        floppy_chs_valid(cylinder, head, sector),
    ensures
        0 <= floppy_lba(cylinder, head, sector) < 2880,
        match advance_chs_spec(cylinder, head, sector) {
            Some((c, h, s)) => floppy_lba(cylinder, head, sector) + 1 < 2880 && floppy_chs_valid(c, h, s)
                && floppy_lba(c, h, s) == floppy_lba(cylinder, head, sector) + 1,
            None => floppy_lba(cylinder, head, sector) + 1 == 2880,
        },
{
}

/// How many sectors a transfer of `count` from `lba` completes on an image
/// of `len` bytes: it stops at the end of the image and at the end of the
/// geometry.
pub open spec fn floppy_done(len: nat, lba: int, count: int) -> int {
    let avail = if len / 512 > lba {
        len / 512 - lba
    } else {
        0
    };
    let g = 2880 - lba;
    if count <= avail && count <= g {
        count
    } else if avail <= g {
        avail
    } else {
        g
    }
}

/// Checks made before any sector moves: media, write protection, the
/// arguments, the geometry and the memory buffer.
pub open spec fn floppy_precheck(
    attached: bool,
    wp: bool,
    ram_len: nat,
    cylinder: u8,
    head: u8,
    sector: u8,
    count: u8,
    phys: u64,
    write: bool,
) -> Option<u8> {
    if !attached {
        Some(INT13_STATUS_TIMEOUT)
    } else if write && wp {
        Some(INT13_STATUS_WRITE_PROTECTED)
    } else if count == 0 || sector == 0 || head >= FDC_1440_HEADS {
        Some(INT13_STATUS_INVALID)
    } else if sector > FDC_1440_SECTORS_PER_TRACK || cylinder >= FDC_1440_CYLINDERS {
        Some(INT13_STATUS_SECTOR_NOT_FOUND)
    } else if phys + count * 512 > ram_len {
        Some(INT13_STATUS_INVALID)
    } else {
        None
    }
}

/// The bytes of `n` sectors of `img` from `lba` on (none when `n` is 0).
pub open spec fn floppy_sectors(img: Seq<u8>, lba: int, n: int) -> Seq<u8> {
    if n == 0 {
        Seq::empty()
    } else {
        img.subrange(lba * 512, (lba + n) * 512)
    }
}

/// `img` with `data` written from sector `lba` on (unchanged when `data`
/// is empty).
pub open spec fn floppy_image_after(img: Seq<u8>, lba: int, data: Seq<u8>) -> Seq<u8> {
    if data.len() == 0 {
        img
    } else {
        splice(img, lba * 512, data)
    }
}

/// A floppy transfer: the status it returns and its effect. Sectors move
/// one by one; a sector past the image, or a step past the last sector,
/// stops it with status 04h after the sectors already moved.
pub open spec fn floppy_xfer_spec(
    m: PhysMem,
    attached: bool,
    wp: bool,
    img: Seq<u8>,
    cylinder: u8,
    head: u8,
    sector: u8,
    count: u8,
    phys: u64,
    write: bool,
) -> (Result<u8, u8>, Int13Effect) {
    match floppy_precheck(attached, wp, m.ram_view().len(), cylinder, head, sector, count, phys, write) {
        Some(e) => (Err(e), Int13Effect::Nothing),
        None => {
            let lba = floppy_lba(cylinder, head, sector);
            let done = floppy_done(img.len(), lba, count as int);
            (
                if done == count {
                    Ok(count)
                } else {
                    Err(INT13_STATUS_SECTOR_NOT_FOUND)
                },
                if write {
                    Int13Effect::ToImage(floppy_image_after(img, lba, mem_bytes(m, phys, (done * 512) as nat)))
                } else {
                    Int13Effect::ToMemory(phys, floppy_sectors(img, lba, done))
                },
            )
        },
    }
}

proof fn lemma_byte_writes_append(dest: u64, a: Seq<u8>, b: Seq<u8>)
    requires
        dest + a.len() + b.len() <= u64::MAX,
    ensures
        byte_writes(dest, a) + byte_writes((dest + a.len()) as u64, b) =~= byte_writes(dest, a + b),
{
}

proof fn lemma_mem_bytes_append(m: PhysMem, src: u64, n: nat, k: nat)
    requires
        src + n + k <= u64::MAX,
    ensures
        mem_bytes(m, src, n) + mem_bytes(m, (src + n) as u64, k) =~= mem_bytes(m, src, n + k),
{
}

proof fn lemma_splice_append(img: Seq<u8>, off: int, a: Seq<u8>, b: Seq<u8>)
    requires
        0 <= off,
        off + a.len() + b.len() <= img.len(),
    ensures
        splice(splice(img, off, a), off + a.len(), b) =~= splice(img, off, a + b),
{
}

/// Move `count` sectors between the media and physical memory, starting at
/// a CHS address: into memory for a read, into the image for a write.
fn int13_floppy_xfer(
    mem: &mut PhysMem,
    fd: &mut FloppyMedia,
    cylinder: u8,
    head: u8,
    sector: u8,
    count: u8,
    phys: u64,
    write: bool,
) -> (r: Result<u8, u8>)
    requires
        old(mem).wf(),
    ensures
        final(mem).wf(),
        final(fd).attached == old(fd).attached,
        final(fd).write_protected == old(fd).write_protected,
        r == floppy_xfer_spec(
            *old(mem),
            old(fd).attached,
            old(fd).write_protected,
            old(fd).image@,
            cylinder,
            head,
            sector,
            count,
            phys,
            write,
        ).0,
        effect_holds(
            floppy_xfer_spec(
                *old(mem),
                old(fd).attached,
                old(fd).write_protected,
                old(fd).image@,
                cylinder,
                head,
                sector,
                count,
                phys,
                write,
            ).1,
            *old(mem),
            *final(mem),
            old(fd).image@,
            final(fd).image@,
        ),
{
    if !fd.attached {
        return Err(INT13_STATUS_TIMEOUT);
    }
    if write && fd.write_protected {
        return Err(INT13_STATUS_WRITE_PROTECTED);
    }
    if count == 0 || sector == 0 || head >= FDC_1440_HEADS {
        return Err(INT13_STATUS_INVALID);
    }
    if sector > FDC_1440_SECTORS_PER_TRACK || cylinder >= FDC_1440_CYLINDERS {
        return Err(INT13_STATUS_SECTOR_NOT_FOUND);
    }
    let bytes = (count as u64) * 512;
    let ram = mem.ram_len() as u64;
    if bytes > u64::MAX - phys || phys + bytes > ram {
        return Err(INT13_STATUS_INVALID);
    }
    let ghost m0 = *mem;
    let ghost img0 = fd.image@;
    let ghost lba0 = floppy_lba(cylinder, head, sector);
    let ghost done = floppy_done(img0.len(), lba0, count as int);
    let len = fd.image.len();
    let mut c = cylinder;
    let mut h = head;
    let mut s = sector;
    let mut p = phys;
    let mut i: u8 = 0;
    proof {
        lemma_writes_none(m0);
        assert(mem_bytes(m0, phys, 0) =~= Seq::<u8>::empty());
        assert(byte_writes(phys, floppy_sectors(img0, lba0, 0)) =~= Seq::<(u64, u8)>::empty());
    }
    while i < count
        invariant
            old(mem).wf(),
            m0 == *old(mem),
            floppy_precheck(
                old(fd).attached,
                old(fd).write_protected,
                m0.ram_view().len(),
                cylinder,
                head,
                sector,
                count,
                phys,
                write,
            ) is None,
            img0 == old(fd).image@,
            mem.wf(),
            fd.attached == old(fd).attached,
            fd.write_protected == old(fd).write_protected,
            len == fd.image@.len(),
            len == img0.len(),
            phys + count * 512 <= u64::MAX,
            0 < count,
            i <= count,
            p == phys + i * 512,
            lba0 == floppy_lba(cylinder, head, sector),
            0 <= lba0 < 2880,
            done == floppy_done(img0.len(), lba0, count as int),
            floppy_chs_valid(c, h, s),
            floppy_lba(c, h, s) == lba0 + i,
            i < count,
            i == 0 || lba0 + i <= len / 512,
            if write {
                *mem == m0 && fd.image@ == floppy_image_after(img0, lba0, mem_bytes(m0, phys, (i * 512) as nat))
            } else {
                fd.image@ == img0 && writes_to(m0, *mem, byte_writes(phys, floppy_sectors(img0, lba0, i as int)))
            },
        decreases count - i,
    {
        proof {
            lemma_advance_chs(c, h, s);
        }
        let lba = ((c as usize) * 2 + (h as usize)) * 18 + (s as usize) - 1;
        if lba >= len / 512 {
            proof {
                assert(done == i);
            }
            return Err(INT13_STATUS_SECTOR_NOT_FOUND);
        }
        proof {
            assert((lba + 1) * 512 <= len) by (nonlinear_arith)
                requires
                    lba < len / 512,
            ;
        }
        if write {
            let ghost before = fd.image@;
            copy_mem_into(mem, &mut fd.image, lba * 512, 512, p);
            proof {
                lemma_mem_bytes_append(m0, phys, (i * 512) as nat, 512);
                assert((i * 512) as nat + 512 == ((i + 1) * 512) as nat);
                if i == 0 {
                    assert(mem_bytes(m0, phys, 0) + mem_bytes(m0, p, 512) =~= mem_bytes(m0, p, 512));
                } else {
                    lemma_splice_append(
                        img0,
                        lba0 * 512,
                        mem_bytes(m0, phys, (i * 512) as nat),
                        mem_bytes(m0, p, 512),
                    );
                }
            }
        } else {
            let ghost before = *mem;
            write_range(mem, p, fd.image.as_slice(), lba * 512, 512);
            proof {
                let a = floppy_sectors(img0, lba0, i as int);
                let b = img0.subrange(lba * 512, lba * 512 + 512);
                lemma_writes_concat(m0, before, *mem, byte_writes(phys, a), byte_writes(p, b));
                lemma_byte_writes_append(phys, a, b);
                assert(a + b =~= floppy_sectors(img0, lba0, i + 1));
            }
        }
        p = p + 512;
        if i + 1 < count {
            match advance_floppy_chs(c, h, s) {
                Some((c2, h2, s2)) => {
                    c = c2;
                    h = h2;
                    s = s2;
                },
                None => {
                    proof {
                        assert(done == i + 1);
                    }
                    return Err(INT13_STATUS_SECTOR_NOT_FOUND);
                },
            }
        } else {
            proof {
                assert(done == count);
            }
            return Ok(count);
        }
        i = i + 1;
    }
    Ok(count)
}

/// Read `count` floppy sectors from a CHS address into physical `dest`.
pub fn int13_floppy_read_chs_to_phys(
    mem: &mut PhysMem,
    fd: &mut FloppyMedia,
    cylinder: u8,
    head: u8,
    sector: u8,
    count: u8,
    dest: u64,
) -> (r: Result<u8, u8>)
    requires
        old(mem).wf(),
    ensures
        final(mem).wf(),
        final(fd).attached == old(fd).attached,
        final(fd).write_protected == old(fd).write_protected,
        r == floppy_xfer_spec(
            *old(mem),
            old(fd).attached,
            old(fd).write_protected,
            old(fd).image@,
            cylinder,
            head,
            sector,
            count,
            dest,
            false,
        ).0,
        effect_holds(
            floppy_xfer_spec(
                *old(mem),
                old(fd).attached,
                old(fd).write_protected,
                old(fd).image@,
                cylinder,
                head,
                sector,
                count,
                dest,
                false,
            ).1,
            *old(mem),
            *final(mem),
            old(fd).image@,
            final(fd).image@,
        ),
{
    int13_floppy_xfer(mem, fd, cylinder, head, sector, count, dest, false)
}

/// Write `count` floppy sectors from physical `src` at a CHS address.
pub fn int13_floppy_write_chs_from_phys(
    mem: &mut PhysMem,
    fd: &mut FloppyMedia,
    cylinder: u8,
    head: u8,
    sector: u8,
    count: u8,
    src: u64,
) -> (r: Result<u8, u8>)
    requires
        old(mem).wf(),
    ensures
        final(mem).wf(),
        final(fd).attached == old(fd).attached,
        final(fd).write_protected == old(fd).write_protected,
        r == floppy_xfer_spec(
            *old(mem),
            old(fd).attached,
            old(fd).write_protected,
            old(fd).image@,
            cylinder,
            head,
            sector,
            count,
            src,
            true,
        ).0,
        effect_holds(
            floppy_xfer_spec(
                *old(mem),
                old(fd).attached,
                old(fd).write_protected,
                old(fd).image@,
                cylinder,
                head,
                sector,
                count,
                src,
                true,
            ).1,
            *old(mem),
            *final(mem),
            old(fd).image@,
            final(fd).image@,
        ),
{
    int13_floppy_xfer(mem, fd, cylinder, head, sector, count, src, true)
}

/// AH=02h/03h on the floppy from the registers: a cylinder above 255 is
/// refused with status 04h; otherwise the transfer's count goes to `AL`, or
/// `AL` is cleared and its status reported.
pub open spec fn floppy_rw_spec(m: PhysMem, attached: bool, wp: bool, img: Seq<u8>, r: Int13Regs, write: bool) -> (
    Int13Regs,
    Int13Effect,
) {
    let c = unpack_cx_spec(r.cx).0;
    let s = unpack_cx_spec(r.cx).1;
    let p = seg_addr(r.es_base, r.bx);
    if c > 255 {
        (fail_regs(Int13Regs { al: 0, ..r }, INT13_STATUS_SECTOR_NOT_FOUND), Int13Effect::Nothing)
    } else {
        let x = floppy_xfer_spec(m, attached, wp, img, c as u8, r.dh, s, r.al, p, write);
        (
            match x.0 {
                Ok(n) => ok_al_regs(r, n),
                Err(e) => fail_regs(Int13Regs { al: 0, ..r }, e),
            },
            x.1,
        )
    }
}

/// The floppy dispatch: only drive `00h`; AH=00h reset, 02h read, 03h
/// write; anything else fails with status 01h.
pub open spec fn floppy_service_spec(m: PhysMem, attached: bool, wp: bool, img: Seq<u8>, r: Int13Regs) -> (
    Int13Regs,
    Int13Effect,
) {
    if r.dl != INT13_DRIVE_FD0 {
        (fail_regs(r, INT13_STATUS_INVALID), Int13Effect::Nothing)
    } else if r.ah == INT13_AH_RESET {
        if !attached {
            (fail_regs(r, INT13_STATUS_TIMEOUT), Int13Effect::Nothing)
        } else {
            (ok_al_regs(r, 0), Int13Effect::Nothing)
        }
    } else if r.ah == INT13_AH_READ {
        floppy_rw_spec(m, attached, wp, img, r, false)
    } else if r.ah == INT13_AH_WRITE {
        floppy_rw_spec(m, attached, wp, img, r, true)
    } else {
        (fail_regs(r, INT13_STATUS_INVALID), Int13Effect::Nothing)
    }
}

fn int13_floppy_rw_from_regs(mem: &mut PhysMem, fd: &mut FloppyMedia, regs: &mut Int13Regs, write: bool)
    requires
        old(mem).wf(),
    ensures
        final(mem).wf(),
        final(fd).attached == old(fd).attached,
        final(fd).write_protected == old(fd).write_protected,
        *final(regs) == floppy_rw_spec(
            *old(mem),
            old(fd).attached,
            old(fd).write_protected,
            old(fd).image@,
            *old(regs),
            write,
        ).0,
        effect_holds(
            floppy_rw_spec(*old(mem), old(fd).attached, old(fd).write_protected, old(fd).image@, *old(regs), write).1,
            *old(mem),
            *final(mem),
            old(fd).image@,
            final(fd).image@,
        ),
{
    let (cylinder, sector) = unpack_cx(regs.cx);
    let p = regs.es_base.wrapping_add(regs.bx as u64);
    if cylinder > 255 {
        regs.al = 0;
        regs.ah = INT13_STATUS_SECTOR_NOT_FOUND;
        regs.cf = true;
        return;
    }
    match int13_floppy_xfer(mem, fd, cylinder as u8, regs.dh, sector, regs.al, p, write) {
        Ok(n) => {
            regs.ah = INT13_STATUS_OK;
            regs.al = n;
            regs.cf = false;
        },
        Err(status) => {
            regs.al = 0;
            regs.ah = status;
            regs.cf = true;
        },
    }
}

/// INT 13h floppy dispatch from the registers.
pub fn service_int13_floppy(mem: &mut PhysMem, fd: &mut FloppyMedia, regs: &mut Int13Regs)
    requires
        old(mem).wf(),
    ensures
        final(mem).wf(),
        final(fd).attached == old(fd).attached,
        final(fd).write_protected == old(fd).write_protected,
        *final(regs) == floppy_service_spec(
            *old(mem),
            old(fd).attached,
            old(fd).write_protected,
            old(fd).image@,
            *old(regs),
        ).0,
        effect_holds(
            floppy_service_spec(*old(mem), old(fd).attached, old(fd).write_protected, old(fd).image@, *old(regs)).1,
            *old(mem),
            *final(mem),
            old(fd).image@,
            final(fd).image@,
        ),
{
    if regs.dl != INT13_DRIVE_FD0 {
        regs.ah = INT13_STATUS_INVALID;
        regs.cf = true;
        return;
    }
    let ah = regs.ah;
    if ah == INT13_AH_RESET {
        if !fd.attached {
            regs.ah = INT13_STATUS_TIMEOUT;
            regs.cf = true;
        } else {
            regs.ah = INT13_STATUS_OK;
            regs.al = 0;
            regs.cf = false;
        }
    } else if ah == INT13_AH_READ {
        int13_floppy_rw_from_regs(mem, fd, regs, false);
    } else if ah == INT13_AH_WRITE {
        int13_floppy_rw_from_regs(mem, fd, regs, true);
    } else {
        regs.ah = INT13_STATUS_INVALID;
        regs.cf = true;
    }
}

/// Route INT 13h by `DL`: floppy `00h`, hard disk `80h`; any other drive
/// fails with status 01h and changes nothing else.
pub fn service_int13(mem: &mut PhysMem, ide: &mut IdeDisk, fd: &mut FloppyMedia, regs: &mut Int13Regs)
    requires
        old(mem).wf(),
        dap_in_range(*old(regs)),
    ensures
        final(mem).wf(),
        final(ide).present == old(ide).present,
        final(fd).attached == old(fd).attached,
        final(fd).write_protected == old(fd).write_protected,
        old(regs).dl == INT13_DRIVE_FD0 ==> {
            &&& *final(regs) == floppy_service_spec(
                *old(mem),
                old(fd).attached,
                old(fd).write_protected,
                old(fd).image@,
                *old(regs),
            ).0
            &&& effect_holds(
                floppy_service_spec(*old(mem), old(fd).attached, old(fd).write_protected, old(fd).image@, *old(regs)).1,
                *old(mem),
                *final(mem),
                old(fd).image@,
                final(fd).image@,
            )
            &&& final(ide).image@ == old(ide).image@
        },
        old(regs).dl == INT13_DRIVE_HD0 ==> {
            &&& *final(regs) == hd_service_spec(*old(mem), old(ide).present, old(ide).image@, *old(regs)).0
            &&& effect_holds(
                hd_service_spec(*old(mem), old(ide).present, old(ide).image@, *old(regs)).1,
                *old(mem),
                *final(mem),
                old(ide).image@,
                final(ide).image@,
            )
            &&& final(fd).image@ == old(fd).image@
        },
        old(regs).dl != INT13_DRIVE_FD0 && old(regs).dl != INT13_DRIVE_HD0 ==> {
            &&& *final(regs) == fail_regs(*old(regs), INT13_STATUS_INVALID)
            &&& *final(mem) == *old(mem)
            &&& final(ide).image@ == old(ide).image@
            &&& final(fd).image@ == old(fd).image@
        },
{
    let dl = regs.dl;
    if dl == INT13_DRIVE_FD0 {
        service_int13_floppy(mem, fd, regs);
    } else if dl == INT13_DRIVE_HD0 {
        service_int13_hd(mem, ide, regs);
    } else {
        regs.ah = INT13_STATUS_INVALID;
        regs.cf = true;
    }
}

/// INT 13h AH=03h then AH=02h on the floppy with the same `CX`, `DH` and
/// `AL`: when the write succeeds, the read (write protection aside) succeeds
/// with the same count and puts into its buffer the bytes the write took
/// from memory.
pub proof fn law_int13_floppy_write_then_read(
    m: PhysMem,
    m2: PhysMem,
    attached: bool,
    wp: bool,
    img: Seq<u8>,
    w: Int13Regs,
    rd: Int13Regs,
)
    requires
        rd.cx == w.cx,
        rd.dh == w.dh,
        rd.al == w.al,
        !floppy_rw_spec(m, attached, wp, img, w, true).0.cf,
        seg_addr(rd.es_base, rd.bx) + w.al * 512 <= m2.ram_view().len(),
    ensures
        floppy_rw_spec(m, attached, wp, img, w, true).1 matches Int13Effect::ToImage(img2) && floppy_rw_spec(
            m2,
            attached,
            wp,
            img2,
            rd,
            false,
        ) == (
            ok_al_regs(rd, w.al),
            Int13Effect::ToMemory(
                seg_addr(rd.es_base, rd.bx),
                mem_bytes(m, seg_addr(w.es_base, w.bx), (w.al * 512) as nat),
            ),
        ),
{
    let c = unpack_cx_spec(w.cx).0;
    let s = unpack_cx_spec(w.cx).1;
    let p = seg_addr(w.es_base, w.bx);
    let lba = floppy_lba(c as u8, w.dh, s);
    let n = w.al as int;
    let data = mem_bytes(m, p, (n * 512) as nat);
    assert(floppy_done(img.len(), lba, n) == n);
    assert((lba + n) * 512 <= img.len()) by (nonlinear_arith)
        requires
            lba + n <= img.len() / 512,
    ;
    let img2 = splice(img, lba * 512, data);
    assert(img2.len() == img.len());
    assert(img2.subrange(lba * 512, (lba + n) * 512) =~= data);
}

/// Registers of an AH=02h floppy read of `count` sectors at a CHS address
/// into `es:bx`.
pub fn setup_int13_floppy_read(regs: &mut Int13Regs, cylinder: u8, head: u8, sector: u8, count: u8, es: u16, bx: u16)
    ensures
        *final(regs) == (Int13Regs {
            ah: INT13_AH_READ,
            al: count,
            cx: pack_cx_spec(cylinder as u16, sector),
            dl: INT13_DRIVE_FD0,
            dh: head,
            bx: bx,
            es_base: (es * 16) as u64,
            ..*old(regs)
        }),
{
    regs.ah = INT13_AH_READ;
    regs.al = count;
    regs.cx = pack_cx(cylinder as u16, sector);
    regs.dl = INT13_DRIVE_FD0;
    regs.dh = head;
    regs.bx = bx;
    regs.es_base = (es as u64) * 16;
}

/// Registers of an AH=03h floppy write of `count` sectors at a CHS address
/// from `es:bx`.
pub fn setup_int13_floppy_write(regs: &mut Int13Regs, cylinder: u8, head: u8, sector: u8, count: u8, es: u16, bx: u16)
    ensures
        *final(regs) == (Int13Regs {
            ah: INT13_AH_WRITE,
            al: count,
            cx: pack_cx_spec(cylinder as u16, sector),
            dl: INT13_DRIVE_FD0,
            dh: head,
            bx: bx,
            es_base: (es * 16) as u64,
            ..*old(regs)
        }),
{
    regs.ah = INT13_AH_WRITE;
    regs.al = count;
    regs.cx = pack_cx(cylinder as u16, sector);
    regs.dl = INT13_DRIVE_FD0;
    regs.dh = head;
    regs.bx = bx;
    regs.es_base = (es as u64) * 16;
}


/// Host INT 13h AH=41h extensions probe on drive `80h` (`BX=55AAh`): the
/// drive number, status and carry it leaves. Only `AH`, `BX` and `DL` are
/// set before the call; memory and media are left alone.
pub fn probe_int13_hd_extensions_status(
    mem: &mut PhysMem,
    ide: &mut IdeDisk,
    fd: &mut FloppyMedia,
    regs: &mut Int13Regs,
) -> (r: Int13ProbeSnapshot)
    requires
        old(mem).wf(),
    ensures
        final(mem).wf(),
        r == (Int13ProbeSnapshot {
            dl: INT13_DRIVE_HD0,
            ah: if old(ide).present {
                INT13_EXT_VERSION
            } else {
                INT13_STATUS_TIMEOUT
            },
            cf: !old(ide).present,
        }),
        *final(mem) == *old(mem),
        final(ide).image@ == old(ide).image@,
        final(fd).image@ == old(fd).image@,
{
    regs.ah = INT13_AH_CHECK_EXTENSIONS;
    regs.bx = INT13_EXT_MAGIC_IN;
    regs.dl = INT13_DRIVE_HD0;
    service_int13(mem, ide, fd, regs);
    Int13ProbeSnapshot { dl: INT13_DRIVE_HD0, ah: regs.ah, cf: regs.cf }
}

} // verus!
