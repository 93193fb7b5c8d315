//! FAT12 BIOS Parameter Block parsing and a root-directory walk for the
//! FreeDOS `KERNEL.SYS` / `COMMAND.COM` 8.3 names.
//!
//! Finding a directory name is not loading or running the file.
use vstd::prelude::*;

use crate::boot_media::{
    classify_int19_boot_image, int19_class_spec, marked_mbr, push_marked_mbr, Int19BootMediaClass,
    MBR_PART_TYPE_FAT12,
};
use crate::bytes::{
    fill, le16_at, le16_of, le16_seq, le32_at, le32_of, le32_seq, push_bytes, push_fill, push_le16,
    push_le32,
};
use crate::text::{dec_digits, push_dec};
use crate::mbr::{has_boot_signature, MBR_SECTOR_SIZE, MBR_SIGNATURE_HI, MBR_SIGNATURE_LO};

verus! {

/// Bytes per FAT directory entry.
pub const FAT_DIRENT_SIZE: usize = 32;

/// 8.3 name field length.
pub const FAT_NAME83_LEN: usize = 11;

/// Attribute: volume label.
pub const FAT_ATTR_VOLUME: u8 = 0x08;

/// Attribute value of a long-name (VFAT) entry.
pub const FAT_ATTR_LFN: u8 = 0x0F;

/// First name byte marking the end of the directory.
pub const FAT_DIRENT_END: u8 = 0x00;

/// First name byte marking a deleted entry.
pub const FAT_DIRENT_DELETED: u8 = 0xE5;

/// The 8.3 directory name `KERNEL  SYS`.
pub open spec fn kernel_sys_name() -> Seq<u8> {
    seq![0x4Bu8, 0x45, 0x52, 0x4E, 0x45, 0x4C, 0x20, 0x20, 0x53, 0x59, 0x53]
}

/// The 8.3 directory name `COMMAND COM`.
pub open spec fn command_com_name() -> Seq<u8> {
    seq![0x43u8, 0x4F, 0x4D, 0x4D, 0x41, 0x4E, 0x44, 0x20, 0x43, 0x4F, 0x4D]
}

/// Bytes of [`kernel_sys_name`].
pub fn fat12_name_kernel_sys() -> (r: [u8; 11])
    ensures
        r@ == kernel_sys_name(),
{
    let r: [u8; 11] = [0x4Bu8, 0x45, 0x52, 0x4E, 0x45, 0x4C, 0x20, 0x20, 0x53, 0x59, 0x53];
    assert(r@ =~= kernel_sys_name());
    r
}

/// Bytes of [`command_com_name`].
pub fn fat12_name_command_com() -> (r: [u8; 11])
    ensures
        r@ == command_com_name(),
{
    let r: [u8; 11] = [0x43u8, 0x4F, 0x4D, 0x4D, 0x41, 0x4E, 0x44, 0x20, 0x43, 0x4F, 0x4D];
    assert(r@ =~= command_com_name());
    r
}

/// BPB fields needed for the FAT12 root walk.
#[derive(Clone, Copy, Debug, PartialEq, Eq, Structural)]
pub struct Fat12Bpb {
    pub bytes_per_sector: u16,
    pub sectors_per_cluster: u8,
    pub reserved_sectors: u16,
    pub fat_count: u8,
    pub root_entry_count: u16,
    pub sectors_per_fat: u16,
}

impl Fat12Bpb {
    pub open spec fn spec_root_dir_lba_offset(self) -> int {
        self.reserved_sectors + self.fat_count * self.sectors_per_fat
    }

    pub open spec fn spec_root_dir_sectors(self) -> int {
        let bytes = self.root_entry_count * FAT_DIRENT_SIZE;
        let bps: int = if self.bytes_per_sector == 0 {
            1
        } else {
            self.bytes_per_sector as int
        };
        (bytes + bps - 1) / bps
    }

    /// First root-directory sector relative to the volume start.
    pub fn root_dir_lba_offset(self) -> (r: u32)
        ensures
            r == self.spec_root_dir_lba_offset(),
    {
        proof {
            assert(self.fat_count * self.sectors_per_fat <= 255 * 65535) by (nonlinear_arith)
                requires
                    self.fat_count <= 255,
                    self.sectors_per_fat <= 65535,
            ;
        }
        (self.reserved_sectors as u32) + (self.fat_count as u32) * (self.sectors_per_fat as u32)
    }

    /// Root directory size in sectors, rounded up.
    pub fn root_dir_sectors(self) -> (r: u32)
        ensures
            r == self.spec_root_dir_sectors(),
    {
        let bytes = (self.root_entry_count as u32) * (FAT_DIRENT_SIZE as u32);
        let bps: u32 = if self.bytes_per_sector == 0 {
            1
        } else {
            self.bytes_per_sector as u32
        };
        (bytes + bps - 1) / bps
    }
}

/// One short-name entry found in the root directory.
#[derive(Clone, Copy, Debug, PartialEq, Eq)]
pub struct Fat12DirEntry {
    /// 8.3 name as stored (11 bytes, space padded).
    pub name83: [u8; 11],
    pub attr: u8,
    pub first_cluster: u16,
    pub size: u32,
}

/// Whether the 11 name bytes at `name` equal `expect` byte for byte.
fn name_equals(name: &[u8; 11], expect: &[u8; 11]) -> (r: bool)
    ensures
        r == (name@ == expect@),
{
    let mut i: usize = 0;
    while i < 11
        invariant
            i <= 11,
            name@.len() == 11,
            expect@.len() == 11,
            forall|j: int| 0 <= j < i ==> name@[j] == expect@[j],
        decreases 11 - i,
    {
        if name[i] != expect[i] {
            return false;
        }
        i = i + 1;
    }
    assert(name@ =~= expect@);
    true
}

impl Fat12DirEntry {
    pub fn is_kernel_sys(self) -> (r: bool)
        ensures
            r == (self.name83@ == kernel_sys_name()),
    {
        let k = fat12_name_kernel_sys();
        name_equals(&self.name83, &k)
    }

    pub fn is_command_com(self) -> (r: bool)
        ensures
            r == (self.name83@ == command_com_name()),
    {
        let c = fat12_name_command_com();
        name_equals(&self.name83, &c)
    }
}

/// Result of looking for the FreeDOS kernel and shell names on a volume.
#[derive(Clone, Debug, PartialEq, Eq)]
pub enum Fat12KernelLocate {
    /// No disk image, or too short.
    NoMedia,
    /// Not an INT 19h-candidate FAT partition.
    NotFat12Partition,
    /// BPB unusable or root directory out of range.
    BadBpb,
    /// Root walked; neither name present.
    RootMissingKernel,
    /// `KERNEL.SYS` directory entry present.
    KernelSysPresent { entry: Fat12DirEntry },
    /// Only `COMMAND.COM` present.
    CommandComPresent { entry: Fat12DirEntry },
}

impl Fat12KernelLocate {
    pub open spec fn spec_tag(&self) -> Seq<char> {
        match self {
            Fat12KernelLocate::NoMedia => "no-media"@,
            Fat12KernelLocate::NotFat12Partition => "not-fat12-partition"@,
            Fat12KernelLocate::BadBpb => "bad-bpb"@,
            Fat12KernelLocate::RootMissingKernel => "root-missing-kernel"@,
            Fat12KernelLocate::KernelSysPresent { .. } => "kernel-sys-present"@,
            Fat12KernelLocate::CommandComPresent { .. } => "command-com-present"@,
        }
    }

    pub fn tag(&self) -> (r: &'static str)
        ensures
            r@ == self.spec_tag(),
    {
        match self {
            Fat12KernelLocate::NoMedia => "no-media",
            Fat12KernelLocate::NotFat12Partition => "not-fat12-partition",
            Fat12KernelLocate::BadBpb => "bad-bpb",
            Fat12KernelLocate::RootMissingKernel => "root-missing-kernel",
            Fat12KernelLocate::KernelSysPresent { .. } => "kernel-sys-present",
            Fat12KernelLocate::CommandComPresent { .. } => "command-com-present",
        }
    }

    /// True when a FreeDOS-relevant 8.3 name was found.
    pub fn name_found(&self) -> (r: bool)
        ensures
            r == (self is KernelSysPresent || self is CommandComPresent),
    {
        match self {
            Fat12KernelLocate::KernelSysPresent { .. } => true,
            Fat12KernelLocate::CommandComPresent { .. } => true,
            _ => false,
        }
    }
}

/// The BPB [`parse_fat12_bpb`] accepts from a VBR, if any.
pub open spec fn bpb_spec(vbr: Seq<u8>) -> Option<Fat12Bpb> {
    if !has_boot_signature(vbr) {
        None
    } else {
        let b = Fat12Bpb {
            bytes_per_sector: le16_at(vbr, 0x0B) as u16,
            sectors_per_cluster: vbr[0x0D],
            reserved_sectors: le16_at(vbr, 0x0E) as u16,
            fat_count: vbr[0x10],
            root_entry_count: le16_at(vbr, 0x11) as u16,
            sectors_per_fat: le16_at(vbr, 0x16) as u16,
        };
        if b.bytes_per_sector != 512 || b.sectors_per_cluster == 0 || b.reserved_sectors == 0
            || b.fat_count == 0 || b.root_entry_count == 0 || b.sectors_per_fat == 0 {
            None
        } else {
            Some(b)
        }
    }
}

/// Parse a FAT12 BPB from a signed 512-byte VBR; requires 512 bytes per
/// sector and non-zero cluster size, reserved sectors, FAT count, root entry
/// count and FAT size.
pub fn parse_fat12_bpb(vbr: &[u8]) -> (r: Option<Fat12Bpb>)
    ensures
        r == bpb_spec(vbr@),
{
    if vbr.len() < MBR_SECTOR_SIZE {
        return None;
    }
    if vbr[510] != MBR_SIGNATURE_LO || vbr[511] != MBR_SIGNATURE_HI {
        return None;
    }
    let bytes_per_sector = le16_of(vbr, 0x0B);
    let sectors_per_cluster = vbr[0x0D];
    let reserved_sectors = le16_of(vbr, 0x0E);
    let fat_count = vbr[0x10];
    let root_entry_count = le16_of(vbr, 0x11);
    let sectors_per_fat = le16_of(vbr, 0x16);
    if bytes_per_sector != 512 || sectors_per_cluster == 0 || reserved_sectors == 0 || fat_count
        == 0 || root_entry_count == 0 || sectors_per_fat == 0 {
        return None;
    }
    Some(
        Fat12Bpb {
            bytes_per_sector,
            sectors_per_cluster,
            reserved_sectors,
            fat_count,
            root_entry_count,
            sectors_per_fat,
        },
    )
}

/// Whether an attribute byte marks a long-name or volume-label entry.
pub open spec fn skipped_attr(attr: u8) -> bool {
    attr == FAT_ATTR_LFN || attr & FAT_ATTR_VOLUME != 0
}

/// `d` holds the fields a directory entry `e` records.
pub open spec fn dirent_matches(d: Fat12DirEntry, e: Seq<u8>) -> bool {
    &&& d.name83@ == e.take(11)
    &&& d.attr == e[11]
    &&& if e[0] == FAT_DIRENT_DELETED {
        d.name83@ == fill(11, 0xE5) && d.first_cluster == 0 && d.size == 0
    } else if skipped_attr(e[11]) {
        d.first_cluster == 0 && d.size == 0
    } else {
        d.first_cluster == le16_at(e, 26) && d.size == le32_at(e, 28)
    }
}

/// Decode the 32-byte directory entry at `off` (`None` at the end marker).
fn parse_dirent(raw: &[u8], off: usize) -> (r: Option<Fat12DirEntry>)
    requires
        off + FAT_DIRENT_SIZE <= raw@.len(),
    ensures
        match r {
            Some(d) => raw@[off as int] != FAT_DIRENT_END && (raw@[off as int] != FAT_DIRENT_DELETED
                ==> dirent_matches(d, raw@.subrange(off as int, off + 32))),
            None => raw@[off as int] == FAT_DIRENT_END,
        },
{
    let ghost e = raw@.subrange(off as int, off + 32);
    let first = raw[off];
    if first == FAT_DIRENT_END {
        return None;
    }
    if first == FAT_DIRENT_DELETED {
        return Some(
            Fat12DirEntry { name83: [0xE5u8; 11], attr: raw[off + 11], first_cluster: 0, size: 0 },
        );
    }
    let name83: [u8; 11] = [
        raw[off],
        raw[off + 1],
        raw[off + 2],
        raw[off + 3],
        raw[off + 4],
        raw[off + 5],
        raw[off + 6],
        raw[off + 7],
        raw[off + 8],
        raw[off + 9],
        raw[off + 10],
    ];
    assert(name83@ =~= e.take(11));
    let attr = raw[off + 11];
    if attr == FAT_ATTR_LFN || (attr & FAT_ATTR_VOLUME) != 0 {
        return Some(Fat12DirEntry { name83, attr, first_cluster: 0, size: 0 });
    }
    let first_cluster = le16_of(raw, off + 26);
    let size = le32_of(raw, off + 28);
    assert(le16_at(e, 26) == le16_at(raw@, off + 26));
    assert(le32_at(e, 28) == le32_at(raw@, off + 28));
    Some(Fat12DirEntry { name83, attr, first_cluster, size })
}

/// Bytes of root-directory entry `k`.
pub open spec fn root_entry(root: Seq<u8>, k: int) -> Seq<u8> {
    root.subrange(32 * k, 32 * k + 32)
}

/// What the root walk finds: an entry index (kernel first) or why none.
pub enum RootWalk {
    Kernel(int),
    Command(int),
    Missing,
    TooShort,
}

/// Walk outcome from entry `k` on, with the first `COMMAND.COM` seen so far.
pub open spec fn root_walk(root: Seq<u8>, k: int, command: Option<int>) -> RootWalk
    decreases root.len() / 32 - k,
{
    if k < 0 || k >= root.len() / 32 || root_entry(root, k)[0] == FAT_DIRENT_END {
        match command {
            Some(c) => RootWalk::Command(c),
            None => if root.len() >= FAT_DIRENT_SIZE {
                RootWalk::Missing
            } else {
                RootWalk::TooShort
            },
        }
    } else if root_entry(root, k)[0] == FAT_DIRENT_DELETED || skipped_attr(root_entry(root, k)[11]) {
        root_walk(root, k + 1, command)
    } else if root_entry(root, k).take(11) == kernel_sys_name() {
        RootWalk::Kernel(k)
    } else if root_entry(root, k).take(11) == command_com_name() && command is None {
        root_walk(root, k + 1, Some(k))
    } else {
        root_walk(root, k + 1, command)
    }
}

/// `r` is the locate result a root walk outcome `w` over `root` stands for.
pub open spec fn walk_result_matches(root: Seq<u8>, w: RootWalk, r: Fat12KernelLocate) -> bool {
    match w {
        RootWalk::Kernel(k) => r matches Fat12KernelLocate::KernelSysPresent { entry } && dirent_matches(
            entry,
            root_entry(root, k),
        ),
        RootWalk::Command(k) => r matches Fat12KernelLocate::CommandComPresent { entry }
            && dirent_matches(entry, root_entry(root, k)),
        RootWalk::Missing => r == Fat12KernelLocate::RootMissingKernel,
        RootWalk::TooShort => r == Fat12KernelLocate::BadBpb,
    }
}

/// Walk root-directory bytes for `KERNEL.SYS` (returned at once) and the
/// first `COMMAND.COM`, skipping deleted, long-name and volume entries and
/// stopping at the end marker.
pub fn find_freedos_names_in_root(root: &[u8]) -> (r: Fat12KernelLocate)
    ensures
        walk_result_matches(root@, root_walk(root@, 0, None), r),
{
    let len = root.len();
    let n = len / FAT_DIRENT_SIZE;
    let mut command: Option<Fat12DirEntry> = None;
    let ghost mut command_at: Option<int> = None;
    let mut k: usize = 0;
    while k < n
        invariant
            len == root@.len(),
            n == root@.len() / 32,
            k <= n,
            root_walk(root@, 0, None) == root_walk(root@, k as int, command_at),
            command is Some == command_at is Some,
            command_at matches Some(c) ==> 0 <= c < n && dirent_matches(
                command.unwrap(),
                root_entry(root@, c),
            ),
        ensures
            k >= n || root_entry(root@, k as int)[0] == FAT_DIRENT_END,
            command is Some == command_at is Some,
            root_walk(root@, 0, None) == root_walk(root@, k as int, command_at),
            command_at matches Some(c) ==> 0 <= c < n && dirent_matches(
                command.unwrap(),
                root_entry(root@, c),
            ),
        decreases n - k,
    {
        proof {
            assert(32 * k + 32 <= root@.len()) by (nonlinear_arith)
                requires
                    k < n,
                    n == root@.len() / 32,
            ;
        }
        let off = k * FAT_DIRENT_SIZE;
        assert(root_entry(root@, k as int) =~= root@.subrange(off as int, off + 32));
        let first = root[off];
        if first == FAT_DIRENT_END {
            break;
        }
        if first == FAT_DIRENT_DELETED {
            k = k + 1;
            continue;
        }
        let ent = match parse_dirent(root, off) {
            Some(e) => e,
            None => {
                break;
            },
        };
        if ent.attr == FAT_ATTR_LFN || (ent.attr & FAT_ATTR_VOLUME) != 0 {
            k = k + 1;
            continue;
        }
        if ent.is_kernel_sys() {
            return Fat12KernelLocate::KernelSysPresent { entry: ent };
        }
        if ent.is_command_com() && command.is_none() {
            command = Some(ent);
            proof {
                command_at = Some(k as int);
            }
        }
        k = k + 1;
    }
    assert(root_walk(root@, k as int, command_at) == match command_at {
        Some(c) => RootWalk::Command(c),
        None => if root@.len() >= FAT_DIRENT_SIZE {
            RootWalk::Missing
        } else {
            RootWalk::TooShort
        },
    });
    match command {
        Some(entry) => Fat12KernelLocate::CommandComPresent { entry },
        None => if root.len() >= FAT_DIRENT_SIZE {
            Fat12KernelLocate::RootMissingKernel
        } else {
            Fat12KernelLocate::BadBpb
        },
    }
}

/// Whether a partition type is a FAT type the locate walks (01h, 04h, 06h).
pub open spec fn fat_part_type(t: u8) -> bool {
    t == MBR_PART_TYPE_FAT12 || t == 0x04 || t == 0x06
}

/// Byte offset of the VBR of a partition starting at `part_lba`.
pub open spec fn vbr_offset(part_lba: u32) -> int {
    part_lba * 512
}

/// First root sector of a partition at `part_lba` (saturating at `u32::MAX`).
pub open spec fn root_lba(part_lba: u32, bpb: Fat12Bpb) -> int {
    if part_lba + bpb.spec_root_dir_lba_offset() > u32::MAX {
        u32::MAX as int
    } else {
        part_lba + bpb.spec_root_dir_lba_offset()
    }
}

/// `r` is what [`locate_freedos_kernel_on_image`] reports for `image`.
pub open spec fn locate_matches(image: Seq<u8>, r: Fat12KernelLocate) -> bool {
    match int19_class_spec(image) {
        Int19BootMediaClass::TooShort => r == Fat12KernelLocate::NoMedia,
        Int19BootMediaClass::HdActivePartition { part_lba, part_type } => if !fat_part_type(
            part_type,
        ) {
            r == Fat12KernelLocate::NotFat12Partition
        } else if vbr_offset(part_lba) + 512 > image.len() {
            r == Fat12KernelLocate::BadBpb
        } else {
            let vbr = image.subrange(vbr_offset(part_lba), vbr_offset(part_lba) + 512);
            match bpb_spec(vbr) {
                None => r == Fat12KernelLocate::BadBpb,
                Some(bpb) => {
                    let off = root_lba(part_lba, bpb) * 512;
                    let len = bpb.spec_root_dir_sectors() * 512;
                    if off + len > image.len() {
                        r == Fat12KernelLocate::BadBpb
                    } else {
                        let root = image.subrange(off, off + len);
                        walk_result_matches(root, root_walk(root, 0, None), r)
                    }
                },
            }
        },
        _ => r == Fat12KernelLocate::NotFat12Partition,
    }
}

/// Whether the locate on `image` names `KERNEL.SYS` or `COMMAND.COM`.
pub open spec fn locate_names_found(image: Seq<u8>) -> bool {
    match int19_class_spec(image) {
        Int19BootMediaClass::HdActivePartition { part_lba, part_type } => {
            &&& fat_part_type(part_type)
            &&& vbr_offset(part_lba) + 512 <= image.len()
            &&& match bpb_spec(image.subrange(vbr_offset(part_lba), vbr_offset(part_lba) + 512)) {
                None => false,
                Some(bpb) => {
                    let off = root_lba(part_lba, bpb) * 512;
                    let len = bpb.spec_root_dir_sectors() * 512;
                    off + len <= image.len() && match root_walk(image.subrange(off, off + len), 0, None) {
                        RootWalk::Kernel(_) => true,
                        RootWalk::Command(_) => true,
                        _ => false,
                    }
                },
            }
        },
        _ => false,
    }
}

/// Every locate result the image admits agrees on whether a name was found.
pub proof fn lemma_locate_found_determined(image: Seq<u8>, l: Fat12KernelLocate)
    requires
        locate_matches(image, l),
    ensures
        (l is KernelSysPresent || l is CommandComPresent) == locate_names_found(image),
{
}

/// Locate the FreeDOS kernel and shell names on a disk image whose active
/// partition is FAT (types 01h, 04h, 06h): parse the VBR's BPB, then walk the
/// root directory. Clusters are not read.
pub fn locate_freedos_kernel_on_image(image: &[u8]) -> (r: Fat12KernelLocate)
    ensures
        locate_matches(image@, r),
{
    match classify_int19_boot_image(image) {
        Int19BootMediaClass::TooShort => Fat12KernelLocate::NoMedia,
        Int19BootMediaClass::HdActivePartition { part_lba, part_type } => {
            if !(part_type == MBR_PART_TYPE_FAT12 || part_type == 0x04 || part_type == 0x06) {
                return Fat12KernelLocate::NotFat12Partition;
            }
            let vbr_off = (part_lba as u64) * 512;
            if vbr_off + 512 > image.len() as u64 {
                return Fat12KernelLocate::BadBpb;
            }
            let vbr_off = vbr_off as usize;
            let bpb = match parse_fat12_bpb(&image[vbr_off..vbr_off + 512]) {
                Some(b) => b,
                None => {
                    return Fat12KernelLocate::BadBpb;
                },
            };
            let root_lba = part_lba.saturating_add(bpb.root_dir_lba_offset());
            let root_off = (root_lba as u64) * 512;
            let root_len = (bpb.root_dir_sectors() as u64) * 512;
            if root_off + root_len > image.len() as u64 {
                return Fat12KernelLocate::BadBpb;
            }
            let root_off = root_off as usize;
            let root_len = root_len as usize;
            find_freedos_names_in_root(&image[root_off..root_off + root_len])
        },
        _ => Fat12KernelLocate::NotFat12Partition,
    }
}

/// A FAT12 VBR for `bpb` (MS-DOS 5.0 OEM name, media F8h, 63 sectors per
/// track, 16 heads) with `code` placed at offset 3Eh.
pub open spec fn fat12_vbr(bpb: Fat12Bpb, total_sectors: u16, code: Seq<u8>) -> Seq<u8> {
    seq![0xEBu8, 0x3C, 0x90] + seq![0x4Du8, 0x53, 0x44, 0x4F, 0x53, 0x35, 0x2E, 0x30] + le16_seq(
        bpb.bytes_per_sector,
    ) + seq![bpb.sectors_per_cluster] + le16_seq(bpb.reserved_sectors) + seq![bpb.fat_count]
        + le16_seq(bpb.root_entry_count) + le16_seq(total_sectors) + seq![0xF8u8] + le16_seq(
        bpb.sectors_per_fat,
    ) + le16_seq(63) + le16_seq(16) + fill(34, 0) + code + fill(438, 0) + seq![
        MBR_SIGNATURE_LO,
        MBR_SIGNATURE_HI,
    ]
}

/// Real-mode code: print `FD` on COM1, halt.
pub open spec fn fd_serial_code() -> Seq<u8> {
    seq![0xBAu8, 0xF8, 0x03, 0xB0, 0x46, 0xEE, 0xB0, 0x44, 0xEE, 0xF4]
}

/// The BPB of the synthetic FreeDOS FAT12 volume.
pub open spec fn synthetic_bpb() -> Fat12Bpb {
    Fat12Bpb {
        bytes_per_sector: 512,
        sectors_per_cluster: 1,
        reserved_sectors: 1,
        fat_count: 2,
        root_entry_count: 16,
        sectors_per_fat: 1,
    }
}

/// A FAT sector whose first three clusters are media F8h and end-of-chain.
pub open spec fn fat12_fat_sector() -> Seq<u8> {
    seq![0xF8u8, 0xFF, 0xFF, 0xFF, 0x0F] + fill(507, 0)
}

/// Root directory holding one archive entry `KERNEL.SYS` at cluster 2, 12 bytes.
pub open spec fn fat12_root_sector() -> Seq<u8> {
    kernel_sys_name() + seq![0x20u8] + fill(14, 0) + le16_seq(2) + le32_seq(12) + fill(480, 0)
}

/// ASCII `KERNEL.SYS` followed by a NUL.
pub open spec fn kernel_sys_marker() -> Seq<u8> {
    seq![0x4Bu8, 0x45, 0x52, 0x4E, 0x45, 0x4C, 0x2E, 0x53, 0x59, 0x53, 0x00]
}

/// ASCII `FD12`.
pub open spec fn marker_fd12() -> Seq<u8> {
    seq![0x46u8, 0x44, 0x31, 0x32]
}

/// Layout of [`synthetic_int19_freedos_fat12_hd`].
pub open spec fn freedos_fat12_hd_spec() -> Seq<u8> {
    marked_mbr(marker_fd12(), 1, 8, MBR_PART_TYPE_FAT12) + fat12_vbr(synthetic_bpb(), 8, fd_serial_code())
        + fat12_fat_sector() + fat12_fat_sector() + fat12_root_sector() + kernel_sys_marker()
        + fill(501, 0) + fill(1536, 0)
}

fn push_fat12_vbr(v: &mut Vec<u8>, bpb: Fat12Bpb, total_sectors: u16, code: &[u8])
    ensures
        final(v)@ == old(v)@ + fat12_vbr(bpb, total_sectors, code@),
{
    let head: Vec<u8> = vec![0xEBu8, 0x3C, 0x90, 0x4D, 0x53, 0x44, 0x4F, 0x53, 0x35, 0x2E, 0x30];
    push_bytes(v, head.as_slice());
    push_le16(v, bpb.bytes_per_sector);
    v.push(bpb.sectors_per_cluster);
    push_le16(v, bpb.reserved_sectors);
    v.push(bpb.fat_count);
    push_le16(v, bpb.root_entry_count);
    push_le16(v, total_sectors);
    v.push(0xF8);
    push_le16(v, bpb.sectors_per_fat);
    push_le16(v, 63);
    push_le16(v, 16);
    push_fill(v, 0, 34);
    push_bytes(v, code);
    push_fill(v, 0, 438);
    v.push(MBR_SIGNATURE_LO);
    v.push(MBR_SIGNATURE_HI);
    assert(v@ =~= old(v)@ + fat12_vbr(bpb, total_sectors, code@));
}

fn push_fat_sector(v: &mut Vec<u8>)
    ensures
        final(v)@ == old(v)@ + fat12_fat_sector(),
{
    let head: Vec<u8> = vec![0xF8u8, 0xFF, 0xFF, 0xFF, 0x0F];
    push_bytes(v, head.as_slice());
    push_fill(v, 0, 507);
    assert(v@ =~= old(v)@ + fat12_fat_sector());
}

/// A disk with an active FAT12 partition at LBA 1 (8 sectors): a VBR whose
/// BPB describes one reserved sector, two one-sector FATs and 16 root entries,
/// with code that prints `FD` and halts; a root directory naming `KERNEL.SYS`
/// (cluster 2, 12 bytes); and a marker in cluster 2. It is not FreeDOS.
pub fn synthetic_int19_freedos_fat12_hd() -> (r: Vec<u8>)
    ensures
        r@ == freedos_fat12_hd_spec(),
{
    let mut img: Vec<u8> = Vec::new();
    let marker: Vec<u8> = vec![0x46u8, 0x44, 0x31, 0x32];
    assert(marker@ =~= marker_fd12());
    push_marked_mbr(&mut img, marker.as_slice(), 1, 8, MBR_PART_TYPE_FAT12);
    let bpb = Fat12Bpb {
        bytes_per_sector: 512,
        sectors_per_cluster: 1,
        reserved_sectors: 1,
        fat_count: 2,
        root_entry_count: 16,
        sectors_per_fat: 1,
    };
    let code: Vec<u8> = vec![0xBAu8, 0xF8, 0x03, 0xB0, 0x46, 0xEE, 0xB0, 0x44, 0xEE, 0xF4];
    assert(code@ =~= fd_serial_code());
    push_fat12_vbr(&mut img, bpb, 8, code.as_slice());
    push_fat_sector(&mut img);
    push_fat_sector(&mut img);
    let name = fat12_name_kernel_sys();
    push_bytes(&mut img, &name);
    img.push(0x20);
    push_fill(&mut img, 0, 14);
    push_le16(&mut img, 2);
    push_le32(&mut img, 12);
    push_fill(&mut img, 0, 480);
    let data: Vec<u8> = vec![0x4Bu8, 0x45, 0x52, 0x4E, 0x45, 0x4C, 0x2E, 0x53, 0x59, 0x53, 0x00];
    assert(data@ =~= kernel_sys_marker());
    push_bytes(&mut img, data.as_slice());
    push_fill(&mut img, 0, 501);
    push_fill(&mut img, 0, 1536);
    assert(img@ =~= freedos_fat12_hd_spec());
    img
}


impl Fat12KernelLocate {
    /// The displayed result: the tag, with the first cluster and size of a
    /// found entry.
    pub open spec fn spec_display(&self) -> Seq<char> {
        match self {
            Fat12KernelLocate::KernelSysPresent { entry } => "kernel-sys-present:cluster="@ + dec_digits(
                entry.first_cluster as nat,
            ) + " size="@ + dec_digits(entry.size as nat),
            Fat12KernelLocate::CommandComPresent { entry } => "command-com-present:cluster="@ + dec_digits(
                entry.first_cluster as nat,
            ) + " size="@ + dec_digits(entry.size as nat),
            _ => self.spec_tag(),
        }
    }

    /// Render the result as [`Self::spec_display`] describes.
    pub fn to_string(&self) -> (r: String)
        ensures
            r@ == self.spec_display(),
    {
        match self {
            Fat12KernelLocate::KernelSysPresent { entry } => {
                let mut s = String::from_str("kernel-sys-present:cluster=");
                push_dec(&mut s, entry.first_cluster as u64);
                s.append(" size=");
                push_dec(&mut s, entry.size as u64);
                s
            },
            Fat12KernelLocate::CommandComPresent { entry } => {
                let mut s = String::from_str("command-com-present:cluster=");
                push_dec(&mut s, entry.first_cluster as u64);
                s.append(" size=");
                push_dec(&mut s, entry.size as u64);
                s
            },
            _ => String::from_str(self.tag()),
        }
    }
}


/// The locate walks exactly the partitions of type 01h, 04h and 06h: for an
/// image whose active partition has type `t`, the result is
/// `NotFat12Partition` if and only if `t` is none of these.
pub proof fn law_locate_walks_fat_types(image: Seq<u8>, r: Fat12KernelLocate)
    requires
        locate_matches(image, r),
        int19_class_spec(image) is HdActivePartition,
    ensures
        (r is NotFat12Partition) <==> !({
            let t = int19_class_spec(image)->HdActivePartition_part_type;
            t == 0x01 || t == 0x04 || t == 0x06
        }),
{
    let (lba, t) = match int19_class_spec(image) {
        Int19BootMediaClass::HdActivePartition { part_lba, part_type } => (part_lba, part_type),
        _ => (0u32, 0u8),
    };
    if fat_part_type(t) && vbr_offset(lba) + 512 <= image.len() {
        let vbr = image.subrange(vbr_offset(lba), vbr_offset(lba) + 512);
        if let Some(bpb) = bpb_spec(vbr) {
            let off = root_lba(lba, bpb) * 512;
            let len = bpb.spec_root_dir_sectors() * 512;
            if off + len <= image.len() {
                let root = image.subrange(off, off + len);
                let w = root_walk(root, 0, None);
                assert(walk_result_matches(root, w, r));
            }
        }
    }
}


/// A walk that stops at entry `k` stopped on a live, non-volume, non-long-name
/// entry of that name.
proof fn lemma_root_walk_hit(root: Seq<u8>, i: int, command: Option<int>)
    requires
        i >= 0,
        command matches Some(c) ==> 0 <= c < root.len() / 32 && root_entry(root, c).take(11)
            == command_com_name() && root_entry(root, c)[0] != FAT_DIRENT_DELETED && !skipped_attr(
            root_entry(root, c)[11],
        ),
    ensures
        root_walk(root, i, command) matches RootWalk::Kernel(k) ==> 0 <= k < root.len() / 32
            && root_entry(root, k).take(11) == kernel_sys_name() && root_entry(root, k)[0]
            != FAT_DIRENT_DELETED && !skipped_attr(root_entry(root, k)[11]),
        root_walk(root, i, command) matches RootWalk::Command(k) ==> 0 <= k < root.len() / 32
            && root_entry(root, k).take(11) == command_com_name() && root_entry(root, k)[0]
            != FAT_DIRENT_DELETED && !skipped_attr(root_entry(root, k)[11]),
    decreases root.len() / 32 - i,
{
    if i >= root.len() / 32 || root_entry(root, i)[0] == FAT_DIRENT_END {
    } else if root_entry(root, i)[0] == FAT_DIRENT_DELETED || skipped_attr(root_entry(root, i)[11]) {
        lemma_root_walk_hit(root, i + 1, command);
    } else if root_entry(root, i).take(11) == kernel_sys_name() {
    } else if root_entry(root, i).take(11) == command_com_name() && command is None {
        lemma_root_walk_hit(root, i + 1, Some(i));
    } else {
        lemma_root_walk_hit(root, i + 1, command);
    }
}

/// A located entry carries the name it was found by: `KERNEL  SYS` for
/// `KernelSysPresent` and `COMMAND COM` for `CommandComPresent`, with an
/// attribute that is neither a volume label nor a long-name slot.
pub proof fn law_locate_reports_the_named_entry(image: Seq<u8>, r: Fat12KernelLocate)
    requires
        locate_matches(image, r),
    ensures
        r matches Fat12KernelLocate::KernelSysPresent { entry } ==> entry.name83@ == seq![
            0x4Bu8, 0x45, 0x52, 0x4E, 0x45, 0x4C, 0x20, 0x20, 0x53, 0x59, 0x53,
        ] && entry.attr != 0x0F && entry.attr & 0x08 == 0,
        r matches Fat12KernelLocate::CommandComPresent { entry } ==> entry.name83@ == seq![
            0x43u8, 0x4F, 0x4D, 0x4D, 0x41, 0x4E, 0x44, 0x20, 0x43, 0x4F, 0x4D,
        ] && entry.attr != 0x0F && entry.attr & 0x08 == 0,
{
    if let Int19BootMediaClass::HdActivePartition { part_lba, part_type } = int19_class_spec(image) {
        if fat_part_type(part_type) && vbr_offset(part_lba) + 512 <= image.len() {
            let vbr = image.subrange(vbr_offset(part_lba), vbr_offset(part_lba) + 512);
            if let Some(bpb) = bpb_spec(vbr) {
                let off = root_lba(part_lba, bpb) * 512;
                let len = bpb.spec_root_dir_sectors() * 512;
                if off + len <= image.len() {
                    let root = image.subrange(off, off + len);
                    lemma_root_walk_hit(root, 0, None);
                }
            }
        }
    }
}

} // verus!
