//! Boot-sector handoff: copy the MBR, the active partition's VBR, the floppy
//! boot sector or an El Torito no-emulation image into guest RAM, and give
//! the real-mode entry `CS:IP`.
use vstd::prelude::*;
use crate::bytes::copy_range;
use crate::el_torito::{el_torito_spec, parse_el_torito, ElToritoError, ElToritoInfo, EL_TORITO_MEDIA_NO_EMUL};
use crate::firmware::BiosRomError;
use crate::guest_boot::{opt_view, GuestBootMedia};
use crate::int13_disk::IdeDisk;
use crate::int13_floppy::FloppyMedia;
use crate::mbr::{
    active_partition_spec, find_active_partition, has_boot_signature, ActivePartition, MBR_PHYS_ADDR,
    MBR_SECTOR_SIZE, MBR_SIGNATURE_HI, MBR_SIGNATURE_LO,
};
use crate::mem::{byte_writes, write_all, writes_to, PhysMem};

verus! {

/// Errors of the machine-level boot and ROM helpers.
#[derive(Clone, Copy, Debug, PartialEq, Eq, Structural)]
pub enum MachineError {
    /// A ROM image does not fit its window.
    RomTooLarge,
    /// The BIOS image was refused.
    BiosRom(BiosRomError),
    /// No IDE LBA 0 and no floppy CHS (0,0,1) to boot from.
    NoBootMedia,
    /// The IDE image is shorter than one 512-byte sector.
    IncompleteBootSector,
    /// Bytes 510-511 are not the `55 AA` boot signature.
    InvalidMbrSignature,
    /// Guest RAM does not cover `0x7C00`-`0x7DFF`.
    MbrRamTooSmall,
    /// The MBR has no active (`80h`) partition entry.
    NoActivePartition,
    /// The active partition's first sector lies past the image.
    IncompletePartitionSector,
    /// The El Torito catalog could not be read.
    ElTorito(ElToritoError),
    /// The El Torito default entry is not bootable.
    ElToritoNotBootable,
    /// The El Torito default entry asks for floppy or hard-disk emulation.
    ElToritoUnsupportedMedia,
    /// The El Torito default entry loads zero sectors.
    ElToritoInvalidSectorCount,
    /// The El Torito boot image runs past the CD image.
    ElToritoBootImageOob,
    /// Guest RAM does not cover the El Torito load window.
    ElToritoRamTooSmall,
}

/// Real-mode entry after a boot-sector handoff: `0000:7C00`.
pub open spec fn boot_entry() -> (u16, u16) {
    (0u16, 0x7C00u16)
}

/// Installing a 512-byte boot sector at `0x7C00`: RAM must reach `0x7E00`
/// and the sector must carry the `55 AA` signature.
pub open spec fn install_spec(ram_len: nat, sector: Seq<u8>) -> Result<(u16, u16), MachineError> {
    if ram_len < 0x7E00 {
        Err(MachineError::MbrRamTooSmall)
    } else if !has_boot_signature(sector) {
        Err(MachineError::InvalidMbrSignature)
    } else {
        Ok(boot_entry())
    }
}

/// Copy a boot sector to `0x7C00` and give the entry `0000:7C00`.
pub fn install_boot_sector_at_7c00(mem: &mut PhysMem, sector: &[u8]) -> (r: Result<(u16, u16), MachineError>)
    requires
        old(mem).wf(),
        sector@.len() == MBR_SECTOR_SIZE,
    ensures
        final(mem).wf(),
        r == install_spec(old(mem).ram_view().len(), sector@),
        r is Ok ==> writes_to(*old(mem), *final(mem), byte_writes(MBR_PHYS_ADDR, sector@)),
        r is Err ==> *final(mem) == *old(mem),
{
    if mem.ram_len() < 0x7E00 {
        return Err(MachineError::MbrRamTooSmall);
    }
    if sector[510] != MBR_SIGNATURE_LO || sector[511] != MBR_SIGNATURE_HI {
        return Err(MachineError::InvalidMbrSignature);
    }
    write_all(mem, MBR_PHYS_ADDR, sector);
    Ok((0, 0x7C00))
}

/// The floppy boot sector, CHS (0,0,1), when media holding it is attached.
pub open spec fn floppy_boot_sector_spec(attached: bool, img: Seq<u8>) -> Option<Seq<u8>> {
    if attached && img.len() >= 512 {
        Some(img.subrange(0, 512))
    } else {
        None
    }
}

/// The boot sector to hand off: IDE LBA 0 when a drive is attached (too
/// short an image is an error), else the floppy boot sector.
pub open spec fn boot_sector_ide_prefer_spec(
    ide_present: bool,
    ide_img: Seq<u8>,
    fd_attached: bool,
    fd_img: Seq<u8>,
) -> Result<Option<Seq<u8>>, MachineError> {
    if ide_present {
        if ide_img.len() < 512 {
            Err(MachineError::IncompleteBootSector)
        } else {
            Ok(Some(ide_img.subrange(0, 512)))
        }
    } else {
        Ok(floppy_boot_sector_spec(fd_attached, fd_img))
    }
}

/// `r` holds the sector `s` describes.
pub open spec fn sector_matches(r: Option<Vec<u8>>, s: Option<Seq<u8>>) -> bool {
    match (r, s) {
        (None, None) => true,
        (Some(v), Some(t)) => v@ == t,
        _ => false,
    }
}

/// Floppy CHS (0,0,1) when media holding it is attached.
fn read_floppy_boot_sector(fd: &FloppyMedia) -> (r: Option<Vec<u8>>)
    ensures
        sector_matches(r, floppy_boot_sector_spec(fd.attached, fd.image@)),
{
    if fd.attached && fd.image.len() >= MBR_SECTOR_SIZE {
        Some(copy_range(fd.image.as_slice(), 0, MBR_SECTOR_SIZE))
    } else {
        None
    }
}

/// Prefer IDE LBA 0; else the floppy boot sector.
fn read_boot_sector_ide_prefer(ide: &IdeDisk, fd: &FloppyMedia) -> (r: Result<Option<Vec<u8>>, MachineError>)
    ensures
        match boot_sector_ide_prefer_spec(ide.present, ide.image@, fd.attached, fd.image@) {
            Err(e) => r == Err::<Option<Vec<u8>>, MachineError>(e),
            Ok(s) => r matches Ok(v) && sector_matches(v, s),
        },
{
    if ide.present {
        if ide.image.len() < MBR_SECTOR_SIZE {
            return Err(MachineError::IncompleteBootSector);
        }
        return Ok(Some(copy_range(ide.image.as_slice(), 0, MBR_SECTOR_SIZE)));
    }
    Ok(read_floppy_boot_sector(fd))
}

/// What a handoff of `sector` does, given the RAM size.
pub open spec fn handoff_spec(ram_len: nat, sector: Result<Option<Seq<u8>>, MachineError>) -> Result<
    (u16, u16),
    MachineError,
> {
    match sector {
        Err(e) => Err(e),
        Ok(None) => Err(MachineError::NoBootMedia),
        Ok(Some(s)) => install_spec(ram_len, s),
    }
}

/// The sector a successful handoff copied.
pub open spec fn handed_off(sector: Result<Option<Seq<u8>>, MachineError>) -> Seq<u8> {
    match sector {
        Ok(Some(s)) => s,
        _ => Seq::empty(),
    }
}

/// Load the boot sector (IDE LBA 0, else floppy CHS (0,0,1)) to `0x7C00`
/// and give the entry `0000:7C00`.
pub fn load_mbr_to_7c00(mem: &mut PhysMem, ide: &IdeDisk, fd: &FloppyMedia) -> (r: Result<(u16, u16), MachineError>)
    requires
        old(mem).wf(),
    ensures
        final(mem).wf(),
        r == handoff_spec(
            old(mem).ram_view().len(),
            boot_sector_ide_prefer_spec(ide.present, ide.image@, fd.attached, fd.image@),
        ),
        r is Ok ==> writes_to(
            *old(mem),
            *final(mem),
            byte_writes(
                MBR_PHYS_ADDR,
                handed_off(boot_sector_ide_prefer_spec(ide.present, ide.image@, fd.attached, fd.image@)),
            ),
        ),
        r is Err ==> *final(mem) == *old(mem),
{
    let sector = match read_boot_sector_ide_prefer(ide, fd) {
        Err(e) => {
            return Err(e);
        },
        Ok(None) => {
            return Err(MachineError::NoBootMedia);
        },
        Ok(Some(s)) => s,
    };
    install_boot_sector_at_7c00(mem, sector.as_slice())
}

/// Load floppy CHS (0,0,1) to `0x7C00`, ignoring any IDE disk, and give the
/// entry `0000:7C00`.
pub fn load_floppy_boot_to_7c00(mem: &mut PhysMem, fd: &FloppyMedia) -> (r: Result<(u16, u16), MachineError>)
    requires
        old(mem).wf(),
    ensures
        final(mem).wf(),
        r == handoff_spec(old(mem).ram_view().len(), Ok(floppy_boot_sector_spec(fd.attached, fd.image@))),
        r is Ok ==> writes_to(
            *old(mem),
            *final(mem),
            byte_writes(MBR_PHYS_ADDR, handed_off(Ok(floppy_boot_sector_spec(fd.attached, fd.image@)))),
        ),
        r is Err ==> *final(mem) == *old(mem),
{
    let sector = match read_floppy_boot_sector(fd) {
        None => {
            return Err(MachineError::NoBootMedia);
        },
        Some(s) => s,
    };
    install_boot_sector_at_7c00(mem, sector.as_slice())
}

/// IDE LBA `lba` when a drive is attached: `None` without a drive, an error
/// when the sector runs past the image.
pub open spec fn ide_lba_sector_spec(present: bool, img: Seq<u8>, lba: u32) -> Result<Option<Seq<u8>>, MachineError> {
    if !present {
        Ok(None)
    } else if (lba + 1) * 512 > img.len() {
        Err(MachineError::IncompletePartitionSector)
    } else {
        Ok(Some(img.subrange(lba * 512, (lba + 1) * 512)))
    }
}

/// Read one 512-byte IDE sector.
fn read_ide_lba_sector(ide: &IdeDisk, lba: u32) -> (r: Result<Option<Vec<u8>>, MachineError>)
    ensures
        match ide_lba_sector_spec(ide.present, ide.image@, lba) {
            Err(e) => r == Err::<Option<Vec<u8>>, MachineError>(e),
            Ok(s) => r matches Ok(v) && sector_matches(v, s),
        },
{
    if !ide.present {
        return Ok(None);
    }
    let off = (lba as u64) * 512;
    let end = off + 512;
    if end > ide.image.len() as u64 {
        return Err(MachineError::IncompletePartitionSector);
    }
    Ok(Some(copy_range(ide.image.as_slice(), off as usize, end as usize)))
}

/// The VBR chain: IDE LBA 0 must be a signed MBR with an active entry, whose
/// first sector is then handed off.
pub open spec fn vbr_spec(ram_len: nat, present: bool, img: Seq<u8>) -> Result<(ActivePartition, (u16, u16)), MachineError> {
    if !present || img.len() < 512 {
        Err(MachineError::NoBootMedia)
    } else if !has_boot_signature(img.subrange(0, 512)) {
        Err(MachineError::InvalidMbrSignature)
    } else {
        match active_partition_spec(img.subrange(0, 512)) {
            None => Err(MachineError::NoActivePartition),
            Some(part) => match handoff_spec(ram_len, ide_lba_sector_spec(present, img, part.start_lba)) {
                Err(e) => Err(e),
                Ok(entry) => Ok((part, entry)),
            },
        }
    }
}

/// Load the active partition's VBR to `0x7C00`; gives the partition and the
/// entry `0000:7C00`.
pub fn load_active_vbr_to_7c00(mem: &mut PhysMem, ide: &IdeDisk) -> (r: Result<(ActivePartition, (u16, u16)), MachineError>)
    requires
        old(mem).wf(),
    ensures
        final(mem).wf(),
        r == vbr_spec(old(mem).ram_view().len(), ide.present, ide.image@),
        r matches Ok((part, _)) ==> writes_to(
            *old(mem),
            *final(mem),
            byte_writes(MBR_PHYS_ADDR, handed_off(ide_lba_sector_spec(ide.present, ide.image@, part.start_lba))),
        ),
        r is Err ==> *final(mem) == *old(mem),
{
    if !ide.present || ide.image.len() < MBR_SECTOR_SIZE {
        return Err(MachineError::NoBootMedia);
    }
    let mbr = copy_range(ide.image.as_slice(), 0, MBR_SECTOR_SIZE);
    if mbr[510] != MBR_SIGNATURE_LO || mbr[511] != MBR_SIGNATURE_HI {
        return Err(MachineError::InvalidMbrSignature);
    }
    let part = match find_active_partition(mbr.as_slice()) {
        None => {
            return Err(MachineError::NoActivePartition);
        },
        Some(p) => p,
    };
    let sector = match read_ide_lba_sector(ide, part.start_lba) {
        Err(e) => {
            return Err(e);
        },
        Ok(None) => {
            return Err(MachineError::NoBootMedia);
        },
        Ok(Some(s)) => s,
    };
    match install_boot_sector_at_7c00(mem, sector.as_slice()) {
        Err(e) => Err(e),
        Ok(entry) => Ok((part, entry)),
    }
}

/// The El Torito catalog of the attached CD, if any (no medium reads as a
/// truncated image).
pub open spec fn cd_catalog_spec(cd: Option<Seq<u8>>) -> Result<ElToritoInfo, ElToritoError> {
    match cd {
        None => Err(ElToritoError::Truncated),
        Some(img) => el_torito_spec(img),
    }
}

/// Where a no-emulation image starts in the CD image.
pub open spec fn eltorito_src(info: ElToritoInfo) -> int {
    info.load_rba * 2048
}

/// Where it goes in RAM.
pub open spec fn eltorito_dest(info: ElToritoInfo) -> int {
    info.spec_effective_load_segment() * 16
}

/// Its length in bytes.
pub open spec fn eltorito_len(info: ElToritoInfo) -> int {
    info.sector_count * 512
}

/// Loading the El Torito no-emulation boot image: the catalog must be
/// valid, bootable and no-emulation with a non-zero count; the image must
/// lie inside the CD and its window inside RAM. The entry is
/// `load_segment:0000`.
pub open spec fn eltorito_load_spec(ram_len: nat, cd: Option<Seq<u8>>) -> Result<(u16, u16), MachineError> {
    match cd_catalog_spec(cd) {
        Err(e) => Err(MachineError::ElTorito(e)),
        Ok(info) => if !info.bootable {
            Err(MachineError::ElToritoNotBootable)
        } else if info.media_type != EL_TORITO_MEDIA_NO_EMUL {
            Err(MachineError::ElToritoUnsupportedMedia)
        } else if info.sector_count == 0 {
            Err(MachineError::ElToritoInvalidSectorCount)
        } else if eltorito_src(info) + eltorito_len(info) > cd->0.len() {
            Err(MachineError::ElToritoBootImageOob)
        } else if eltorito_dest(info) + eltorito_len(info) > ram_len {
            Err(MachineError::ElToritoRamTooSmall)
        } else {
            Ok((info.spec_effective_load_segment(), 0u16))
        },
    }
}

/// The bytes a successful El Torito load copies.
pub open spec fn eltorito_payload(cd: Option<Seq<u8>>) -> Seq<u8> {
    let info = cd_catalog_spec(cd)->Ok_0;
    cd->0.subrange(eltorito_src(info), eltorito_src(info) + eltorito_len(info))
}

fn inspect_el_torito(cd_image: Option<&[u8]>) -> (r: Result<ElToritoInfo, ElToritoError>)
    ensures
        r == cd_catalog_spec(
            opt_view(cd_image),
        ),
{
    match cd_image {
        None => Err(ElToritoError::Truncated),
        Some(img) => parse_el_torito(img),
    }
}

/// Load the El Torito no-emulation boot image of the attached CD (`None`:
/// no medium) to its load segment; gives the entry `load_segment:0000`.
pub fn load_eltorito_to_7c00(mem: &mut PhysMem, cd_image: Option<&[u8]>) -> (r: Result<(u16, u16), MachineError>)
    requires
        old(mem).wf(),
    ensures
        final(mem).wf(),
        r == eltorito_load_spec(
            old(mem).ram_view().len(),
            opt_view(cd_image),
        ),
        r is Ok ==> writes_to(
            *old(mem),
            *final(mem),
            byte_writes(
                eltorito_dest(cd_catalog_spec(opt_view(cd_image))->Ok_0) as u64,
                eltorito_payload(opt_view(cd_image)),
            ),
        ),
        r is Err ==> *final(mem) == *old(mem),
{
    let info = match inspect_el_torito(cd_image) {
        Err(e) => {
            return Err(MachineError::ElTorito(e));
        },
        Ok(i) => i,
    };
    if !info.bootable {
        return Err(MachineError::ElToritoNotBootable);
    }
    if info.media_type != EL_TORITO_MEDIA_NO_EMUL {
        return Err(MachineError::ElToritoUnsupportedMedia);
    }
    if info.sector_count == 0 {
        return Err(MachineError::ElToritoInvalidSectorCount);
    }
    let byte_len = (info.sector_count as u64) * 512;
    let phys = info.load_phys();
    let image = match cd_image {
        None => {
            return Err(MachineError::ElTorito(ElToritoError::Truncated));
        },
        Some(img) => img,
    };
    let src_off = (info.load_rba as u64) * 2048;
    let src_end = src_off + byte_len;
    if src_end > image.len() as u64 {
        return Err(MachineError::ElToritoBootImageOob);
    }
    if phys + byte_len > mem.ram_len() as u64 {
        return Err(MachineError::ElToritoRamTooSmall);
    }
    let boot = copy_range(image, src_off as usize, src_end as usize);
    write_all(mem, phys, boot.as_slice());
    Ok((info.effective_load_segment(), 0))
}


impl MachineError {
    pub open spec fn spec_message(self) -> Seq<char> {
        match self {
            MachineError::RomTooLarge => "ROM too large for window"@,
            MachineError::BiosRom(e) => e.spec_message(),
            MachineError::NoBootMedia => "no boot media attached (IDE LBA0 or floppy CHS 0,0,1)"@,
            MachineError::IncompleteBootSector => "boot sector shorter than 512 bytes"@,
            MachineError::InvalidMbrSignature => "invalid MBR signature (expected 0x55AA)"@,
            MachineError::MbrRamTooSmall => "RAM too small for MBR at 0x7C00"@,
            MachineError::NoActivePartition => "MBR has no active partition"@,
            MachineError::IncompletePartitionSector => "active partition sector lies past the disk image"@,
            MachineError::ElTorito(e) => e.spec_message(),
            MachineError::ElToritoNotBootable => "El Torito default entry is not bootable"@,
            MachineError::ElToritoUnsupportedMedia => "El Torito emulation media type is not supported"@,
            MachineError::ElToritoInvalidSectorCount => "El Torito default entry loads no sectors"@,
            MachineError::ElToritoBootImageOob => "El Torito boot image lies past the CD image"@,
            MachineError::ElToritoRamTooSmall => "RAM too small for the El Torito boot image"@,
        }
    }

    /// Human-readable description of the error.
    pub fn message(&self) -> (r: &'static str)
        ensures
            r@ == self.spec_message(),
    {
        match self {
            MachineError::RomTooLarge => "ROM too large for window",
            MachineError::BiosRom(e) => e.message(),
            MachineError::NoBootMedia => "no boot media attached (IDE LBA0 or floppy CHS 0,0,1)",
            MachineError::IncompleteBootSector => "boot sector shorter than 512 bytes",
            MachineError::InvalidMbrSignature => "invalid MBR signature (expected 0x55AA)",
            MachineError::MbrRamTooSmall => "RAM too small for MBR at 0x7C00",
            MachineError::NoActivePartition => "MBR has no active partition",
            MachineError::IncompletePartitionSector => "active partition sector lies past the disk image",
            MachineError::ElTorito(e) => e.message(),
            MachineError::ElToritoNotBootable => "El Torito default entry is not bootable",
            MachineError::ElToritoUnsupportedMedia => "El Torito emulation media type is not supported",
            MachineError::ElToritoInvalidSectorCount => "El Torito default entry loads no sectors",
            MachineError::ElToritoBootImageOob => "El Torito boot image lies past the CD image",
            MachineError::ElToritoRamTooSmall => "RAM too small for the El Torito boot image",
        }
    }
}

/// The entry a guest boot on `media` is armed with, or why none is.
pub open spec fn guest_media_load_spec(
    ram_len: nat,
    media: GuestBootMedia,
    ide_present: bool,
    ide_img: Seq<u8>,
    fd_attached: bool,
    fd_img: Seq<u8>,
    cd: Option<Seq<u8>>,
) -> Result<(u16, u16), MachineError> {
    match media {
        GuestBootMedia::IdePrefer => handoff_spec(
            ram_len,
            boot_sector_ide_prefer_spec(ide_present, ide_img, fd_attached, fd_img),
        ),
        GuestBootMedia::FloppyFirst => handoff_spec(ram_len, Ok(floppy_boot_sector_spec(fd_attached, fd_img))),
        GuestBootMedia::ElTorito => eltorito_load_spec(ram_len, cd),
        GuestBootMedia::ActiveVbr => match vbr_spec(ram_len, ide_present, ide_img) {
            Ok((_, entry)) => Ok(entry),
            Err(e) => Err(e),
        },
        GuestBootMedia::BzImageSetup => Err(MachineError::NoBootMedia),
    }
}

/// The bytes a successful guest boot load on `media` writes into memory.
pub open spec fn guest_media_writes(
    media: GuestBootMedia,
    ide_present: bool,
    ide_img: Seq<u8>,
    fd_attached: bool,
    fd_img: Seq<u8>,
    cd: Option<Seq<u8>>,
) -> Seq<(u64, u8)> {
    match media {
        GuestBootMedia::IdePrefer => byte_writes(
            MBR_PHYS_ADDR,
            handed_off(boot_sector_ide_prefer_spec(ide_present, ide_img, fd_attached, fd_img)),
        ),
        GuestBootMedia::FloppyFirst => byte_writes(
            MBR_PHYS_ADDR,
            handed_off(Ok(floppy_boot_sector_spec(fd_attached, fd_img))),
        ),
        GuestBootMedia::ElTorito => byte_writes(
            eltorito_dest(cd_catalog_spec(cd)->Ok_0) as u64,
            eltorito_payload(cd),
        ),
        GuestBootMedia::ActiveVbr => byte_writes(
            MBR_PHYS_ADDR,
            handed_off(
                ide_lba_sector_spec(
                    ide_present,
                    ide_img,
                    active_partition_spec(ide_img.subrange(0, 512))->Some_0.start_lba,
                ),
            ),
        ),
        GuestBootMedia::BzImageSetup => Seq::empty(),
    }
}

/// Prepare a guest boot measure on `media`: load its boot code with the
/// matching handoff (IDE else floppy, floppy only, El Torito, or the active
/// partition's VBR) and give the armed entry `CS:IP`. The Linux setup path
/// has its own loader and is refused here.
pub fn load_guest_boot_media(
    mem: &mut PhysMem,
    media: GuestBootMedia,
    ide: &IdeDisk,
    fd: &FloppyMedia,
    cd_image: Option<&[u8]>,
) -> (r: Result<(u16, u16), MachineError>)
    requires
        old(mem).wf(),
    ensures
        final(mem).wf(),
        r == guest_media_load_spec(
            old(mem).ram_view().len(),
            media,
            ide.present,
            ide.image@,
            fd.attached,
            fd.image@,
            opt_view(cd_image),
        ),
        r is Ok ==> writes_to(
            *old(mem),
            *final(mem),
            guest_media_writes(media, ide.present, ide.image@, fd.attached, fd.image@, opt_view(cd_image)),
        ),
        r is Err ==> *final(mem) == *old(mem),
{
    match media {
        GuestBootMedia::IdePrefer => load_mbr_to_7c00(mem, ide, fd),
        GuestBootMedia::FloppyFirst => load_floppy_boot_to_7c00(mem, fd),
        GuestBootMedia::ElTorito => load_eltorito_to_7c00(mem, cd_image),
        GuestBootMedia::ActiveVbr => match load_active_vbr_to_7c00(mem, ide) {
            Ok((_, entry)) => Ok(entry),
            Err(e) => Err(e),
        },
        GuestBootMedia::BzImageSetup => Err(MachineError::NoBootMedia),
    }
}

} // verus!
