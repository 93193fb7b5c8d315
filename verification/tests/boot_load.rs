use machine_pc::boot_load::{
    install_boot_sector_at_7c00, load_active_vbr_to_7c00, load_eltorito_to_7c00,
    load_floppy_boot_to_7c00, load_guest_boot_media, load_mbr_to_7c00, MachineError,
};
use machine_pc::guest_boot::GuestBootMedia;
use machine_pc::boot_media::{synthetic_int19_bootable_hd, MBR_PART_TYPE_FAT12};
use machine_pc::el_torito::ElToritoError;
use machine_pc::guest_images::synthetic_eltorito_linux_hlt_iso;
use machine_pc::int13_disk::IdeDisk;
use machine_pc::int13_floppy::FloppyMedia;
use machine_pc::mbr::{MBR_PHYS_ADDR, MBR_SECTOR_SIZE, MBR_SIGNATURE_HI, MBR_SIGNATURE_LO};
use machine_pc::mem::PhysMem;

const FDC_1440_IMAGE_SIZE: usize = 1_474_560;

fn synthetic_mbr(fill: u8) -> Vec<u8> {
    let mut sector = vec![fill; MBR_SECTOR_SIZE];
    sector[0] = 0xF4;
    sector[510] = MBR_SIGNATURE_LO;
    sector[511] = MBR_SIGNATURE_HI;
    sector
}

fn ide(image: Vec<u8>) -> IdeDisk {
    IdeDisk { present: true, image }
}

fn no_ide() -> IdeDisk {
    IdeDisk { present: false, image: Vec::new() }
}

fn floppy(image: Vec<u8>) -> FloppyMedia {
    FloppyMedia { attached: true, image, write_protected: false }
}

fn no_floppy() -> FloppyMedia {
    FloppyMedia { attached: false, image: Vec::new(), write_protected: false }
}

#[test]
fn load_mbr_to_7c00_from_ide_sets_cs_ip_and_memory() {
    let mbr = synthetic_mbr(0x90);
    let mut mem = PhysMem::new(64 * 1024);
    let entry = load_mbr_to_7c00(&mut mem, &ide(mbr.clone()), &no_floppy()).expect("IDE MBR load");
    assert_eq!(entry, (0x0000, 0x7C00));
    for (i, expected) in mbr.iter().enumerate() {
        assert_eq!(mem.read_u8(MBR_PHYS_ADDR + i as u64).unwrap(), *expected, "byte {i}");
    }
    assert_eq!(mem.read_u8(0x7C00 + 510).unwrap(), 0x55);
    assert_eq!(mem.read_u8(0x7C00 + 511).unwrap(), 0xAA);
}

#[test]
fn load_mbr_to_7c00_rejects_bad_signature() {
    let mut bad = vec![0x90u8; MBR_SECTOR_SIZE];
    bad[510] = 0x00;
    bad[511] = 0x00;
    let mut mem = PhysMem::new(64 * 1024);
    assert!(matches!(
        load_mbr_to_7c00(&mut mem, &ide(bad), &no_floppy()),
        Err(MachineError::InvalidMbrSignature)
    ));
    assert_eq!(mem.read_u8(MBR_PHYS_ADDR).unwrap(), 0x00);
}

#[test]
fn load_mbr_to_7c00_rejects_no_media() {
    let mut mem = PhysMem::new(64 * 1024);
    assert!(matches!(
        load_mbr_to_7c00(&mut mem, &no_ide(), &no_floppy()),
        Err(MachineError::NoBootMedia)
    ));
}

#[test]
fn load_mbr_to_7c00_rejects_short_ide_image() {
    let mut mem = PhysMem::new(64 * 1024);
    assert!(matches!(
        load_mbr_to_7c00(&mut mem, &ide(vec![0x55, 0xAA]), &no_floppy()),
        Err(MachineError::IncompleteBootSector)
    ));
}

#[test]
fn load_mbr_to_7c00_rejects_tiny_ram() {
    let mut mem = PhysMem::new(0x7C00);
    assert!(matches!(
        load_mbr_to_7c00(&mut mem, &ide(synthetic_mbr(0x00)), &no_floppy()),
        Err(MachineError::MbrRamTooSmall)
    ));
}

#[test]
fn load_mbr_to_7c00_prefers_ide_over_floppy() {
    let ide_mbr = synthetic_mbr(0x11);
    let mut fd_img = vec![0x22u8; FDC_1440_IMAGE_SIZE];
    fd_img[..MBR_SECTOR_SIZE].copy_from_slice(&synthetic_mbr(0x22));
    let mut mem = PhysMem::new(64 * 1024);
    load_mbr_to_7c00(&mut mem, &ide(ide_mbr), &floppy(fd_img)).unwrap();
    assert_eq!(mem.read_u8(0x7C00 + 1).unwrap(), 0x11);
    assert_ne!(mem.read_u8(0x7C00 + 1).unwrap(), 0x22);
}

#[test]
fn load_mbr_to_7c00_from_floppy_when_no_ide() {
    let mut fd_img = vec![0u8; FDC_1440_IMAGE_SIZE];
    fd_img[..MBR_SECTOR_SIZE].copy_from_slice(&synthetic_mbr(0x33));
    let mut mem = PhysMem::new(64 * 1024);
    let entry = load_mbr_to_7c00(&mut mem, &no_ide(), &floppy(fd_img)).expect("floppy MBR");
    assert_eq!(entry, (0, 0x7C00));
    assert_eq!(mem.read_u8(0x7C00).unwrap(), 0xF4);
    assert_eq!(mem.read_u8(0x7C00 + 1).unwrap(), 0x33);
    assert_eq!(mem.read_u8(0x7DFE).unwrap(), 0x55);
    assert_eq!(mem.read_u8(0x7DFF).unwrap(), 0xAA);
}

#[test]
fn load_floppy_boot_to_7c00_ignores_ide() {
    let mut fd_img = vec![0x22u8; FDC_1440_IMAGE_SIZE];
    fd_img[..MBR_SECTOR_SIZE].copy_from_slice(&synthetic_mbr(0x44));
    let mut mem = PhysMem::new(64 * 1024);
    let entry = load_floppy_boot_to_7c00(&mut mem, &floppy(fd_img)).expect("floppy-first");
    assert_eq!(entry, (0, 0x7C00));
    assert_eq!(mem.read_u8(0x7C00 + 1).unwrap(), 0x44);
    assert_ne!(mem.read_u8(0x7C00 + 1).unwrap(), 0x11);
    assert_eq!(mem.read_u8(0x7DFE).unwrap(), 0x55);
}

#[test]
fn load_floppy_boot_to_7c00_rejects_no_floppy() {
    let mut mem = PhysMem::new(64 * 1024);
    assert!(matches!(
        load_floppy_boot_to_7c00(&mut mem, &no_floppy()),
        Err(MachineError::NoBootMedia)
    ));
}

#[test]
fn load_floppy_boot_to_7c00_rejects_bad_signature() {
    let mut fd_img = vec![0u8; FDC_1440_IMAGE_SIZE];
    fd_img[510] = 0x00;
    fd_img[511] = 0x00;
    let mut mem = PhysMem::new(64 * 1024);
    assert!(matches!(
        load_floppy_boot_to_7c00(&mut mem, &floppy(fd_img)),
        Err(MachineError::InvalidMbrSignature)
    ));
}

#[test]
fn load_active_vbr_to_7c00_from_int19_hd() {
    let mut mem = PhysMem::new(64 * 1024);
    let (part, entry) = load_active_vbr_to_7c00(&mut mem, &ide(synthetic_int19_bootable_hd())).expect("vbr");
    assert_eq!(part.start_lba, 1);
    assert_eq!(part.part_type, MBR_PART_TYPE_FAT12);
    assert_eq!(entry, (0, 0x7C00));
    assert_eq!(mem.read_u8(0x7C00).unwrap(), 0xF4);
    assert_ne!(mem.read_u8(0x7C00 + 1).unwrap(), b'I');
    assert_eq!(mem.read_u8(0x7DFE).unwrap(), 0x55);
}

#[test]
fn load_active_vbr_rejects_signature_only_mbr() {
    let mut img = synthetic_mbr(0x90);
    img.resize(2 * MBR_SECTOR_SIZE, 0);
    let mut mem = PhysMem::new(64 * 1024);
    assert!(matches!(
        load_active_vbr_to_7c00(&mut mem, &ide(img)),
        Err(MachineError::NoActivePartition)
    ));
}

#[test]
fn load_active_vbr_rejects_partition_past_image() {
    // Active entry pointing at LBA 1 of a one-sector image.
    let mut img = synthetic_int19_bootable_hd();
    img.truncate(MBR_SECTOR_SIZE);
    let mut mem = PhysMem::new(64 * 1024);
    assert!(matches!(
        load_active_vbr_to_7c00(&mut mem, &ide(img)),
        Err(MachineError::IncompletePartitionSector)
    ));
}

#[test]
fn install_boot_sector_checks_signature_then_copies() {
    let mut mem = PhysMem::new(64 * 1024);
    let mut sector = synthetic_mbr(0x5A);
    assert_eq!(install_boot_sector_at_7c00(&mut mem, &sector), Ok((0, 0x7C00)));
    assert_eq!(mem.read_u8(0x7C01).unwrap(), 0x5A);
    sector[511] = 0;
    assert_eq!(install_boot_sector_at_7c00(&mut mem, &sector), Err(MachineError::InvalidMbrSignature));
}

#[test]
fn load_eltorito_hlt_iso_to_7c00() {
    let iso = synthetic_eltorito_linux_hlt_iso();
    let mut mem = PhysMem::new(64 * 1024);
    let entry = load_eltorito_to_7c00(&mut mem, Some(&iso)).expect("no-emul load");
    assert_eq!(entry, (0x07C0, 0));
    // Boot image at RBA 24 (byte 49152), four 512-byte sectors.
    for i in 0..2048u64 {
        assert_eq!(mem.read_u8(0x7C00 + i).unwrap(), iso[49152 + i as usize]);
    }
}

#[test]
fn load_eltorito_errors() {
    let mut mem = PhysMem::new(64 * 1024);
    assert_eq!(
        load_eltorito_to_7c00(&mut mem, None),
        Err(MachineError::ElTorito(ElToritoError::Truncated))
    );
    let mut small = PhysMem::new(0x7C00);
    let iso = synthetic_eltorito_linux_hlt_iso();
    assert_eq!(load_eltorito_to_7c00(&mut small, Some(&iso)), Err(MachineError::ElToritoRamTooSmall));
    // Cut the image inside the boot image.
    let cut = &iso[..49152 + 1024];
    assert_eq!(load_eltorito_to_7c00(&mut mem, Some(cut)), Err(MachineError::ElToritoBootImageOob));
}

#[test]
fn guest_boot_media_selects_the_matching_handoff() {
    let ide_mbr = synthetic_mbr(0x11);
    let mut fd_img = vec![0u8; FDC_1440_IMAGE_SIZE];
    fd_img[..MBR_SECTOR_SIZE].copy_from_slice(&synthetic_mbr(0x22));
    let iso = synthetic_eltorito_linux_hlt_iso();

    let mut mem = PhysMem::new(64 * 1024);
    let entry = load_guest_boot_media(&mut mem, GuestBootMedia::IdePrefer, &ide(ide_mbr.clone()), &floppy(fd_img.clone()), None);
    assert_eq!(entry, Ok((0, 0x7C00)));
    assert_eq!(mem.read_u8(0x7C01).unwrap(), 0x11);

    let mut mem = PhysMem::new(64 * 1024);
    let entry = load_guest_boot_media(&mut mem, GuestBootMedia::FloppyFirst, &ide(ide_mbr.clone()), &floppy(fd_img.clone()), None);
    assert_eq!(entry, Ok((0, 0x7C00)));
    assert_eq!(mem.read_u8(0x7C01).unwrap(), 0x22);

    let mut mem = PhysMem::new(64 * 1024);
    let entry = load_guest_boot_media(&mut mem, GuestBootMedia::ElTorito, &no_ide(), &no_floppy(), Some(&iso));
    assert_eq!(entry, Ok((0x07C0, 0)));
    assert_eq!(mem.read_u8(0x7C00).unwrap(), iso[49152]);

    let mut mem = PhysMem::new(64 * 1024);
    let entry = load_guest_boot_media(&mut mem, GuestBootMedia::ActiveVbr, &ide(synthetic_int19_bootable_hd()), &no_floppy(), None);
    assert_eq!(entry, Ok((0, 0x7C00)));
    assert_eq!(mem.read_u8(0x7C00).unwrap(), 0xF4);

    let mut mem = PhysMem::new(64 * 1024);
    let entry = load_guest_boot_media(&mut mem, GuestBootMedia::BzImageSetup, &ide(ide_mbr), &floppy(fd_img), Some(&iso));
    assert_eq!(entry, Err(MachineError::NoBootMedia));
    assert_eq!(mem.read_u8(0x7C00).unwrap(), 0x00);
}
