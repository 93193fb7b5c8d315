use machine_pc::boot_load::{load_floppy_boot_to_7c00, load_mbr_to_7c00};
use machine_pc::boot_media::{
    classify_attached_floppy_int19, classify_attached_ide_int19, classify_int19_boot_image,
    synthetic_int19_bootable_floppy, synthetic_int19_bootable_hd, synthetic_int19_freedos_stub_hd,
    Int19BootMediaClass, FDC_1440_IMAGE_SIZE, MBR_PART_TYPE_FAT12,
};
use machine_pc::int13_disk::IdeDisk;
use machine_pc::int13_floppy::FloppyMedia;
use machine_pc::mbr::{MBR_SECTOR_SIZE, MBR_SIGNATURE_HI, MBR_SIGNATURE_LO};
use machine_pc::mem::PhysMem;

#[test]
fn synthetic_hd_is_int19_active_partition() {
    let img = synthetic_int19_bootable_hd();
    match classify_int19_boot_image(&img) {
        Int19BootMediaClass::HdActivePartition { part_lba, part_type } => {
            assert_eq!(part_lba, 1);
            assert_eq!(part_type, MBR_PART_TYPE_FAT12);
        }
        other => panic!("unexpected {}", other.to_string()),
    }
    assert!(classify_int19_boot_image(&img).is_int19_candidate());
    assert_eq!(&img[1..5], b"INT1");
    assert_eq!(img[MBR_SECTOR_SIZE], 0xF4);
    assert_eq!(img[MBR_SECTOR_SIZE + 510], MBR_SIGNATURE_LO);
}

#[test]
fn synthetic_floppy_is_int19_boot_sector() {
    let img = synthetic_int19_bootable_floppy();
    assert_eq!(img.len(), FDC_1440_IMAGE_SIZE);
    assert_eq!(classify_int19_boot_image(&img), Int19BootMediaClass::FloppyBootSector);
}

#[test]
fn signature_only_hd_is_not_int19_candidate() {
    let mut img = vec![0u8; 4 * MBR_SECTOR_SIZE];
    img[510] = MBR_SIGNATURE_LO;
    img[511] = MBR_SIGNATURE_HI;
    assert_eq!(classify_int19_boot_image(&img), Int19BootMediaClass::HdSignatureOnly);
    assert!(!classify_int19_boot_image(&img).is_int19_candidate());
}

#[test]
fn attach_bootable_hd_helper_wires_ide() {
    let ide = IdeDisk { present: true, image: synthetic_int19_bootable_hd() };
    let fd = FloppyMedia { attached: false, image: Vec::new(), write_protected: false };
    assert!(ide.present);
    assert!(classify_attached_ide_int19(&ide).is_int19_candidate());
    let mut mem = PhysMem::new(64 * 1024);
    let entry = load_mbr_to_7c00(&mut mem, &ide, &fd).expect("mbr");
    assert_eq!(entry.1, 0x7C00);
    assert_eq!(mem.read_u8(0x7C00).unwrap(), 0xF4);
}

#[test]
fn attach_bootable_floppy_helper_wires_fdc() {
    let fd = FloppyMedia { attached: true, image: synthetic_int19_bootable_floppy(), write_protected: false };
    assert_eq!(classify_attached_floppy_int19(&fd), Int19BootMediaClass::FloppyBootSector);
    let mut mem = PhysMem::new(64 * 1024);
    load_floppy_boot_to_7c00(&mut mem, &fd).expect("vbr");
    assert_eq!(mem.read_u8(0x7C00).unwrap(), 0xF4);
}

#[test]
fn freedos_stub_hd_has_active_partition_and_vbr_code() {
    let img = synthetic_int19_freedos_stub_hd();
    assert!(classify_int19_boot_image(&img).is_int19_candidate());
    assert_eq!(&img[1..5], b"FDST");
    assert_eq!(img[MBR_SECTOR_SIZE], 0xBA);
    assert_eq!(img[MBR_SECTOR_SIZE + 1], 0xF8);
    assert_eq!(img[MBR_SECTOR_SIZE + 2], 0x03);
}

#[test]
fn missing_signature_and_short_images() {
    assert_eq!(classify_int19_boot_image(&[0u8; 16]), Int19BootMediaClass::TooShort);
    let mut bad = vec![0u8; MBR_SECTOR_SIZE];
    assert_eq!(classify_int19_boot_image(&bad), Int19BootMediaClass::MissingSignature);
    bad[510] = MBR_SIGNATURE_LO;
    bad[511] = MBR_SIGNATURE_HI;
    assert_eq!(classify_int19_boot_image(&bad), Int19BootMediaClass::HdSignatureOnly);
}

#[test]
fn attached_media_classes_without_media() {
    let none = IdeDisk { present: false, image: synthetic_int19_bootable_hd() };
    assert_eq!(classify_attached_ide_int19(&none), Int19BootMediaClass::TooShort);
    let empty = IdeDisk { present: true, image: Vec::new() };
    assert_eq!(classify_attached_ide_int19(&empty), Int19BootMediaClass::TooShort);
    let unsigned = FloppyMedia { attached: true, image: vec![0u8; FDC_1440_IMAGE_SIZE], write_protected: false };
    assert_eq!(classify_attached_floppy_int19(&unsigned), Int19BootMediaClass::MissingSignature);
    let short = FloppyMedia { attached: true, image: vec![0u8; 100], write_protected: false };
    assert_eq!(classify_attached_floppy_int19(&short), Int19BootMediaClass::TooShort);
}
