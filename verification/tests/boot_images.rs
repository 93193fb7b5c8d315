use machine_pc::boot_media::{
    classify_int19_boot_image, synthetic_int19_bootable_hd, synthetic_int19_freedos_stub_hd,
    Int19BootMediaClass, MBR_PART_TYPE_FAT12,
};
use machine_pc::fat12::{
    locate_freedos_kernel_on_image, parse_fat12_bpb, synthetic_int19_freedos_fat12_hd,
    Fat12KernelLocate,
};
use machine_pc::guest_boot::locate_freedos_kernel_on_machine;
use machine_pc::int13_disk::IdeDisk;
use machine_pc::hello_rom::{build_hello_rom, EXPECTED_HELLO, HELLO_ROM_SIZE};
use machine_pc::int13::{chs_to_lba, pack_cx, unpack_cx};
use machine_pc::int16::Int16Key;
use machine_pc::mbr::{find_active_partition, MBR_SECTOR_SIZE};

#[test]
fn parse_bpb_from_synthetic_fat12() {
    let img = synthetic_int19_freedos_fat12_hd();
    let vbr = &img[MBR_SECTOR_SIZE..2 * MBR_SECTOR_SIZE];
    let bpb = parse_fat12_bpb(vbr).expect("bpb");
    assert_eq!(bpb.bytes_per_sector, 512);
    assert_eq!(bpb.root_entry_count, 16);
    assert_eq!(bpb.root_dir_lba_offset(), 1 + 2);
}

#[test]
fn locate_kernel_sys_on_synthetic_fat12() {
    let img = synthetic_int19_freedos_fat12_hd();
    match locate_freedos_kernel_on_image(&img) {
        Fat12KernelLocate::KernelSysPresent { entry } => {
            assert!(entry.is_kernel_sys());
            assert_eq!(entry.first_cluster, 2);
            assert_eq!(entry.size, 12);
        }
        other => panic!("unexpected {other:?}"),
    }
}

#[test]
fn locate_missing_on_r14_stub() {
    let img = synthetic_int19_freedos_stub_hd();
    assert_eq!(locate_freedos_kernel_on_image(&img), Fat12KernelLocate::BadBpb);
}

#[test]
fn locate_reports_no_media_for_an_empty_disk() {
    assert_eq!(locate_freedos_kernel_on_image(&[]), Fat12KernelLocate::NoMedia);
    assert_eq!(Fat12KernelLocate::NoMedia.tag(), "no-media");
    assert!(!Fat12KernelLocate::NoMedia.name_found());
}

#[test]
fn find_active_partition_reads_lba1() {
    let img = synthetic_int19_bootable_hd();
    let part = find_active_partition(&img).expect("active");
    assert_eq!(part.index, 0);
    assert_eq!(part.start_lba, 1);
}

#[test]
fn synthetic_hd_classifies_as_active_fat12_partition() {
    match classify_int19_boot_image(&synthetic_int19_bootable_hd()) {
        Int19BootMediaClass::HdActivePartition { part_lba, part_type } => {
            assert_eq!(part_lba, 1);
            assert_eq!(part_type, MBR_PART_TYPE_FAT12);
        }
        other => panic!("unexpected {other:?}"),
    }
    let mut sig_only = vec![0u8; 1024];
    sig_only[510] = 0x55;
    sig_only[511] = 0xAA;
    assert_eq!(
        classify_int19_boot_image(&sig_only),
        Int19BootMediaClass::HdSignatureOnly
    );
    assert_eq!(
        classify_int19_boot_image(&[0u8; 16]),
        Int19BootMediaClass::TooShort
    );
    assert_eq!(
        classify_int19_boot_image(&vec![0u8; 512]),
        Int19BootMediaClass::MissingSignature
    );
}

#[test]
fn msg_bytes_present() {
    let rom = build_hello_rom();
    assert_eq!(
        &rom[0x17..0x17 + EXPECTED_HELLO.len()],
        EXPECTED_HELLO.as_bytes()
    );
}

#[test]
fn hello_rom_reset_vector_jumps_to_offset_zero() {
    let rom = build_hello_rom();
    assert_eq!(rom.len(), HELLO_ROM_SIZE);
    assert_eq!(&rom[0xFFF0..0xFFF3], &[0xE9, 0x0D, 0x00]);
    assert_eq!(rom[0x17 + EXPECTED_HELLO.len()], 0);
}

#[test]
fn pack_unpack_cx_round_trip() {
    for cyl in [0u16, 1, 255, 256, 1023] {
        for sec in [1u8, 18, 63] {
            let cx = pack_cx(cyl, sec);
            let (c2, s2) = unpack_cx(cx);
            assert_eq!((c2, s2), (cyl, sec), "cyl={cyl} sec={sec}");
        }
    }
}

#[test]
fn pack_cx_places_cylinder_high_bits_in_cl() {
    assert_eq!(pack_cx(0x3FF, 0x3F), 0xFFFF);
    assert_eq!(pack_cx(0x100, 1), 0x0041);
    assert_eq!(unpack_cx(0x0041), (0x100, 1));
}

#[test]
fn chs_to_lba_uses_16_heads_63_sectors() {
    assert_eq!(chs_to_lba(0, 0, 1), Some(0));
    assert_eq!(chs_to_lba(0, 1, 1), Some(63));
    assert_eq!(chs_to_lba(1, 0, 1), Some(16 * 63));
    assert_eq!(chs_to_lba(0, 0, 0), None);
    assert_eq!(chs_to_lba(0, 16, 1), None);
    assert_eq!(chs_to_lba(0, 0, 64), None);
}

#[test]
fn int16_key_ax_puts_scancode_high() {
    assert_eq!(Int16Key::new(b'a', 0x1E).ax(), 0x1E61);
}

#[test]
fn machine_attach_and_locate() {
    let ide = IdeDisk { present: true, image: synthetic_int19_freedos_fat12_hd() };
    assert!(locate_freedos_kernel_on_machine(&ide.image).name_found());
}
