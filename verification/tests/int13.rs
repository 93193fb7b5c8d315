use machine_pc::int13::{
    pack_cx, unpack_cx, INT13_AH_CHECK_EXTENSIONS, INT13_AH_EXT_READ, INT13_AH_GET_DRIVE_PARAMS,
    INT13_AH_RESET, INT13_DRIVE_HD0, INT13_EXT_MAGIC_IN, INT13_HD_HEADS, INT13_HD_SPT,
    INT13_SECTOR_SIZE,
};
use machine_pc::int13_disk::{
    int13_hd_read_chs_to_phys, int13_hd_read_lba_to_phys, int13_hd_write_chs_from_phys,
    int13_hd_write_lba_from_phys, service_int13_hd, setup_int13_hd_ext_read,
    setup_int13_hd_ext_write, setup_int13_hd_read, setup_int13_hd_write, IdeDisk, Int13Regs,
    INT13_EXT_CX_PACKET, INT13_EXT_MAGIC_OUT, INT13_EXT_VERSION, INT13_STATUS_INVALID,
    INT13_STATUS_OK, INT13_STATUS_SECTOR_NOT_FOUND, INT13_STATUS_TIMEOUT,
    INT13_STATUS_WRITE_PROTECTED,
};
use machine_pc::int13_floppy::{
    advance_floppy_chs, int13_floppy_read_chs_to_phys, service_int13, service_int13_floppy,
    setup_int13_floppy_read, setup_int13_floppy_write, FloppyMedia,
};
use machine_pc::ivt::install_int13_ivt_pointer;
use machine_pc::mbr::{MBR_PHYS_ADDR, MBR_SIGNATURE_HI, MBR_SIGNATURE_LO};
use machine_pc::mem::PhysMem;

const FDC_1440_IMAGE_SIZE: usize = 1_474_560;

fn synthetic_disk(sectors: usize) -> Vec<u8> {
    let mut img = vec![0u8; sectors * INT13_SECTOR_SIZE];
    img[0] = 0xF4;
    img[510] = MBR_SIGNATURE_LO;
    img[511] = MBR_SIGNATURE_HI;
    if sectors > 1 {
        img[INT13_SECTOR_SIZE] = 0xA5;
        img[INT13_SECTOR_SIZE + 1] = 0x5A;
    }
    img
}

fn with_ide(image: Vec<u8>) -> (PhysMem, IdeDisk) {
    (PhysMem::new(64 * 1024), IdeDisk { present: true, image })
}

fn no_ide() -> IdeDisk {
    IdeDisk { present: false, image: Vec::new() }
}

fn regs() -> Int13Regs {
    Int13Regs { ah: 0, al: 0, bx: 0, cx: 0, dh: 0, dl: 0, si: 0, es_base: 0, ds_base: 0, cf: false }
}

fn synthetic_floppy_boot() -> Vec<u8> {
    let mut img = vec![0u8; FDC_1440_IMAGE_SIZE];
    img[0] = 0xF4;
    img[510] = MBR_SIGNATURE_LO;
    img[511] = MBR_SIGNATURE_HI;
    img[INT13_SECTOR_SIZE] = 0xB2;
    img[INT13_SECTOR_SIZE + 1] = 0x2B;
    img
}

fn floppy(image: Vec<u8>) -> FloppyMedia {
    FloppyMedia { attached: true, image, write_protected: false }
}

#[test]
fn int13_ah02_reads_lba0_into_es_bx() {
    let (mut mem, mut ide) = with_ide(synthetic_disk(4));
    let mut r = regs();
    setup_int13_hd_read(&mut r, 0, 0, 1, 1, 0x0000, 0x7C00);
    service_int13_hd(&mut mem, &mut ide, &mut r);
    assert!(!r.cf, "CF clear on success");
    assert_eq!(r.ah, INT13_STATUS_OK);
    assert_eq!(r.al, 1);
    assert_eq!(mem.read_u8(MBR_PHYS_ADDR).unwrap(), 0xF4);
    assert_eq!(mem.read_u8(MBR_PHYS_ADDR + 510).unwrap(), 0x55);
    assert_eq!(mem.read_u8(MBR_PHYS_ADDR + 511).unwrap(), 0xAA);
}

#[test]
fn int13_ah02_reads_two_sectors() {
    let (mut mem, mut ide) = with_ide(synthetic_disk(4));
    let mut r = regs();
    setup_int13_hd_read(&mut r, 0, 0, 1, 2, 0x0000, 0x8000);
    service_int13_hd(&mut mem, &mut ide, &mut r);
    assert!(!r.cf);
    assert_eq!(r.al, 2);
    assert_eq!(mem.read_u8(0x8000).unwrap(), 0xF4);
    assert_eq!(mem.read_u8(0x8200).unwrap(), 0xA5);
    assert_eq!(mem.read_u8(0x8201).unwrap(), 0x5A);
}

#[test]
fn int13_ah02_rejects_sector_zero_and_oob_lba() {
    let (mut mem, mut ide) = with_ide(synthetic_disk(4));
    let mut r = regs();
    setup_int13_hd_read(&mut r, 0, 0, 0, 1, 0x0000, 0x7C00);
    r.cx = pack_cx(0, 0);
    service_int13_hd(&mut mem, &mut ide, &mut r);
    assert!(r.cf);
    assert_eq!(r.ah, INT13_STATUS_INVALID);
    assert_eq!(
        int13_hd_read_chs_to_phys(&mut mem, &ide, 0, 0, 64, 1, 0x7C00),
        Err(INT13_STATUS_SECTOR_NOT_FOUND)
    );
    assert_eq!(
        int13_hd_read_chs_to_phys(&mut mem, &ide, 0, 0, 1, 8, 0x7C00),
        Err(INT13_STATUS_SECTOR_NOT_FOUND)
    );
}

#[test]
fn int13_ah02_no_media_sets_timeout() {
    let mut mem = PhysMem::new(64 * 1024);
    let mut ide = no_ide();
    let mut r = regs();
    setup_int13_hd_read(&mut r, 0, 0, 1, 1, 0x0000, 0x7C00);
    service_int13_hd(&mut mem, &mut ide, &mut r);
    assert!(r.cf);
    assert_eq!(r.ah, INT13_STATUS_TIMEOUT);
}

#[test]
fn int13_rejects_floppy_drive_number() {
    let (mut mem, mut ide) = with_ide(synthetic_disk(2));
    let mut r = regs();
    setup_int13_hd_read(&mut r, 0, 0, 1, 1, 0x0000, 0x7C00);
    r.dl = 0x00;
    service_int13_hd(&mut mem, &mut ide, &mut r);
    assert!(r.cf);
    assert_eq!(r.ah, INT13_STATUS_INVALID);
}

#[test]
fn int13_ah00_reset_ok() {
    let (mut mem, mut ide) = with_ide(synthetic_disk(1));
    let mut r = regs();
    r.ah = INT13_AH_RESET;
    r.dl = INT13_DRIVE_HD0;
    service_int13_hd(&mut mem, &mut ide, &mut r);
    assert!(!r.cf);
    assert_eq!(r.ah, INT13_STATUS_OK);
}

#[test]
fn int13_ah08_returns_geometry() {
    let (mut mem, mut ide) = with_ide(synthetic_disk(16 * 63 * 2));
    let mut r = regs();
    r.ah = INT13_AH_GET_DRIVE_PARAMS;
    r.dl = INT13_DRIVE_HD0;
    service_int13_hd(&mut mem, &mut ide, &mut r);
    assert!(!r.cf);
    let (cyl, sec) = unpack_cx(r.cx);
    assert_eq!(sec, INT13_HD_SPT as u8);
    assert!(cyl >= 1);
    assert_eq!(r.dh, (INT13_HD_HEADS - 1) as u8);
    assert_eq!(r.dl, 1);
}

#[test]
fn int13_ah08_max_cylinder_exact() {
    // Two full cylinders: the highest cylinder is 1.
    let (mut mem, mut ide) = with_ide(synthetic_disk(16 * 63 * 2));
    let mut r = regs();
    r.ah = INT13_AH_GET_DRIVE_PARAMS;
    r.dl = INT13_DRIVE_HD0;
    service_int13_hd(&mut mem, &mut ide, &mut r);
    assert_eq!(unpack_cx(r.cx), (1, 63));
    assert_eq!(r.ah, INT13_STATUS_OK);
}

#[test]
fn int13_unsupported_ah_fails() {
    let (mut mem, mut ide) = with_ide(synthetic_disk(1));
    let mut r = regs();
    r.ah = 0x05;
    r.dl = INT13_DRIVE_HD0;
    service_int13_hd(&mut mem, &mut ide, &mut r);
    assert!(r.cf);
    assert_eq!(r.ah, INT13_STATUS_INVALID);
}

#[test]
fn int13_ah03_writes_lba0_from_es_bx() {
    let (mut mem, mut ide) = with_ide(synthetic_disk(4));
    for i in 0..INT13_SECTOR_SIZE {
        mem.write_u8(0x9000 + i as u64, 0x5A).unwrap();
    }
    mem.write_u8(0x9000, 0xE9).unwrap();
    mem.write_u8(0x9000 + 510, MBR_SIGNATURE_LO).unwrap();
    mem.write_u8(0x9000 + 511, MBR_SIGNATURE_HI).unwrap();
    let mut r = regs();
    setup_int13_hd_write(&mut r, 0, 0, 1, 1, 0x0000, 0x9000);
    service_int13_hd(&mut mem, &mut ide, &mut r);
    assert!(!r.cf, "CF clear on success");
    assert_eq!(r.ah, INT13_STATUS_OK);
    assert_eq!(r.al, 1);
    assert_eq!(ide.image[0], 0xE9);
    assert_eq!(ide.image[1], 0x5A);
    assert_eq!(ide.image[510], MBR_SIGNATURE_LO);
    assert_eq!(ide.image[511], MBR_SIGNATURE_HI);
}

#[test]
fn int13_ah03_writes_two_sectors() {
    let (mut mem, mut ide) = with_ide(synthetic_disk(4));
    for i in 0..(2 * INT13_SECTOR_SIZE) {
        mem.write_u8(0xA000 + i as u64, 0x11).unwrap();
    }
    mem.write_u8(0xA000, 0xAA).unwrap();
    mem.write_u8(0xA000 + INT13_SECTOR_SIZE as u64, 0xBB).unwrap();
    let mut r = regs();
    setup_int13_hd_write(&mut r, 0, 0, 1, 2, 0x0000, 0xA000);
    service_int13_hd(&mut mem, &mut ide, &mut r);
    assert!(!r.cf);
    assert_eq!(r.al, 2);
    assert_eq!(ide.image[0], 0xAA);
    assert_eq!(ide.image[INT13_SECTOR_SIZE], 0xBB);
}

#[test]
fn int13_ah03_then_ah02_round_trip() {
    let (mut mem, mut ide) = with_ide(synthetic_disk(4));
    for i in 0..INT13_SECTOR_SIZE {
        mem.write_u8(0xB000 + i as u64, (i & 0xFF) as u8).unwrap();
    }
    let mut r = regs();
    setup_int13_hd_write(&mut r, 0, 0, 2, 1, 0x0000, 0xB000);
    service_int13_hd(&mut mem, &mut ide, &mut r);
    assert!(!r.cf);
    setup_int13_hd_read(&mut r, 0, 0, 2, 1, 0x0000, 0xC000);
    service_int13_hd(&mut mem, &mut ide, &mut r);
    assert!(!r.cf);
    for i in 0..INT13_SECTOR_SIZE {
        assert_eq!(mem.read_u8(0xC000 + i as u64).unwrap(), (i & 0xFF) as u8);
    }
}

#[test]
fn int13_ah03_rejects_oob_and_no_media() {
    let (mem, mut ide) = with_ide(synthetic_disk(2));
    assert_eq!(
        int13_hd_write_chs_from_phys(&mem, &mut ide, 0, 0, 1, 8, 0x7000),
        Err(INT13_STATUS_SECTOR_NOT_FOUND)
    );
    let mut bare_mem = PhysMem::new(64 * 1024);
    let mut bare = no_ide();
    let mut r = regs();
    setup_int13_hd_write(&mut r, 0, 0, 1, 1, 0x0000, 0x7000);
    service_int13_hd(&mut bare_mem, &mut bare, &mut r);
    assert!(r.cf);
    assert_eq!(r.ah, INT13_STATUS_TIMEOUT);
}

#[test]
fn int13_ivt_pointer_install() {
    let mut mem = PhysMem::new(64 * 1024);
    install_int13_ivt_pointer(&mut mem, 0xF000, 0xE000);
    assert_eq!(mem.read_u8(0x4C).unwrap(), 0x00);
    assert_eq!(mem.read_u8(0x4D).unwrap(), 0xE0);
    assert_eq!(mem.read_u8(0x4E).unwrap(), 0x00);
    assert_eq!(mem.read_u8(0x4F).unwrap(), 0xF0);
}

#[test]
fn int13_ah41_reports_extensions() {
    let (mut mem, mut ide) = with_ide(synthetic_disk(2));
    let mut r = regs();
    r.ah = INT13_AH_CHECK_EXTENSIONS;
    r.bx = INT13_EXT_MAGIC_IN;
    r.dl = INT13_DRIVE_HD0;
    service_int13_hd(&mut mem, &mut ide, &mut r);
    assert!(!r.cf);
    assert_eq!(r.ah, INT13_EXT_VERSION);
    assert_eq!(r.bx, INT13_EXT_MAGIC_OUT);
    assert_eq!(r.cx & INT13_EXT_CX_PACKET, INT13_EXT_CX_PACKET);
}

#[test]
fn int13_ah41_rejects_bad_magic() {
    let (mut mem, mut ide) = with_ide(synthetic_disk(1));
    let mut r = regs();
    r.ah = INT13_AH_CHECK_EXTENSIONS;
    r.bx = 0x1234;
    r.dl = INT13_DRIVE_HD0;
    service_int13_hd(&mut mem, &mut ide, &mut r);
    assert!(r.cf);
    assert_eq!(r.ah, INT13_STATUS_INVALID);
}

#[test]
fn int13_ah42_ext_read_lba0() {
    let (mut mem, mut ide) = with_ide(synthetic_disk(4));
    let mut r = regs();
    setup_int13_hd_ext_read(&mut mem, &mut r, 0x5000, 0, 1, 0x0000, 0x7C00);
    service_int13_hd(&mut mem, &mut ide, &mut r);
    assert!(!r.cf);
    assert_eq!(r.ah, INT13_STATUS_OK);
    assert_eq!(mem.read_u8(MBR_PHYS_ADDR).unwrap(), 0xF4);
    assert_eq!(mem.read_u8(MBR_PHYS_ADDR + 510).unwrap(), 0x55);
}

#[test]
fn int13_ah42_ext_read_two_blocks() {
    let (mut mem, mut ide) = with_ide(synthetic_disk(4));
    let mut r = regs();
    setup_int13_hd_ext_read(&mut mem, &mut r, 0x5100, 0, 2, 0x0000, 0x8000);
    service_int13_hd(&mut mem, &mut ide, &mut r);
    assert!(!r.cf);
    assert_eq!(mem.read_u8(0x8000).unwrap(), 0xF4);
    assert_eq!(mem.read_u8(0x8200).unwrap(), 0xA5);
}

#[test]
fn int13_ah42_rejects_oob_and_short_dap() {
    let (mut mem, mut ide) = with_ide(synthetic_disk(2));
    let mut r = regs();
    setup_int13_hd_ext_read(&mut mem, &mut r, 0x5200, 8, 1, 0x0000, 0x7000);
    service_int13_hd(&mut mem, &mut ide, &mut r);
    assert!(r.cf);
    assert_eq!(r.ah, INT13_STATUS_SECTOR_NOT_FOUND);

    mem.write_u8(0x5300, 0x08).unwrap();
    r.ah = INT13_AH_EXT_READ;
    r.dl = INT13_DRIVE_HD0;
    r.si = 0x5300;
    r.ds_base = 0;
    service_int13_hd(&mut mem, &mut ide, &mut r);
    assert!(r.cf);
    assert_eq!(r.ah, INT13_STATUS_INVALID);
}

#[test]
fn int13_ah42_rejects_flat_buffer_pointer() {
    let (mut mem, mut ide) = with_ide(synthetic_disk(2));
    let mut r = regs();
    setup_int13_hd_ext_read(&mut mem, &mut r, 0x5200, 0, 1, 0xFFFF, 0xFFFF);
    service_int13_hd(&mut mem, &mut ide, &mut r);
    assert!(r.cf);
    assert_eq!(r.ah, INT13_STATUS_INVALID);
}

#[test]
fn int13_ah43_ext_write_lba0() {
    let (mut mem, mut ide) = with_ide(synthetic_disk(2));
    for i in 0..INT13_SECTOR_SIZE {
        mem.write_u8(0x9000 + i as u64, 0x5A).unwrap();
    }
    let mut r = regs();
    setup_int13_hd_ext_write(&mut mem, &mut r, 0x5400, 0, 1, 0x0000, 0x9000);
    service_int13_hd(&mut mem, &mut ide, &mut r);
    assert!(!r.cf);
    assert_eq!(r.ah, INT13_STATUS_OK);
    assert!(ide.image[..INT13_SECTOR_SIZE].iter().all(|&b| b == 0x5A));
}

#[test]
fn int13_ah43_then_ah42_round_trip() {
    let (mut mem, mut ide) = with_ide(synthetic_disk(4));
    for i in 0..INT13_SECTOR_SIZE {
        mem.write_u8(0xA000 + i as u64, (i & 0xFF) as u8).unwrap();
    }
    let mut r = regs();
    setup_int13_hd_ext_write(&mut mem, &mut r, 0x5500, 1, 1, 0x0000, 0xA000);
    service_int13_hd(&mut mem, &mut ide, &mut r);
    assert!(!r.cf);
    setup_int13_hd_ext_read(&mut mem, &mut r, 0x5600, 1, 1, 0x0000, 0xB000);
    service_int13_hd(&mut mem, &mut ide, &mut r);
    assert!(!r.cf);
    for i in 0..INT13_SECTOR_SIZE {
        assert_eq!(mem.read_u8(0xB000 + i as u64).unwrap(), (i & 0xFF) as u8);
    }
}

#[test]
fn int13_ah43_ext_write_multi() {
    let (mut mem, mut ide) = with_ide(synthetic_disk(4));
    for i in 0..(2 * INT13_SECTOR_SIZE) {
        mem.write_u8(0xC000 + i as u64, 0xE7).unwrap();
    }
    let mut r = regs();
    setup_int13_hd_ext_write(&mut mem, &mut r, 0x5700, 0, 2, 0x0000, 0xC000);
    service_int13_hd(&mut mem, &mut ide, &mut r);
    assert!(!r.cf);
    assert!(ide.image[..2 * INT13_SECTOR_SIZE].iter().all(|&b| b == 0xE7));
}

#[test]
fn int13_ah43_ext_write_errors() {
    let (mut mem, mut ide) = with_ide(synthetic_disk(2));
    let mut r = regs();
    setup_int13_hd_ext_write(&mut mem, &mut r, 0x5800, 8, 1, 0x0000, 0x7000);
    service_int13_hd(&mut mem, &mut ide, &mut r);
    assert!(r.cf);
    assert_eq!(r.ah, INT13_STATUS_SECTOR_NOT_FOUND);

    let mut bare_mem = PhysMem::new(64 * 1024);
    let mut bare = no_ide();
    let mut r2 = regs();
    setup_int13_hd_ext_write(&mut bare_mem, &mut r2, 0x5900, 0, 1, 0x0000, 0x7000);
    service_int13_hd(&mut bare_mem, &mut bare, &mut r2);
    assert!(r2.cf);
    assert_eq!(r2.ah, INT13_STATUS_TIMEOUT);
}

#[test]
fn int13_lba_helpers_round_trip_and_bounds() {
    let (mut mem, mut ide) = with_ide(synthetic_disk(4));
    for i in 0..INT13_SECTOR_SIZE {
        mem.write_u8(0x6000 + i as u64, 0x77).unwrap();
    }
    assert_eq!(int13_hd_write_lba_from_phys(&mem, &mut ide, 3, 1, 0x6000), Ok(1));
    assert_eq!(int13_hd_read_lba_to_phys(&mut mem, &ide, 3, 1, 0x7000), Ok(1));
    assert_eq!(mem.read_u8(0x7000).unwrap(), 0x77);
    assert_eq!(mem.read_u8(0x71FF).unwrap(), 0x77);
    assert_eq!(int13_hd_read_lba_to_phys(&mut mem, &ide, 3, 2, 0x7000), Err(INT13_STATUS_SECTOR_NOT_FOUND));
    assert_eq!(int13_hd_read_lba_to_phys(&mut mem, &ide, 0, 0, 0x7000), Err(INT13_STATUS_INVALID));
    // Buffer running past the end of RAM.
    assert_eq!(int13_hd_read_lba_to_phys(&mut mem, &ide, 0, 1, 0xFF00), Err(INT13_STATUS_INVALID));
}

#[test]
fn int13_floppy_ah02_reads_boot_sector() {
    let mut mem = PhysMem::new(64 * 1024);
    let mut fd = floppy(synthetic_floppy_boot());
    let mut r = regs();
    setup_int13_floppy_read(&mut r, 0, 0, 1, 1, 0x0000, 0x7C00);
    service_int13_floppy(&mut mem, &mut fd, &mut r);
    assert!(!r.cf);
    assert_eq!(r.ah, INT13_STATUS_OK);
    assert_eq!(r.al, 1);
    assert_eq!(mem.read_u8(MBR_PHYS_ADDR).unwrap(), 0xF4);
    assert_eq!(mem.read_u8(MBR_PHYS_ADDR + 510).unwrap(), 0x55);
}

#[test]
fn int13_floppy_ah02_reads_two_sectors() {
    let mut mem = PhysMem::new(64 * 1024);
    let mut fd = floppy(synthetic_floppy_boot());
    let mut r = regs();
    setup_int13_floppy_read(&mut r, 0, 0, 1, 2, 0x0000, 0x8000);
    service_int13_floppy(&mut mem, &mut fd, &mut r);
    assert!(!r.cf);
    assert_eq!(mem.read_u8(0x8000).unwrap(), 0xF4);
    assert_eq!(mem.read_u8(0x8000 + INT13_SECTOR_SIZE as u64).unwrap(), 0xB2);
    assert_eq!(mem.read_u8(0x8000 + INT13_SECTOR_SIZE as u64 + 1).unwrap(), 0x2B);
}

#[test]
fn int13_floppy_ah03_writes_sector() {
    let mut mem = PhysMem::new(64 * 1024);
    let mut fd = floppy(synthetic_floppy_boot());
    for i in 0..INT13_SECTOR_SIZE {
        mem.write_u8(0x9000 + i as u64, 0x3C).unwrap();
    }
    let mut r = regs();
    setup_int13_floppy_write(&mut r, 0, 0, 1, 1, 0x0000, 0x9000);
    service_int13_floppy(&mut mem, &mut fd, &mut r);
    assert!(!r.cf);
    assert!(fd.image[..INT13_SECTOR_SIZE].iter().all(|&b| b == 0x3C));
}

#[test]
fn int13_floppy_write_read_and_wp() {
    let mut mem = PhysMem::new(64 * 1024);
    let mut ide = no_ide();
    let mut fd = floppy(synthetic_floppy_boot());
    for i in 0..INT13_SECTOR_SIZE {
        mem.write_u8(0xA000 + i as u64, (i & 0xFF) as u8).unwrap();
    }
    let mut r = regs();
    setup_int13_floppy_write(&mut r, 0, 0, 2, 1, 0x0000, 0xA000);
    service_int13(&mut mem, &mut ide, &mut fd, &mut r);
    assert!(!r.cf);
    setup_int13_floppy_read(&mut r, 0, 0, 2, 1, 0x0000, 0xB000);
    service_int13(&mut mem, &mut ide, &mut fd, &mut r);
    assert!(!r.cf);
    for i in 0..INT13_SECTOR_SIZE {
        assert_eq!(mem.read_u8(0xB000 + i as u64).unwrap(), (i & 0xFF) as u8);
    }

    fd.write_protected = true;
    setup_int13_floppy_write(&mut r, 0, 0, 1, 1, 0x0000, 0xA000);
    service_int13_floppy(&mut mem, &mut fd, &mut r);
    assert!(r.cf);
    assert_eq!(r.ah, INT13_STATUS_WRITE_PROTECTED);
}

#[test]
fn int13_floppy_errors() {
    let mut bare_mem = PhysMem::new(64 * 1024);
    let mut bare = FloppyMedia { attached: false, image: Vec::new(), write_protected: false };
    let mut r = regs();
    setup_int13_floppy_read(&mut r, 0, 0, 1, 1, 0x0000, 0x7C00);
    service_int13_floppy(&mut bare_mem, &mut bare, &mut r);
    assert!(r.cf);
    assert_eq!(r.ah, INT13_STATUS_TIMEOUT);

    let mut mem = PhysMem::new(64 * 1024);
    let mut fd = floppy(synthetic_floppy_boot());
    let mut r2 = regs();
    setup_int13_floppy_read(&mut r2, 0, 0, 1, 1, 0x0000, 0x7C00);
    r2.dl = INT13_DRIVE_HD0;
    service_int13_floppy(&mut mem, &mut fd, &mut r2);
    assert!(r2.cf);
    assert_eq!(r2.ah, INT13_STATUS_INVALID);
}

#[test]
fn int13_floppy_stops_at_end_of_media() {
    let mut mem = PhysMem::new(64 * 1024);
    // Two sectors of media: a three-sector read moves two, then fails.
    let mut img = vec![0x11u8; 2 * INT13_SECTOR_SIZE];
    img[INT13_SECTOR_SIZE] = 0x22;
    let mut fd = floppy(img);
    assert_eq!(
        int13_floppy_read_chs_to_phys(&mut mem, &mut fd, 0, 0, 1, 3, 0x8000),
        Err(INT13_STATUS_SECTOR_NOT_FOUND)
    );
    assert_eq!(mem.read_u8(0x8000).unwrap(), 0x11);
    assert_eq!(mem.read_u8(0x8200).unwrap(), 0x22);
    assert_eq!(mem.read_u8(0x8400).unwrap(), 0x00);
}

#[test]
fn int13_floppy_chs_advance() {
    assert_eq!(advance_floppy_chs(0, 0, 1), Some((0, 0, 2)));
    assert_eq!(advance_floppy_chs(0, 0, 18), Some((0, 1, 1)));
    assert_eq!(advance_floppy_chs(0, 1, 18), Some((1, 0, 1)));
    assert_eq!(advance_floppy_chs(79, 1, 18), None);
    assert_eq!(advance_floppy_chs(0, 0, 255), None);
}

#[test]
fn int13_service_routes_unknown_drive() {
    let mut mem = PhysMem::new(64 * 1024);
    let mut ide = no_ide();
    let mut fd = floppy(synthetic_floppy_boot());
    let mut r = regs();
    setup_int13_floppy_read(&mut r, 0, 0, 1, 1, 0x0000, 0x7C00);
    r.dl = 0x81;
    service_int13(&mut mem, &mut ide, &mut fd, &mut r);
    assert!(r.cf);
    assert_eq!(r.ah, INT13_STATUS_INVALID);
    assert_eq!(mem.read_u8(MBR_PHYS_ADDR).unwrap(), 0x00);
}

#[test]
fn int13_read_matches_mbr_lba0() {
    let img = synthetic_disk(2);
    let (mut mem, ide) = with_ide(img.clone());
    int13_hd_read_chs_to_phys(&mut mem, &ide, 0, 0, 1, 1, MBR_PHYS_ADDR).expect("read");
    let (mut mem2, ide2) = with_ide(img);
    let no_fd = FloppyMedia { attached: false, image: Vec::new(), write_protected: false };
    machine_pc::boot_load::load_mbr_to_7c00(&mut mem2, &ide2, &no_fd).unwrap();
    for i in 0..512u64 {
        assert_eq!(mem.read_u8(MBR_PHYS_ADDR + i).unwrap(), mem2.read_u8(MBR_PHYS_ADDR + i).unwrap());
    }
}
