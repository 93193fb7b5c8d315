use machine_pc::guest_boot::GuestFirstFailureClass;
use machine_pc::guest_images::{
    synthetic_eltorito_bzimage_iso, synthetic_eltorito_linux_hlt_iso,
    synthetic_linux_bzimage_setup_hlt,
};
use machine_pc::boot_load::MachineError;
use machine_pc::guest_load::{
    arm_bzimage_realmode_entry, load_bzimage_realmode_setup, prepare_bzimage_setup_entry,
    BzImageLoadError,
};
use machine_pc::int13_disk::IdeDisk;
use machine_pc::linux_boot::{
    classify_bzimage_early, classify_bzimage_setup_deeper, inspect_linux_boot_protocol_header,
    linux_realmode_bytes, linux_setup_sect_count, synthetic_linux_boot_protocol_header,
    BzImageEarlyClass, BzImageNextStep, LinuxBootProtocolError, LINUX_BOOT_FLAG_AA55,
    LINUX_BOOT_HEADER_MAGIC, LINUX_REALMODE_LOAD_ADDR,
};
use machine_pc::linux_media::{
    classify_eltorito_boot_payload, classify_eltorito_media_boot, classify_linux_media_boot,
    classify_linux_next_gap, ElToritoMediaBootClass, ElToritoPayloadClass, LinuxMediaBootClass,
    LinuxNextGap,
};
use machine_pc::mem::PhysMem;

#[test]
fn inspect_linux_boot_protocol_header_accepts_synthetic() {
    let buf = synthetic_linux_boot_protocol_header(4, 0x020F, 0x01, 0x0010_0000);
    let hdr = inspect_linux_boot_protocol_header(&buf).expect("header");
    assert_eq!(hdr.setup_sects, 4);
    assert_eq!(hdr.boot_flag, LINUX_BOOT_FLAG_AA55);
    assert_eq!(hdr.header_magic, LINUX_BOOT_HEADER_MAGIC);
    assert_eq!(hdr.version, 0x020F);
    assert!(hdr.loaded_high());
    assert_eq!(hdr.code32_start, Some(0x0010_0000));
}

#[test]
fn inspect_linux_boot_protocol_header_rejects_bad() {
    assert_eq!(
        inspect_linux_boot_protocol_header(&[0u8; 16]),
        Err(LinuxBootProtocolError::Truncated)
    );
    let mut bad_flag = synthetic_linux_boot_protocol_header(1, 0x0200, 0, 0);
    bad_flag[0x1FE] = 0;
    assert_eq!(
        inspect_linux_boot_protocol_header(&bad_flag),
        Err(LinuxBootProtocolError::BadBootFlag)
    );
    let mut bad_magic = synthetic_linux_boot_protocol_header(1, 0x0200, 0, 0);
    bad_magic[0x202] = b'X';
    assert_eq!(
        inspect_linux_boot_protocol_header(&bad_magic),
        Err(LinuxBootProtocolError::BadMagic)
    );
}

#[test]
fn inspect_without_code32_field_reports_none() {
    let buf = synthetic_linux_boot_protocol_header(2, 0x0200, 0, 0x1234_5678);
    let hdr = inspect_linux_boot_protocol_header(&buf[..0x212]).expect("header");
    assert_eq!(hdr.code32_start, None);
    assert!(!hdr.loaded_high());
    let full = inspect_linux_boot_protocol_header(&buf).expect("header");
    assert_eq!(full.code32_start, Some(0x1234_5678));
}

#[test]
fn classify_bzimage_early_loaded_high() {
    let need = linux_realmode_bytes(4);
    let mut buf = synthetic_linux_boot_protocol_header(4, 0x020F, 0x01, 0x0010_0000);
    buf.resize(need, 0x90);
    buf[0x200] = 0xAB;
    let class = classify_bzimage_early(&buf);
    match class {
        BzImageEarlyClass::SetupLoadable {
            setup_sects,
            loaded_high,
            next,
            ..
        } => {
            assert_eq!(setup_sects, 4);
            assert!(loaded_high);
            assert_eq!(
                next,
                BzImageNextStep::LoadHighProtectedKernel {
                    code32_start: 0x0010_0000
                }
            );
        }
        other => panic!("unexpected {other:?}"),
    }
}

#[test]
fn classify_bzimage_early_incomplete_setup() {
    let buf = synthetic_linux_boot_protocol_header(4, 0x0200, 0, 0);
    assert!(buf.len() < linux_realmode_bytes(4));
    match classify_bzimage_early(&buf) {
        BzImageEarlyClass::IncompleteSetup {
            setup_sects,
            have,
            need,
        } => {
            assert_eq!(setup_sects, 4);
            assert_eq!(have, buf.len());
            assert_eq!(need, linux_realmode_bytes(4));
        }
        other => panic!("unexpected {other:?}"),
    }
}

#[test]
fn classify_bzimage_early_old_protocol_and_real_mode_setup() {
    let mut old = synthetic_linux_boot_protocol_header(1, 0x0105, 0, 0);
    old.resize(linux_realmode_bytes(1), 0);
    match classify_bzimage_early(&old) {
        BzImageEarlyClass::SetupLoadable { next, .. } => {
            assert_eq!(next, BzImageNextStep::UnsupportedOldProtocol { version: 0x0105 });
            assert_eq!(next.tag(), "unsupported-old-protocol");
        }
        other => panic!("unexpected {other:?}"),
    }
    let setup = synthetic_linux_bzimage_setup_hlt();
    assert_eq!(
        classify_bzimage_early(&setup),
        BzImageEarlyClass::SetupLoadable {
            setup_sects: 1,
            version: 0x0200,
            loaded_high: false,
            code32_start: Some(0),
            next: BzImageNextStep::RunRealModeSetup,
        }
    );
    assert_eq!(
        classify_bzimage_early(&[0u8; 8]),
        BzImageEarlyClass::BadHeader(LinuxBootProtocolError::Truncated)
    );
}

#[test]
fn setup_sector_count_zero_means_four() {
    assert_eq!(linux_setup_sect_count(0), 4);
    assert_eq!(linux_setup_sect_count(7), 7);
    assert_eq!(linux_realmode_bytes(0), 5 * 512);
    assert_eq!(linux_realmode_bytes(1), 1024);
}

#[test]
fn classify_bzimage_setup_deeper_need_cmdline_and_init_size() {
    let need = linux_realmode_bytes(1);
    let mut no_cmd = synthetic_linux_boot_protocol_header(1, 0x0202, 0, 0);
    no_cmd.resize(need.max(0x22C), 0);
    match classify_bzimage_setup_deeper(&no_cmd) {
        BzImageEarlyClass::SetupLoadable { next, .. } => {
            assert_eq!(next, BzImageNextStep::NeedCmdlinePtr);
        }
        other => panic!("unexpected {other:?}"),
    }

    let mut high = synthetic_linux_boot_protocol_header(1, 0x020A, 0x01, 0x0010_0000);
    high.resize(need.max(0x264), 0);
    match classify_bzimage_setup_deeper(&high) {
        BzImageEarlyClass::SetupLoadable { next, .. } => {
            assert_eq!(next, BzImageNextStep::NeedInitSize);
        }
        other => panic!("unexpected {other:?}"),
    }

    high[0x260..0x264].copy_from_slice(&0x0010_0000u32.to_le_bytes());
    match classify_bzimage_setup_deeper(&high) {
        BzImageEarlyClass::SetupLoadable { next, .. } => {
            assert_eq!(
                next,
                BzImageNextStep::LoadHighProtectedKernel {
                    code32_start: 0x0010_0000
                }
            );
        }
        other => panic!("unexpected {other:?}"),
    }
}

#[test]
fn deeper_classify_keeps_a_set_cmdline_pointer() {
    let mut with_cmd = synthetic_linux_boot_protocol_header(1, 0x0202, 0, 0);
    with_cmd.resize(0x400, 0);
    with_cmd[0x228..0x22C].copy_from_slice(&0x0002_0000u32.to_le_bytes());
    match classify_bzimage_setup_deeper(&with_cmd) {
        BzImageEarlyClass::SetupLoadable { next, .. } => {
            assert_eq!(next, BzImageNextStep::RunRealModeSetup);
        }
        other => panic!("unexpected {other:?}"),
    }
}

#[test]
fn classify_linux_next_gap_setup_loaded_missing_entry() {
    let need = linux_realmode_bytes(1);
    let mut bz = synthetic_linux_boot_protocol_header(1, 0x0200, 0, 0);
    bz.resize(need, 0);
    let media = LinuxMediaBootClass::BzImage(classify_bzimage_early(&bz));
    let gap = classify_linux_next_gap(&GuestFirstFailureClass::SyntheticHalt, &media, false);
    assert_eq!(gap, LinuxNextGap::SetupLoadedMissingEntry);
}

#[test]
fn linux_next_gap_covers_each_class() {
    let halt = GuestFirstFailureClass::SyntheticHalt;
    let none = LinuxMediaBootClass::NoMedia;
    assert_eq!(
        classify_linux_next_gap(&GuestFirstFailureClass::StepBudget, &none, true),
        LinuxNextGap::SeeFirstFailure
    );
    assert_eq!(
        classify_linux_next_gap(&halt, &none, true),
        LinuxNextGap::SetupExecutedMissingProtectedKernel
    );
    assert_eq!(
        classify_linux_next_gap(&halt, &none, false),
        LinuxNextGap::RealKernelAndFirmware
    );
    let iso = synthetic_eltorito_linux_hlt_iso();
    let cd = classify_linux_media_boot(Some(&iso), None);
    assert!(cd.is_boot_candidate());
    assert_eq!(
        classify_linux_next_gap(&halt, &cd, false),
        LinuxNextGap::SyntheticMediaHalt
    );
    assert_eq!(LinuxNextGap::SyntheticMediaHalt.tag(), "synthetic-media-halt");
}

#[test]
fn classify_eltorito_media_boot_no_emul_candidate() {
    assert_eq!(classify_eltorito_media_boot(None), ElToritoMediaBootClass::NoMedium);
    let iso = synthetic_eltorito_linux_hlt_iso();
    match classify_eltorito_media_boot(Some(&iso)) {
        ElToritoMediaBootClass::NoEmulCandidate {
            load_rba,
            sector_count,
            load_segment,
        } => {
            assert_eq!(load_rba, 24);
            assert_eq!(sector_count, 4);
            assert_eq!(load_segment, 0x07C0);
        }
        other => panic!("unexpected {other:?}"),
    }
    assert_eq!(
        classify_eltorito_media_boot(Some(&[0u8; 4096])),
        ElToritoMediaBootClass::CatalogError("ISO image truncated for El Torito parse".to_string())
    );
}

#[test]
fn classify_eltorito_boot_payload_hlt_vs_bzimage() {
    let iso = synthetic_eltorito_bzimage_iso();
    let boot = &iso[24 * 2048..24 * 2048 + 2048];
    let raw = classify_bzimage_setup_deeper(boot);
    assert!(matches!(raw, BzImageEarlyClass::SetupLoadable { .. }));

    assert!(matches!(
        classify_eltorito_boot_payload(None),
        ElToritoPayloadClass::Media(ElToritoMediaBootClass::NoMedium)
    ));
    let hlt = synthetic_eltorito_linux_hlt_iso();
    match classify_eltorito_boot_payload(Some(&hlt)) {
        ElToritoPayloadClass::NoEmulHltStub { .. } => {}
        other => panic!("expected hlt stub, got {other:?}"),
    }
    assert!(!classify_eltorito_boot_payload(Some(&hlt)).is_bzimage_candidate());

    match classify_eltorito_boot_payload(Some(&iso)) {
        ElToritoPayloadClass::NoEmulBzImage { bzimage, .. } => {
            assert!(matches!(bzimage, BzImageEarlyClass::SetupLoadable { .. }));
        }
        other => panic!("expected bzImage payload, got {other:?}"),
    }
    assert!(classify_eltorito_boot_payload(Some(&iso)).is_bzimage_candidate());
}

#[test]
fn eltorito_payload_past_image_end_is_a_catalog_error() {
    let iso = synthetic_eltorito_linux_hlt_iso();
    let cut = &iso[..24 * 2048 + 100];
    assert_eq!(
        classify_eltorito_boot_payload(Some(cut)),
        ElToritoPayloadClass::Media(ElToritoMediaBootClass::CatalogError(
            "boot image truncated".to_string()
        ))
    );
}

#[test]
fn classify_linux_media_boot_eltorito_and_bzimage() {
    assert_eq!(classify_linux_media_boot(None, None), LinuxMediaBootClass::NoMedia);
    let iso = synthetic_eltorito_linux_hlt_iso();
    let setup = synthetic_linux_bzimage_setup_hlt();
    match classify_linux_media_boot(Some(&iso), Some(&setup)) {
        LinuxMediaBootClass::ElToritoPlusBzImage { eltorito, bzimage } => {
            assert!(eltorito.is_boot_candidate());
            assert!(matches!(bzimage, BzImageEarlyClass::SetupLoadable { .. }));
        }
        other => panic!("unexpected {other:?}"),
    }
    let bz_only = classify_linux_media_boot(None, Some(&setup));
    assert_eq!(bz_only.tag(), "bzimage");
    assert!(bz_only.is_boot_candidate());
}

#[test]
fn load_bzimage_realmode_setup_to_90000() {
    let image = synthetic_linux_bzimage_setup_hlt();
    let mut mem = PhysMem::new(0x9_0000 + 4096);
    let class = load_bzimage_realmode_setup(&mut mem, &image, LINUX_REALMODE_LOAD_ADDR)
        .expect("load");
    assert_eq!(class.tag(), "setup-loadable");
    for (i, b) in image.iter().enumerate() {
        assert_eq!(mem.read_u8(LINUX_REALMODE_LOAD_ADDR + i as u64).unwrap(), *b);
    }
    let mut small = PhysMem::new(0x9_0000);
    assert_eq!(
        load_bzimage_realmode_setup(&mut small, &image, LINUX_REALMODE_LOAD_ADDR),
        Err(BzImageLoadError::RamTooSmall)
    );
    assert_eq!(
        load_bzimage_realmode_setup(&mut small, &image[..0x300], 0),
        Err(BzImageLoadError::IncompleteSetup { have: 0x300, need: 1024 })
    );
    assert_eq!(
        load_bzimage_realmode_setup(&mut small, &[0u8; 4], 0),
        Err(BzImageLoadError::Classify(LinuxBootProtocolError::Truncated))
    );
}

#[test]
fn arm_bzimage_realmode_entry_sets_cs_ip() {
    assert_eq!(arm_bzimage_realmode_entry(0x9_0000), Ok((0x9000, 0x0200)));
    assert_eq!(
        arm_bzimage_realmode_entry(0x9_0001),
        Err(BzImageLoadError::RamTooSmall)
    );
    assert_eq!(
        arm_bzimage_realmode_entry(0x10_0000),
        Err(BzImageLoadError::RamTooSmall)
    );
    assert_eq!(
        BzImageLoadError::from(LinuxBootProtocolError::BadMagic),
        BzImageLoadError::Classify(LinuxBootProtocolError::BadMagic)
    );
}

#[test]
fn bzimage_setup_entry_is_prepared_at_the_classic_address() {
    let mut mem = PhysMem::new(1024 * 1024);
    let mut ide = IdeDisk { present: false, image: Vec::new() };
    assert_eq!(prepare_bzimage_setup_entry(&mut mem, &mut ide), Ok((0x9000, 0x0200)));
    let image = synthetic_linux_bzimage_setup_hlt();
    for (i, b) in image.iter().enumerate() {
        assert_eq!(mem.read_u8(LINUX_REALMODE_LOAD_ADDR + i as u64).unwrap(), *b);
    }
    // A signed HLT sector stands in as the IDE disk.
    assert!(ide.present);
    assert_eq!(ide.image.len(), 512);
    assert_eq!(ide.image[0], 0xF4);
    assert_eq!(ide.image[1], 0x90);
    assert_eq!(&ide.image[510..], &[0x55, 0xAA]);

    // An attached disk is kept.
    let mut ide = IdeDisk { present: true, image: vec![1, 2, 3] };
    let mut mem = PhysMem::new(1024 * 1024);
    assert!(prepare_bzimage_setup_entry(&mut mem, &mut ide).is_ok());
    assert_eq!(ide.image, vec![1, 2, 3]);

    // Too little RAM for the blob at 0x90000: nothing changes.
    let mut small = PhysMem::new(0x9_0000 + 1023);
    let mut ide = IdeDisk { present: false, image: Vec::new() };
    assert_eq!(prepare_bzimage_setup_entry(&mut small, &mut ide), Err(MachineError::MbrRamTooSmall));
    assert!(!ide.present);
    assert_eq!(small.read_u8(0x9_0000).unwrap(), 0);
}
