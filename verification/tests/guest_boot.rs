use machine_pc::boot_media::{
    synthetic_int19_bootable_hd, synthetic_int19_freedos_stub_hd, Int19BootMediaClass,
};
use machine_pc::fat12::synthetic_int19_freedos_fat12_hd;
use machine_pc::guest_boot::{
    classify_freedos_next_gap, classify_freedos_next_gap_with_handoff,
    classify_guest_first_failure, classify_machine_int19_media, finish_os_measure,
    measure_from_report, read_ivt_far, FreedosHandoff, FreedosNextGap, GuestBootCheckpoint,
    GuestBootMedia, GuestFailureSite, GuestFirstFailureClass, GuestOsMeasureKind,
    Int13ProbeSnapshot, MediaBootReadiness, BDA_EQUIPMENT, BDA_HD_COUNT,
    GUEST_OS_MEASURE_VERSION,
};
use machine_pc::guest_images::{synthetic_freedos_like_disk, synthetic_linux_serial_stub_disk};
use machine_pc::guest_load::seed_bda_disk_equipment;
use machine_pc::mem::PhysMem;
use machine_pc::post_report::{
    PostFailure, PostFailureKind, PostReport, PostStopReason, PostStopSite, UnclaimedPortAccess,
    UnmappedMmioAccess,
};

fn report(stop: PostStopReason) -> PostReport {
    PostReport {
        stop,
        steps: 1,
        unclaimed_ports: Vec::new(),
        unmapped_mmio: Vec::new(),
        stop_site: PostStopSite { cs: 0, eip: 0x7C00 },
        com1: String::new(),
        debug: String::new(),
    }
}

fn probe(cf: bool) -> Int13ProbeSnapshot {
    Int13ProbeSnapshot { dl: 0x80, ah: if cf { 0x01 } else { 0x00 }, cf }
}

/// Guest memory with the BDA seeded for an attached IDE disk and INT 13h
/// pointing at `F000:E3FE`.
fn seeded_mem(equip: u8, ide: bool, ivt: bool) -> PhysMem {
    let mut m = PhysMem::new(64 * 1024);
    seed_bda_disk_equipment(&mut m, equip, ide);
    if ivt {
        m.write_u8(0x13 * 4, 0xFE).unwrap();
        m.write_u8(0x13 * 4 + 1, 0xE3).unwrap();
        m.write_u8(0x13 * 4 + 2, 0x00).unwrap();
        m.write_u8(0x13 * 4 + 3, 0xF0).unwrap();
    }
    m
}

#[test]
fn first_failure_classes_follow_the_stop() {
    assert_eq!(
        classify_guest_first_failure(&report(PostStopReason::Halted), None),
        GuestFirstFailureClass::SyntheticHalt
    );
    assert_eq!(
        classify_guest_first_failure(&report(PostStopReason::StepBudgetExhausted), None),
        GuestFirstFailureClass::StepBudget
    );
    let mut device = report(PostStopReason::StepBudgetExhausted);
    device.unmapped_mmio.push(UnmappedMmioAccess { page: 0xFEC0_0000 });
    assert_eq!(
        classify_guest_first_failure(&device, None),
        GuestFirstFailureClass::UnmappedMmio { page: 0xFEC0_0000 }
    );
    device.unclaimed_ports.push(UnclaimedPortAccess { port: 0xCF8 });
    device.unclaimed_ports.push(UnclaimedPortAccess { port: 0x80 });
    assert_eq!(
        classify_guest_first_failure(&device, None),
        GuestFirstFailureClass::UnclaimedIo { port: 0xCF8 }
    );
    let ud = report(PostStopReason::Failure(PostFailure {
        kind: PostFailureKind::UnsupportedOpcode(0x9B),
    }));
    let class = classify_guest_first_failure(&ud, Some(&probe(true)));
    assert_eq!(class, GuestFirstFailureClass::UnsupportedOpcode { opcode: 0x9B });
    assert_eq!(class.bucket(), "decode-ud");
    assert_eq!(class.tag(), "unsupported-opcode");
}

#[test]
fn int13_cf_replaces_only_soft_stops() {
    let halted = report(PostStopReason::Halted);
    let class = classify_guest_first_failure(&halted, Some(&probe(true)));
    assert_eq!(class, GuestFirstFailureClass::Int13Cf { ah: 0x01 });
    assert_eq!(class.bucket(), "int13-cf");
    assert_eq!(
        classify_guest_first_failure(&halted, Some(&probe(false))),
        GuestFirstFailureClass::SyntheticHalt
    );
    let fault = report(PostStopReason::Failure(PostFailure {
        kind: PostFailureKind::ArchFault { vector: 6 },
    }));
    let class = classify_guest_first_failure(&fault, Some(&probe(true)));
    assert_eq!(class, GuestFirstFailureClass::ArchFault { vector: 6 });
    assert_eq!(class.bucket(), "decode-ud");
    assert_eq!(GuestFirstFailureClass::ArchFault { vector: 13 }.bucket(), "other");
    assert_eq!(GuestFirstFailureClass::StepBudget.bucket(), "hang");
}

#[test]
fn media_readiness_from_int19_class() {
    assert_eq!(
        MediaBootReadiness::from_int19_class(Int19BootMediaClass::TooShort),
        MediaBootReadiness::NoMedia
    );
    assert_eq!(
        MediaBootReadiness::from_int19_class(Int19BootMediaClass::HdSignatureOnly),
        MediaBootReadiness::AttachedNotCandidate
    );
    let ready = MediaBootReadiness::from_int19_class(Int19BootMediaClass::FloppyBootSector);
    assert_eq!(ready, MediaBootReadiness::Int19Candidate);
    assert_eq!(ready.tag(), "int19-candidate");
}

#[test]
fn machine_int19_media_prefers_ide_then_floppy() {
    let hd = synthetic_int19_bootable_hd();
    assert!(classify_machine_int19_media(&hd, None).is_int19_candidate());
    let mut floppy = vec![0u8; 1024];
    floppy[510] = 0x55;
    floppy[511] = 0xAA;
    assert_eq!(
        classify_machine_int19_media(&[], Some(&floppy)),
        Int19BootMediaClass::FloppyBootSector
    );
    assert_eq!(
        classify_machine_int19_media(&[], Some(&[0u8; 512])),
        Int19BootMediaClass::MissingSignature
    );
    assert_eq!(classify_machine_int19_media(&[], None), Int19BootMediaClass::TooShort);
}

#[test]
fn freedos_next_gap_walks_its_checks_in_order() {
    let disk = synthetic_freedos_like_disk();
    let halt = GuestFirstFailureClass::SyntheticHalt;
    let m = seeded_mem(0x04, true, false);
    assert_eq!(
        classify_freedos_next_gap(&m, &disk, None, 0x04, &GuestFirstFailureClass::StepBudget, &probe(false)),
        FreedosNextGap::SeeFirstFailure
    );
    assert_eq!(
        classify_freedos_next_gap(&m, &disk, None, 0x04, &halt, &probe(true)),
        FreedosNextGap::HostInt13Cf { ah: 0x01 }
    );
    assert_eq!(
        classify_freedos_next_gap(&m, &disk, None, 0x05, &halt, &probe(false)),
        FreedosNextGap::BdaDiskMismatch
    );
    assert_eq!(
        classify_freedos_next_gap(&m, &disk, None, 0x04, &halt, &probe(false)),
        FreedosNextGap::GuestInt13IvtMissing
    );
    let with_ivt = seeded_mem(0x04, true, true);
    assert_eq!(read_ivt_far(&with_ivt, 0x13), (0xE3FE, 0xF000));
    assert_eq!(
        classify_freedos_next_gap(&with_ivt, &disk, None, 0x04, &halt, &probe(false)),
        FreedosNextGap::RealImageAndFirmware
    );
}

#[test]
fn freedos_next_gap_with_media_follows_the_handoff() {
    let halt = GuestFirstFailureClass::SyntheticHalt;
    let m = seeded_mem(0x04, true, true);
    let stub = synthetic_int19_freedos_stub_hd();
    assert_eq!(
        classify_freedos_next_gap(&m, &stub, None, 0x04, &halt, &probe(false)),
        FreedosNextGap::MediaAttachedBeyondRebootLoop
    );
    assert_eq!(
        classify_freedos_next_gap_with_handoff(
            &m, &stub, None, 0x04, &halt, &probe(false), FreedosHandoff::ActiveVbr
        ),
        FreedosNextGap::ExecutedVbrMissingCommand
    );
    let fat = synthetic_int19_freedos_fat12_hd();
    let gap = classify_freedos_next_gap_with_handoff(
        &m, &fat, None, 0x04, &halt, &probe(false), FreedosHandoff::ActiveVbr,
    );
    assert_eq!(gap, FreedosNextGap::KernelNameLocatedMissingLoad);
    assert_eq!(gap.tag(), "kernel-name-located-missing-load");
    assert!(gap.host_note().contains("KERNEL.SYS"));
}

#[test]
fn seed_bda_disk_equipment_tracks_media() {
    let mut m = PhysMem::new(64 * 1024);
    seed_bda_disk_equipment(&mut m, 0x05, true);
    assert_eq!(m.read_u8(BDA_EQUIPMENT).unwrap(), 0x05);
    assert_eq!(m.read_u8(BDA_EQUIPMENT + 1).unwrap(), 0x00);
    assert_eq!(m.read_u8(BDA_HD_COUNT).unwrap(), 1);
    seed_bda_disk_equipment(&mut m, 0x04, false);
    assert_eq!(m.read_u8(BDA_HD_COUNT).unwrap(), 0);
}

#[test]
fn measure_from_report_records_checkpoints() {
    let mut r = report(PostStopReason::Halted);
    r.com1 = "FD".to_string();
    let m = measure_from_report(GuestBootMedia::IdePrefer, r, "0:F".to_string());
    assert_eq!(
        m.checkpoints,
        vec![
            GuestBootCheckpoint::MediaLoaded,
            GuestBootCheckpoint::CsIpArmed,
            GuestBootCheckpoint::ProbeStarted,
            GuestBootCheckpoint::SerialObserved,
            GuestBootCheckpoint::VgaObserved,
            GuestBootCheckpoint::StopRecorded,
        ]
    );
    assert!(m.serial_captured());
    assert!(m.vga_captured());
    assert_eq!(m.stop_class(), "halted");
    let quiet = measure_from_report(
        GuestBootMedia::ElTorito,
        report(PostStopReason::StepBudgetExhausted),
        String::new(),
    );
    assert_eq!(quiet.checkpoints.len(), 4);
    assert!(!quiet.serial_captured());
    assert_eq!(quiet.stop_class(), "step-budget");
}

#[test]
fn finish_os_measure_freedos_like_halt() {
    let disk = synthetic_freedos_like_disk();
    let mem = seeded_mem(0x04, true, false);
    let measure = measure_from_report(
        GuestBootMedia::IdePrefer,
        report(PostStopReason::Halted),
        String::new(),
    );
    let os = finish_os_measure(
        GuestOsMeasureKind::FreeDosLike,
        measure,
        "Synthetic FreeDOS-like MBR+payload only — does NOT claim a FreeDOS prompt or kernel.",
        vec!["No FreeDOS image vendored; fixture is synthetic"],
        vec![],
        FreedosHandoff::MbrSector,
        probe(false),
        &mem,
        &disk,
        None,
        0x04,
    );
    assert_eq!(os.version, GUEST_OS_MEASURE_VERSION);
    assert_eq!(os.first_failure, GuestFirstFailureClass::SyntheticHalt);
    assert_eq!(os.failure_bucket, "halted");
    assert_eq!(os.failure_site, GuestFailureSite { cs: 0, eip: 0x7C00 });
    assert_eq!(os.next_gap, FreedosNextGap::GuestInt13IvtMissing);
    assert_eq!(os.media_readiness, MediaBootReadiness::AttachedNotCandidate);
    assert_eq!(os.gaps.len(), 2);
    assert!(os.gaps[1].contains("not FreeDOS/Linux progress"));
    assert_eq!(os.host_notes.len(), 3);
    assert!(os.host_notes[1].contains("BDA 0040:0010/0075"));
    assert!(os.host_notes[2].contains("IVT INT 13h null"));
}

#[test]
fn finish_os_measure_linux_path_decides_without_freedos_checks() {
    let disk = synthetic_linux_serial_stub_disk();
    let mem = PhysMem::new(64 * 1024);
    let measure = measure_from_report(
        GuestBootMedia::IdePrefer,
        report(PostStopReason::Halted),
        String::new(),
    );
    let os = finish_os_measure(
        GuestOsMeasureKind::LinuxSerialPath,
        measure,
        "stub",
        vec![],
        vec![],
        FreedosHandoff::MbrSector,
        probe(false),
        &mem,
        &disk,
        None,
        0x04,
    );
    assert_eq!(os.next_gap, FreedosNextGap::RealImageAndFirmware);
    assert_eq!(os.host_notes.len(), 2);
    assert!(os.host_notes[1].contains("classify_bzimage_early"));

    let failing = measure_from_report(
        GuestBootMedia::IdePrefer,
        report(PostStopReason::Failure(PostFailure { kind: PostFailureKind::Machine })),
        String::new(),
    );
    let os = finish_os_measure(
        GuestOsMeasureKind::LinuxSerialPath,
        failing,
        "stub",
        vec![],
        vec![],
        FreedosHandoff::MbrSector,
        probe(false),
        &mem,
        &disk,
        None,
        0x04,
    );
    assert_eq!(os.first_failure, GuestFirstFailureClass::MachineError);
    assert_eq!(os.next_gap, FreedosNextGap::SeeFirstFailure);
    assert!(os.host_notes.is_empty());
}

#[test]
fn synthetic_disks_carry_their_banners_and_markers() {
    let fd = synthetic_freedos_like_disk();
    assert_eq!(fd.len(), 2048);
    assert_eq!(&fd[0..5], &[0xBA, 0xF8, 0x03, 0xB0, b'F']);
    assert_eq!(&fd[510..512], &[0x55, 0xAA]);
    assert_eq!(&fd[512..532], b"FREEDOS-LIKE-PAYLOAD");
    let lx = synthetic_linux_serial_stub_disk();
    assert_eq!(lx.len(), 1024);
    assert_eq!(&lx[512..529], b"LINUX-SERIAL-STUB");
    assert_eq!(lx[15], 0xF4);
}

fn synthetic_freedos_ivt_mem(with_ivt: bool) -> PhysMem {
    let mut m = PhysMem::new(64 * 1024);
    seed_bda_disk_equipment(&mut m, 0x04, true);
    if with_ivt {
        machine_pc::ivt::install_int13_ivt_pointer(&mut m, 0xF000, 0xE000);
    }
    m
}

fn probe_ok() -> Int13ProbeSnapshot {
    Int13ProbeSnapshot { dl: 0x80, ah: 0x01, cf: false }
}

#[test]
fn classify_freedos_next_gap_bda_mismatch() {
    let disk = synthetic_freedos_like_disk();
    let mut m = synthetic_freedos_ivt_mem(false);
    m.write_u8(BDA_HD_COUNT, 0).unwrap();
    let gap = classify_freedos_next_gap(&m, &disk, None, 0x04, &GuestFirstFailureClass::SyntheticHalt, &probe_ok());
    assert_eq!(gap, FreedosNextGap::BdaDiskMismatch);
}

#[test]
fn classify_freedos_next_gap_with_ivt_pointer() {
    let disk = synthetic_freedos_like_disk();
    let m = synthetic_freedos_ivt_mem(true);
    let gap = classify_freedos_next_gap(&m, &disk, None, 0x04, &GuestFirstFailureClass::SyntheticHalt, &probe_ok());
    assert_eq!(gap, FreedosNextGap::RealImageAndFirmware);
}

#[test]
fn classify_freedos_next_gap_media_beyond_reboot_loop() {
    let stub = synthetic_int19_freedos_stub_hd();
    let m = synthetic_freedos_ivt_mem(true);
    let gap = classify_freedos_next_gap(&m, &stub, None, 0x04, &GuestFirstFailureClass::SyntheticHalt, &probe_ok());
    assert_eq!(gap, FreedosNextGap::MediaAttachedBeyondRebootLoop);
    assert_eq!(gap.tag(), "media-attached-beyond-reboot-loop");
}

#[test]
fn classify_freedos_next_gap_vbr_handoff_missing_command() {
    let stub = synthetic_int19_freedos_stub_hd();
    let m = synthetic_freedos_ivt_mem(true);
    let gap = classify_freedos_next_gap_with_handoff(
        &m,
        &stub,
        None,
        0x04,
        &GuestFirstFailureClass::SyntheticHalt,
        &probe_ok(),
        FreedosHandoff::ActiveVbr,
    );
    assert_eq!(gap, FreedosNextGap::ExecutedVbrMissingCommand);
}

#[test]
fn classify_freedos_next_gap_fat12_kernel_name() {
    let fat = synthetic_int19_freedos_fat12_hd();
    let m = synthetic_freedos_ivt_mem(true);
    let gap = classify_freedos_next_gap_with_handoff(
        &m,
        &fat,
        None,
        0x04,
        &GuestFirstFailureClass::SyntheticHalt,
        &probe_ok(),
        FreedosHandoff::ActiveVbr,
    );
    assert_eq!(gap, FreedosNextGap::KernelNameLocatedMissingLoad);
}

#[test]
fn classify_int13_cf_from_probe_snapshot() {
    let halted = report(PostStopReason::Halted);
    let probe = Int13ProbeSnapshot { dl: 0x80, ah: 0x80, cf: true };
    let class = classify_guest_first_failure(&halted, Some(&probe));
    assert_eq!(class, GuestFirstFailureClass::Int13Cf { ah: 0x80 });
    assert_eq!(class.bucket(), "int13-cf");
    // A bare machine (no IDE disk) fails the host AH=41h probe.
    let mut mem = PhysMem::new(64 * 1024);
    let mut ide = machine_pc::int13_disk::IdeDisk { present: false, image: Vec::new() };
    let mut fd = machine_pc::int13_floppy::FloppyMedia { attached: false, image: Vec::new(), write_protected: false };
    let mut regs = machine_pc::int13_disk::Int13Regs {
        ah: 0, al: 0, bx: 0, cx: 0, dh: 0, dl: 0, si: 0, es_base: 0, ds_base: 0, cf: false,
    };
    let snap = machine_pc::int13_floppy::probe_int13_hd_extensions_status(&mut mem, &mut ide, &mut fd, &mut regs);
    assert!(snap.failed());
    assert_eq!(snap.ah, 0x80);
}

#[test]
fn boot_measure_text_lists_checkpoints_and_quotes_serial() {
    let mut r = report(PostStopReason::Halted);
    r.com1 = "FD".to_string();
    r.debug = "a\"b\n".to_string();
    let m = measure_from_report(GuestBootMedia::IdePrefer, r, "0:F".to_string());
    let text = m.render("REPORT");
    assert_eq!(
        text,
        "guest-measure-v2: media=ide-prefer stop-class=halted (measure-first; not a boot-success claim)\n  checkpoints=[media-loaded, cs-ip-armed, probe-started, serial-observed, vga-observed, stop-recorded]\n  serial: com1=\"FD\" debug=\"a\\\"b\\n\"\n  vga: 0:F\nREPORT"
    );
    let quiet = measure_from_report(GuestBootMedia::ElTorito, report(PostStopReason::StepBudgetExhausted), String::new());
    assert_eq!(
        quiet.render(""),
        "guest-measure-v2: media=eltorito stop-class=step-budget (measure-first; not a boot-success claim)\n  checkpoints=[media-loaded, cs-ip-armed, probe-started, stop-recorded]\n  serial: com1=\"\" debug=\"\"\n"
    );
}

#[test]
fn os_measure_text_header_probe_gaps_and_notes() {
    let disk = synthetic_freedos_like_disk();
    let mem = seeded_mem(0x04, true, false);
    let measure = measure_from_report(GuestBootMedia::IdePrefer, report(PostStopReason::Halted), String::new());
    let os = finish_os_measure(
        GuestOsMeasureKind::FreeDosLike,
        measure,
        "H",
        vec!["g1"],
        vec![],
        FreedosHandoff::MbrSector,
        probe(false),
        &mem,
        &disk,
        None,
        0x04,
    );
    let text = os.render("R");
    let lines: Vec<&str> = text.lines().collect();
    assert_eq!(
        lines[0],
        "guest-os-measure-v8: kind=freedos-like first-failure=synthetic-halt bucket=halted site=0000:00007C00 next-gap=guest-int13-ivt-missing media=attached-not-candidate (NOT an OS boot / NOT Milestone 2 exit)"
    );
    assert_eq!(lines[1], "  honesty: H");
    assert_eq!(lines[2], "  int13-probe: DL=80h AH=00h CF=0");
    assert!(lines[3].starts_with("  gaps=[g1; "));
    assert!(lines[4].starts_with("  host-notes=["));
    assert!(lines[5].starts_with("guest-measure-v2: media=ide-prefer"));
    assert!(text.ends_with("R"));
    assert!(text.contains("bucket=halted"));
    assert!(text.contains("NOT an OS boot"));
}
