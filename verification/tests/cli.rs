use machine_pc::cli::{
    capture_cpu_failure_context, check_hello_output, describe_option_rom, guest_boot_media,
    parse_args, usage, CliError, FirmwareKind, Options, ParsedArgs, DEFAULT_MAX_STEPS,
    DEFAULT_OPTION_ROM_BASE, OPTION_ROM_BLOCK_BYTES,
};
use machine_pc::firmware::{prepare_option_rom, OptionRomError};
use machine_pc::guest_boot::GuestBootMedia;
use machine_pc::mem::PhysMem;
use machine_pc::post_report::{PostSpinConfig, PostTraceConfig, DEFAULT_POST_TRACE_CAPACITY};

fn path(s: &str) -> Option<String> {
    Some(s.to_string())
}

#[test]
fn usage_mentions_bios_flag() {
    let u = usage();
    assert!(u.contains("--bios"), "{u}");
    assert!(u.contains("--rom"), "{u}");
}

#[test]
fn parse_bios_path_and_steps() {
    let parsed = parse_args(&["--bios", "fw.bin", "--steps", "42"]).unwrap();
    assert_eq!(
        parsed,
        ParsedArgs::Run(Options {
            bios_path: path("fw.bin"),
            max_steps: 42,
            ..Options::default()
        })
    );
}

#[test]
fn parse_post_probe_flag() {
    let parsed = parse_args(&["--bios", "fw.bin", "--post-probe"]).unwrap();
    assert_eq!(
        parsed,
        ParsedArgs::Run(Options {
            bios_path: path("fw.bin"),
            post_probe: true,
            ..Options::default()
        })
    );
    assert!(usage().contains("--post-probe"));
}

#[test]
fn parse_post_trace_implies_post_probe_with_a_default_capacity() {
    let parsed = parse_args(&["--bios", "fw.bin", "--post-trace"]).unwrap();
    assert_eq!(
        parsed,
        ParsedArgs::Run(Options {
            bios_path: path("fw.bin"),
            post_probe: true,
            post_trace: Some(PostTraceConfig::with_capacity(DEFAULT_POST_TRACE_CAPACITY)),
            ..Options::default()
        })
    );
    assert!(usage().contains("--post-trace"));
}

#[test]
fn parse_post_trace_capacity_is_optional() {
    let ParsedArgs::Run(opts) = parse_args(&["--post-trace", "16"]).unwrap() else {
        panic!("expected a run");
    };
    assert_eq!(opts.post_trace, Some(PostTraceConfig::with_capacity(16)));
    assert_eq!(opts.max_steps, DEFAULT_MAX_STEPS);

    let ParsedArgs::Run(opts) = parse_args(&["--post-trace", "--steps", "99"]).unwrap() else {
        panic!("expected a run");
    };
    assert_eq!(
        opts.post_trace,
        Some(PostTraceConfig::with_capacity(DEFAULT_POST_TRACE_CAPACITY))
    );
    assert_eq!(opts.max_steps, 99);
}

#[test]
fn parse_post_spin_zero_disables_sampling() {
    let ParsedArgs::Run(opts) = parse_args(&["--post-spin", "0"]).unwrap() else {
        panic!("expected a run");
    };
    assert!(opts.post_probe);
    assert_eq!(opts.post_spin, None);
    let ParsedArgs::Run(opts) = parse_args(&["--post-spin", "8"]).unwrap() else {
        panic!("expected a run");
    };
    assert_eq!(opts.post_spin, Some(PostSpinConfig::with_window(8)));
    let ParsedArgs::Run(opts) = parse_args(&["--post-spin"]).unwrap() else {
        panic!("expected a run");
    };
    assert_eq!(opts.post_spin, Some(PostSpinConfig::default()));
}

#[test]
fn parse_help() {
    assert_eq!(parse_args(&["--help"]).unwrap(), ParsedArgs::Help);
    assert_eq!(parse_args(&["-h"]).unwrap(), ParsedArgs::Help);
}

#[test]
fn parse_rejects_rom_and_bios_together() {
    assert_eq!(
        parse_args(&["--rom", "a.bin", "--bios", "b.bin"]),
        Err(CliError::RomAndBios)
    );
}

#[test]
fn parse_rejects_missing_bios_value() {
    assert_eq!(parse_args(&["--bios"]), Err(CliError::MissingValue("--bios")));
}

#[test]
fn parse_rejects_unknown_and_bad_steps() {
    assert_eq!(
        parse_args(&["--frobnicate"]),
        Err(CliError::UnknownArgument("--frobnicate".to_string()))
    );
    assert_eq!(
        parse_args(&["--steps", "-1"]),
        Err(CliError::InvalidSteps("-1".to_string()))
    );
    assert_eq!(
        parse_args(&["--steps", "18446744073709551616"]),
        Err(CliError::InvalidSteps("18446744073709551616".to_string()))
    );
    let ParsedArgs::Run(opts) = parse_args(&["--steps", "+7"]).unwrap() else {
        panic!("expected a run");
    };
    assert_eq!(opts.max_steps, 7);
    assert_eq!(
        CliError::InvalidSteps("x".to_string()).to_string(),
        "Invalid --steps value: x"
    );
}

#[test]
fn parse_diagnostic_flags() {
    let parsed = parse_args(&[
        "--vga-text",
        "--option-rom",
        "vga.bin",
        "--option-rom-base",
        "0xC0000",
    ])
    .unwrap();
    assert_eq!(
        parsed,
        ParsedArgs::Run(Options {
            vga_text: true,
            option_rom_path: path("vga.bin"),
            option_rom_base: 0x000C_0000,
            ..Options::default()
        })
    );

    let u = usage();
    assert!(u.contains("--vga-text"), "{u}");
    assert!(u.contains("--option-rom"), "{u}");
}

#[test]
fn option_rom_base_accepts_decimal_and_rejects_garbage() {
    let ParsedArgs::Run(opts) = parse_args(&["--option-rom-base", "786432"]).unwrap() else {
        panic!("expected a run");
    };
    assert_eq!(opts.option_rom_base, DEFAULT_OPTION_ROM_BASE);
    assert_eq!(
        parse_args(&["--option-rom-base", "0xZZ"]),
        Err(CliError::InvalidAddress("0xZZ".to_string()))
    );
    assert_eq!(
        parse_args(&["--option-rom"]),
        Err(CliError::MissingValue("--option-rom"))
    );
    let ParsedArgs::Run(opts) = parse_args(&["--option-rom-base", " 0XE0000\t"]).unwrap() else {
        panic!("expected a run");
    };
    assert_eq!(opts.option_rom_base, 0xE0000);
}

fn synthetic_option_rom(blocks: u8) -> Vec<u8> {
    let mut rom = vec![0u8; usize::from(blocks) * OPTION_ROM_BLOCK_BYTES];
    rom[0] = 0x55;
    rom[1] = 0xAA;
    rom[2] = blocks;
    rom[3] = 0xCB;
    let sum = rom.iter().fold(0u8, |acc, b| acc.wrapping_add(*b));
    let last = rom.len() - 1;
    rom[last] = rom[last].wrapping_sub(sum);
    rom
}

#[test]
fn describe_option_rom_accepts_a_well_formed_image() {
    let rom = synthetic_option_rom(4);
    let info = describe_option_rom(DEFAULT_OPTION_ROM_BASE, &rom);

    assert!(info.signature_ok);
    assert_eq!(info.blocks, Some(4));
    assert_eq!(info.declared_bytes, Some(2048));
    assert_eq!(info.checksum, Some(0));
    assert_eq!(info.size, 2048);
    assert!(info.is_valid());
    assert_eq!(
        info.to_string(),
        "option-rom: base=0x000C0000 size=2048 signature=55AA blocks=4 \
         declared=2048 checksum=0x00 status=ok"
    );
}

#[test]
fn describe_option_rom_reports_each_malformed_header() {
    let mut rom = synthetic_option_rom(1);
    rom[0] = 0x00;
    let info = describe_option_rom(0, &rom);
    assert!(!info.signature_ok);
    assert!(!info.is_valid());
    assert!(info.to_string().contains("signature=missing"), "{info:?}");

    let mut rom = synthetic_option_rom(1);
    rom[4] = rom[4].wrapping_add(1);
    let info = describe_option_rom(0, &rom);
    assert_eq!(info.checksum, Some(1));
    assert!(!info.is_valid());
    assert!(info.to_string().contains("status=invalid"), "{info:?}");

    let mut rom = synthetic_option_rom(1);
    rom[2] = 8;
    let info = describe_option_rom(0, &rom);
    assert_eq!(info.declared_bytes, Some(4096));
    assert_eq!(info.checksum, None, "cannot sum an extent that does not fit");
    assert!(!info.is_valid());

    let mut rom = synthetic_option_rom(1);
    rom[2] = 0;
    assert!(!describe_option_rom(0, &rom).is_valid());

    let info = describe_option_rom(0, &[0x55, 0xAA]);
    assert!(info.signature_ok);
    assert_eq!(info.blocks, None);
    assert!(!info.is_valid());
}

#[test]
fn option_rom_report_of_a_short_image() {
    let info = describe_option_rom(0x1_0000_0000, &[0x12]);
    assert_eq!(
        info.to_string(),
        "option-rom: base=0x100000000 size=1 signature=missing blocks=none \
         declared=none checksum=none status=invalid"
    );
}

#[test]
fn option_rom_report_agrees_with_validation_apart_from_placement() {
    let rom = synthetic_option_rom(2);
    // Misaligned base: the header is fine, only placement is refused.
    assert!(describe_option_rom(0xC0100, &rom).is_valid());
    assert_eq!(prepare_option_rom(0xC0100, &rom), Err(OptionRomError::Misaligned));
    // Outside the expansion window: same.
    assert!(describe_option_rom(0xE0000, &rom).is_valid());
    assert_eq!(prepare_option_rom(0xE0000, &rom), Err(OptionRomError::OutsideRegion));
    // Accepted at a legal base.
    assert!(describe_option_rom(0xC8000, &rom).is_valid());
    assert!(prepare_option_rom(0xC8000, &rom).is_ok());
    // A checksum error is seen by both.
    let mut bad = rom.clone();
    bad[5] = bad[5].wrapping_add(3);
    assert!(!describe_option_rom(0xC8000, &bad).is_valid());
    assert_eq!(prepare_option_rom(0xC8000, &bad), Err(OptionRomError::BadChecksum));
}

#[test]
fn usage_mentions_guest_measure_flags() {
    let u = usage();
    assert!(u.contains("--guest-measure"), "{u}");
    assert!(u.contains("--ide-image"), "{u}");
    assert!(u.contains("--floppy-image"), "{u}");
    assert!(u.contains("--cdrom-image"), "{u}");
    assert!(u.contains("--guest-eltorito"), "{u}");
    assert!(u.contains("--guest-freedos-measure"), "{u}");
    assert!(u.contains("--guest-linux-serial-measure"), "{u}");
}

#[test]
fn usage_fills_in_its_defaults() {
    let u = usage();
    assert!(u.contains("(default 256)"), "{u}");
    assert!(u.contains("(default 64;"), "{u}");
    assert!(u.contains("(default 0xC0000)"), "{u}");
    assert!(u.contains("Dump the 80x25 VGA text buffer"), "{u}");
    assert!(u.ends_with("Default ROM prints 'HELLO FROM EMULATOR' via COM1 and port 0x402."));
}

#[test]
fn parse_guest_measure_requires_image() {
    assert_eq!(
        parse_args(&["--guest-measure"]),
        Err(CliError::GuestMeasureNeedsImage)
    );
    assert_eq!(
        parse_args(&["--ide-image", "d.bin", "--guest-eltorito"]),
        Err(CliError::GuestMeasureNeedsImage)
    );
}

#[test]
fn parse_guest_measure_with_ide_image() {
    let parsed = parse_args(&[
        "--ide-image",
        "disk.bin",
        "--guest-measure",
        "--guest-floppy-first",
        "--steps",
        "100",
    ])
    .unwrap();
    assert_eq!(
        parsed,
        ParsedArgs::Run(Options {
            ide_image: path("disk.bin"),
            guest_measure: true,
            guest_floppy_first: true,
            max_steps: 100,
            ..Options::default()
        })
    );
}

#[test]
fn parse_guest_measure_with_cdrom_eltorito() {
    let parsed = parse_args(&[
        "--cdrom-image",
        "cd.iso",
        "--guest-measure",
        "--guest-eltorito",
    ])
    .unwrap();
    assert_eq!(
        parsed,
        ParsedArgs::Run(Options {
            cdrom_image: path("cd.iso"),
            guest_measure: true,
            guest_eltorito: true,
            ..Options::default()
        })
    );
}

#[test]
fn guest_boot_media_policy() {
    let ide_only = Options {
        ide_image: path("a"),
        guest_measure: true,
        ..Options::default()
    };
    assert_eq!(guest_boot_media(&ide_only), GuestBootMedia::IdePrefer);

    let floppy_only = Options {
        floppy_image: path("b"),
        guest_measure: true,
        ..Options::default()
    };
    assert_eq!(guest_boot_media(&floppy_only), GuestBootMedia::FloppyFirst);

    let both_force = Options {
        ide_image: path("a"),
        floppy_image: path("b"),
        guest_floppy_first: true,
        ..Options::default()
    };
    assert_eq!(guest_boot_media(&both_force), GuestBootMedia::FloppyFirst);

    let cdrom_only = Options {
        cdrom_image: path("c"),
        guest_measure: true,
        ..Options::default()
    };
    assert_eq!(guest_boot_media(&cdrom_only), GuestBootMedia::ElTorito);
}

#[test]
fn parse_guest_freedos_measure() {
    let parsed = parse_args(&["--guest-freedos-measure", "--steps", "32"]).unwrap();
    assert_eq!(
        parsed,
        ParsedArgs::Run(Options {
            guest_freedos_measure: true,
            max_steps: 32,
            ..Options::default()
        })
    );
}

#[test]
fn parse_guest_linux_serial_measure() {
    let parsed = parse_args(&["--guest-linux-serial-measure"]).unwrap();
    assert_eq!(
        parsed,
        ParsedArgs::Run(Options {
            guest_linux_serial_measure: true,
            ..Options::default()
        })
    );
}

#[test]
fn failure_context_is_safe_at_top_of_address_space() {
    let mut mem = PhysMem::new(8);
    mem.map_rom(u64::MAX - 1, vec![0xAA, 0xBB]);
    for (addr, byte) in [0xCC, 0xDD, 0xEE, 0xF0, 0x12, 0x34].into_iter().enumerate() {
        mem.write_u8(addr as u64, byte).unwrap();
    }
    let context = capture_cpu_failure_context(&mem, 0, u64::MAX - 1, 0, 7);
    assert_eq!(context.completed_steps, 7);
    assert_eq!(context.linear_pc, u64::MAX - 1);
    assert_eq!(
        context.opcode_bytes,
        [
            Some(0xAA),
            Some(0xBB),
            Some(0xCC),
            Some(0xDD),
            Some(0xEE),
            Some(0xF0),
            Some(0x12),
            Some(0x34),
        ]
    );
}

#[test]
fn failure_context_wraps_real_mode_ip_for_opcode_window() {
    let mut mem = PhysMem::new(0x20_000);
    mem.write_u8(0x10FFF, 0xA5).unwrap();
    for (addr, byte) in [0x10, 0x20, 0x30, 0x40, 0x50, 0x60, 0x70].into_iter().enumerate() {
        mem.write_u8(0x1000 + addr as u64, byte).unwrap();
    }
    let context = capture_cpu_failure_context(&mem, 0x0100, 0x1000, 0x1_FFFF, 3);
    assert_eq!(context.cs, 0x0100);
    assert_eq!(context.ip, 0xFFFF);
    assert_eq!(context.rip, 0x1_FFFF);
    assert_eq!(context.linear_pc, 0x10FFF);
    assert_eq!(
        context.opcode_bytes,
        [
            Some(0xA5),
            Some(0x10),
            Some(0x20),
            Some(0x30),
            Some(0x40),
            Some(0x50),
            Some(0x60),
            Some(0x70),
        ]
    );
}

#[test]
fn failure_context_text_matches_the_report_format() {
    let mut mem = PhysMem::new(0x20_000);
    for (i, b) in [0x9B, 0xF4, 0x11, 0x22, 0x33, 0x44, 0x55, 0x66].into_iter().enumerate() {
        mem.write_u8(0x1_0000 + 0xFFF1 + i as u64, b).unwrap();
    }
    let context = capture_cpu_failure_context(&mem, 0xF000, 0x1_0000, 0xFFF1, 1);
    assert_eq!(
        context.to_string(),
        "completed_steps=1 cs:ip=F000:FFF1 rip=0x000000000000FFF1 \
         linear_pc=0x000000000001FFF1 opcode_bytes=[9B F4 11 22 33 44 55 66]"
    );
}

#[test]
fn hello_output_is_checked_only_for_the_hello_rom() {
    let hello = "HELLO FROM EMULATOR";
    assert_eq!(check_hello_output(FirmwareKind::Hello, hello, hello), Ok(()));
    assert_eq!(
        check_hello_output(FirmwareKind::Hello, hello, ""),
        Err(CliError::Machine("HELLO ROM output mismatch".to_string()))
    );
    assert_eq!(check_hello_output(FirmwareKind::Bios, "", ""), Ok(()));
}
