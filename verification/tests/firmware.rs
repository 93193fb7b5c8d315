use machine_pc::firmware::{
    prepare_bios_rom, prepare_option_rom, BiosRomError, OptionRomError, RomImage,
    BIOS_ROM_MAX_SIZE, OPTION_ROM_BLOCK_SIZE, OPTION_ROM_REGION_END, OPTION_ROM_SCAN_STEP,
    VGA_OPTION_ROM_BASE,
};

#[test]
fn rom_image_stores_bytes() {
    let r = RomImage::new(0xFFFF_0000, vec![0xF4]);
    assert_eq!(r.data, vec![0xF4]);
}

#[test]
fn prepare_bios_rom_64k_high_and_f0000_alias() {
    let mut img = vec![0u8; 64 * 1024];
    img[0] = 0xAA;
    img[0xFFF0] = 0xF4;
    img[0xFFFF] = 0x55;

    let map = prepare_bios_rom(&img).expect("64 KiB BIOS");
    assert_eq!(map.high.phys_base, 0xFFFF_0000);
    assert_eq!(map.low.phys_base, 0x000F_0000);
    assert_eq!(map.high.data.len(), 64 * 1024);
    assert_eq!(map.low.data.len(), 64 * 1024);
    assert_eq!(map.high.data[0], 0xAA);
    assert_eq!(map.low.data[0], 0xAA);
    assert_eq!(map.high.data[0xFFF0], 0xF4);
    assert_eq!(map.low.data[0xFFF0], 0xF4);
    assert_eq!(map.high.data[0xFFFF], 0x55);
    assert_eq!(map.low.data[0xFFFF], 0x55);
}

#[test]
fn prepare_bios_rom_256k_aliases_last_128k_at_e0000() {
    let mut img = vec![0u8; 256 * 1024];
    img[0] = 0x11;
    img[128 * 1024] = 0x22;
    img[256 * 1024 - 1] = 0x33;

    let map = prepare_bios_rom(&img).expect("256 KiB BIOS");
    assert_eq!(map.high.phys_base, 0xFFFC_0000);
    assert_eq!(map.high.data.len(), 256 * 1024);
    assert_eq!(map.low.phys_base, 0x000E_0000);
    assert_eq!(map.low.data.len(), 128 * 1024);
    assert_eq!(map.low.data[0], 0x22);
    assert_eq!(map.low.data[128 * 1024 - 1], 0x33);
    assert_eq!(map.high.data[0], 0x11);
}

/// A valid expansion ROM of `blocks` 512-byte blocks: `55 AA`, the block
/// count, a RETF entry stub, and a last byte that zeroes the byte sum.
fn synthetic_option_rom(blocks: u8) -> Vec<u8> {
    let mut rom = vec![0u8; usize::from(blocks) * OPTION_ROM_BLOCK_SIZE];
    rom[0] = 0x55;
    rom[1] = 0xAA;
    rom[2] = blocks;
    rom[3] = 0xCB;
    let sum = rom.iter().fold(0u8, |acc, b| acc.wrapping_add(*b));
    let last = rom.len() - 1;
    rom[last] = rom[last].wrapping_sub(sum);
    rom
}

#[test]
fn prepare_option_rom_accepts_a_valid_vga_style_image() {
    let rom = synthetic_option_rom(4);
    let image = prepare_option_rom(VGA_OPTION_ROM_BASE, &rom).expect("valid option ROM");
    assert_eq!(image.phys_base, 0x000C_0000);
    assert_eq!(image.data.len(), 4 * OPTION_ROM_BLOCK_SIZE);
    assert_eq!(image.data[0], 0x55);
    assert_eq!(image.data[1], 0xAA);
}

#[test]
fn prepare_option_rom_maps_only_the_declared_size() {
    let mut rom = synthetic_option_rom(2);
    rom.extend_from_slice(&[0xEE; 512]);
    let image = prepare_option_rom(VGA_OPTION_ROM_BASE, &rom).expect("valid option ROM");
    assert_eq!(image.data.len(), 2 * OPTION_ROM_BLOCK_SIZE);
    assert!(!image.data.contains(&0xEE));
}

#[test]
fn prepare_option_rom_rejects_malformed_images() {
    assert_eq!(
        prepare_option_rom(VGA_OPTION_ROM_BASE, &[0x55, 0xAA]),
        Err(OptionRomError::TooSmall)
    );

    let mut bad_sig = synthetic_option_rom(1);
    bad_sig[0] = 0x54;
    assert_eq!(
        prepare_option_rom(VGA_OPTION_ROM_BASE, &bad_sig),
        Err(OptionRomError::BadSignature)
    );

    let mut zero_size = synthetic_option_rom(1);
    zero_size[2] = 0;
    assert_eq!(
        prepare_option_rom(VGA_OPTION_ROM_BASE, &zero_size),
        Err(OptionRomError::ZeroSize)
    );

    let mut oversized = synthetic_option_rom(1);
    oversized[2] = 4;
    assert_eq!(
        prepare_option_rom(VGA_OPTION_ROM_BASE, &oversized),
        Err(OptionRomError::SizeExceedsImage)
    );

    let mut bad_sum = synthetic_option_rom(1);
    bad_sum[4] = bad_sum[4].wrapping_add(1);
    assert_eq!(
        prepare_option_rom(VGA_OPTION_ROM_BASE, &bad_sum),
        Err(OptionRomError::BadChecksum)
    );
}

#[test]
fn prepare_option_rom_rejects_bad_placement() {
    let rom = synthetic_option_rom(4);
    assert_eq!(
        prepare_option_rom(0x000C_0400, &rom),
        Err(OptionRomError::Misaligned)
    );
    assert_eq!(
        prepare_option_rom(0x000B_F800, &rom),
        Err(OptionRomError::OutsideRegion)
    );
    let last = OPTION_ROM_REGION_END - OPTION_ROM_SCAN_STEP;
    assert_eq!(
        prepare_option_rom(last, &synthetic_option_rom(6)),
        Err(OptionRomError::OutsideRegion)
    );
    assert!(prepare_option_rom(last, &rom).is_ok());
}

#[test]
fn prepare_bios_rom_rejects_empty_and_too_large() {
    assert_eq!(prepare_bios_rom(&[]), Err(BiosRomError::Empty));
    let big = vec![0u8; BIOS_ROM_MAX_SIZE + 1];
    assert_eq!(prepare_bios_rom(&big), Err(BiosRomError::TooLarge));
}

#[test]
fn prepare_bios_rom_small_image_maps_whole_image_low() {
    let img = vec![0xF4u8; 16];
    let map = prepare_bios_rom(&img).expect("tiny BIOS");
    assert_eq!(map.high.phys_base, 0x1_0000_0000 - 16);
    assert_eq!(map.low.phys_base, 0x0010_0000 - 16);
    assert_eq!(map.low.data, img);
}
