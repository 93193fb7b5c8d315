use machine_pc::boot_load::MachineError;
use machine_pc::firmware::{prepare_option_rom, BiosRomError};
use machine_pc::mem::{
    PamAttributes, PamRead, PamWrite, PhysMem, PAM_BIOS_REGION, PAM_FIELD_RE, PAM_FIELD_WE,
};
use machine_pc::rom_load::{load_bios_rom, load_hello_rom, load_rom, load_rom_image};

fn synthetic_bios_64k() -> Vec<u8> {
    let mut rom = vec![0u8; 64 * 1024];
    rom[0] = 0xEA;
    rom[0xFFF0] = 0xF4;
    rom[0xFFFF] = 0x55;
    rom
}

#[test]
fn bios_rom_maps_high_and_f0000_alias() {
    let mut m = PhysMem::new(1024 * 1024);
    load_bios_rom(&mut m, &synthetic_bios_64k()).unwrap();
    assert_eq!(m.read_u8(0xFFFF_0000).unwrap(), 0xEA);
    assert_eq!(m.read_u8(0x000F_0000).unwrap(), 0xEA);
    assert_eq!(m.read_u8(0xFFFF_FFF0).unwrap(), 0xF4);
    assert_eq!(m.read_u8(0x000F_FFF0).unwrap(), 0xF4);
    assert_eq!(m.read_u8(0xFFFF_FFFF).unwrap(), 0x55);
    assert_eq!(m.read_u8(0x000F_FFFF).unwrap(), 0x55);
    // The alias sits under PAM, whose reset attributes drop the write.
    assert_eq!(m.write_u8(0x000F_0000, 0x00), Ok(()));
    assert_eq!(m.read_u8(0x000F_0000).unwrap(), 0xEA);
}

#[test]
fn bios_rom_rejects_empty_and_keeps_memory() {
    let mut m = PhysMem::new(64 * 1024);
    load_hello_rom(&mut m).unwrap();
    assert_eq!(load_bios_rom(&mut m, &[]), Err(MachineError::BiosRom(BiosRomError::Empty)));
    assert_eq!(m.read_u8(0xFFFF_FFF0).unwrap(), 0xE9);
}

#[test]
fn hello_rom_reset_vector_is_mapped() {
    let mut m = PhysMem::new(1024 * 1024);
    load_hello_rom(&mut m).unwrap();
    assert_eq!(m.read_u8(0xFFFF_FFF0).unwrap(), 0xE9, "near JMP at reset vector");
}

#[test]
fn flat_rom_is_padded_and_size_checked() {
    let mut m = PhysMem::new(64 * 1024);
    load_rom(&mut m, &[0xAB, 0xCD]).unwrap();
    assert_eq!(m.read_u8(0xFFFF_0000).unwrap(), 0xAB);
    assert_eq!(m.read_u8(0xFFFF_0001).unwrap(), 0xCD);
    assert_eq!(m.read_u8(0xFFFF_0002).unwrap(), 0x00);
    assert_eq!(m.read_u8(0xFFFF_FFFF).unwrap(), 0x00);
    assert_eq!(load_rom(&mut m, &vec![0u8; 64 * 1024 + 1]), Err(MachineError::RomTooLarge));
    assert_eq!(m.read_u8(0xFFFF_0000).unwrap(), 0xAB);
}

#[test]
fn rom_image_replaces_windows() {
    let mut m = PhysMem::new(1024 * 1024);
    load_hello_rom(&mut m).unwrap();
    let mut opt = vec![0u8; 512];
    opt[0] = 0x55;
    opt[1] = 0xAA;
    opt[2] = 1;
    let sum: u8 = opt.iter().fold(0u8, |a, b| a.wrapping_add(*b));
    opt[511] = 0u8.wrapping_sub(sum);
    let img = prepare_option_rom(0xC0000, &opt).unwrap();
    load_rom_image(&mut m, &img).unwrap();
    assert_eq!(m.read_u8(0xC0000).unwrap(), 0x55);
    assert_eq!(m.read_u8(0xFFFF_FFF0).unwrap(), 0xFF);
}

/// A BIOS-mapped memory, as a freshly built machine with a BIOS has it.
fn with_bios_rom(ram_size: usize, data: &[u8]) -> Result<PhysMem, MachineError> {
    let mut m = PhysMem::new(ram_size);
    load_bios_rom(&mut m, data)?;
    Ok(m)
}

#[test]
fn reset_fetch_is_rom() {
    let mut m = PhysMem::new(1024 * 1024);
    load_hello_rom(&mut m).unwrap();
    m.reset_pam();
    let b = m.read_u8(0xFFFF_FFF0).unwrap();
    assert_eq!(b, 0xE9, "near JMP at reset vector");
}

#[test]
fn pam_register_write_reattributes_bios_region() {
    let mut m = with_bios_rom(1024 * 1024, &synthetic_bios_64k()).unwrap();
    assert_eq!(
        m.region_attributes(PAM_BIOS_REGION),
        Some(PamAttributes { read: PamRead::Rom, write: PamWrite::Ignored })
    );

    // PAM0 (0x59) high nibble RE|WE: the BIOS area reads and writes DRAM.
    assert!(m.apply_pam_register(0x59, (PAM_FIELD_RE | PAM_FIELD_WE) << 4));
    assert_eq!(
        m.region_attributes(PAM_BIOS_REGION),
        Some(PamAttributes { read: PamRead::ShadowRam, write: PamWrite::ShadowRam })
    );
    assert_eq!(m.pam_register_value(0x59), Some(0x30));
    m.write_u8(0x000F_0000, 0x5A).unwrap();
    assert_eq!(m.read_u8(0x000F_0000).unwrap(), 0x5A);

    m.reset_pam();
    assert_eq!(m.pam_register_value(0x59), Some(0x00));
    assert_eq!(m.read_u8(0x000F_0000).unwrap(), 0xEA);
}

#[test]
fn with_bios_rom_constructor_maps_alias() {
    let m = with_bios_rom(1024 * 1024, &synthetic_bios_64k()).unwrap();
    assert_eq!(m.read_u8(0xFFFF_FFF0).unwrap(), 0xF4);
    assert_eq!(m.read_u8(0x000F_FFF0).unwrap(), 0xF4);
}

#[test]
fn load_bios_rom_rejects_empty() {
    let mut m = PhysMem::new(64 * 1024);
    assert!(matches!(load_bios_rom(&mut m, &[]), Err(MachineError::BiosRom(BiosRomError::Empty))));
}
