use machine_pc::int10::{
    service_int10, setup_int10_set_mode, setup_int10_teletype, teletype_step, Int10Action,
    Int10Regs, BDA_CURSOR_PAGE0, BDA_VIDEO_COLS, BDA_VIDEO_MODE, INT10_MODE_03H_TEXT,
    INT10_MODE_13H_GRAPHICS,
};
use machine_pc::ivt::install_int10_ivt_pointer;
use machine_pc::mem::PhysMem;

fn regs() -> Int10Regs {
    Int10Regs { ah: 0, al: 0 }
}

#[test]
fn int10_ah00_mode03_resets_text() {
    let mut m = PhysMem::new(1024 * 1024);
    let mut r = regs();
    setup_int10_set_mode(&mut r, INT10_MODE_03H_TEXT);
    assert_eq!(service_int10(&mut m, r, false), Int10Action::ResetText);
    assert_eq!(m.read_u8(BDA_VIDEO_MODE).unwrap(), INT10_MODE_03H_TEXT);
    assert_eq!(m.read_u8(BDA_VIDEO_COLS).unwrap(), 80);
    assert_eq!(m.read_u8(BDA_CURSOR_PAGE0).unwrap(), 0);
    assert_eq!(m.read_u8(BDA_CURSOR_PAGE0 + 1).unwrap(), 0);
}

#[test]
fn int10_ah00_mode13_programs_chain4() {
    let mut m = PhysMem::new(1024 * 1024);
    let mut r = regs();
    setup_int10_set_mode(&mut r, INT10_MODE_13H_GRAPHICS);
    assert_eq!(service_int10(&mut m, r, true), Int10Action::ProgramMode13h);
    assert_eq!(m.read_u8(BDA_VIDEO_MODE).unwrap(), INT10_MODE_13H_GRAPHICS);
    assert_eq!(m.read_u8(BDA_VIDEO_COLS).unwrap(), 40);
}

#[test]
fn int10_ah0e_teletype_writes_and_advances_cursor() {
    let mut m = PhysMem::new(1024 * 1024);
    let mut r = regs();
    setup_int10_set_mode(&mut r, INT10_MODE_03H_TEXT);
    service_int10(&mut m, r, true);
    setup_int10_teletype(&mut r, b'H');
    assert_eq!(service_int10(&mut m, r, true), Int10Action::PutChar { row: 0, col: 0, ch: b'H' });
    setup_int10_teletype(&mut r, b'i');
    assert_eq!(service_int10(&mut m, r, true), Int10Action::PutChar { row: 0, col: 1, ch: b'i' });
    assert_eq!(m.read_u8(BDA_CURSOR_PAGE0).unwrap(), 2);
    assert_eq!(m.read_u8(BDA_CURSOR_PAGE0 + 1).unwrap(), 0);
}

#[test]
fn int10_ah0e_handles_cr_lf() {
    let mut m = PhysMem::new(1024 * 1024);
    let mut r = regs();
    setup_int10_set_mode(&mut r, INT10_MODE_03H_TEXT);
    service_int10(&mut m, r, true);
    setup_int10_teletype(&mut r, b'A');
    assert_eq!(service_int10(&mut m, r, true), Int10Action::PutChar { row: 0, col: 0, ch: b'A' });
    setup_int10_teletype(&mut r, 0x0D);
    assert_eq!(service_int10(&mut m, r, true), Int10Action::Nothing);
    setup_int10_teletype(&mut r, 0x0A);
    assert_eq!(service_int10(&mut m, r, true), Int10Action::Nothing);
    setup_int10_teletype(&mut r, b'B');
    assert_eq!(service_int10(&mut m, r, true), Int10Action::PutChar { row: 1, col: 0, ch: b'B' });
    assert_eq!(m.read_u8(BDA_CURSOR_PAGE0).unwrap(), 1);
    assert_eq!(m.read_u8(BDA_CURSOR_PAGE0 + 1).unwrap(), 1);
}

#[test]
fn int10_ivt_pointer_install() {
    let mut m = PhysMem::new(64 * 1024);
    install_int10_ivt_pointer(&mut m, 0xF000, 0xF065);
    assert_eq!(m.read_u8(0x40).unwrap(), 0x65);
    assert_eq!(m.read_u8(0x41).unwrap(), 0xF0);
    assert_eq!(m.read_u8(0x42).unwrap(), 0x00);
    assert_eq!(m.read_u8(0x43).unwrap(), 0xF0);
}

#[test]
fn int10_unsupported_ah_is_noop() {
    let mut m = PhysMem::new(1024 * 1024);
    m.write_u8(BDA_CURSOR_PAGE0, 7).unwrap();
    let r = Int10Regs { ah: 0x0F, al: 0 };
    assert_eq!(service_int10(&mut m, r, true), Int10Action::Nothing);
    assert_eq!(m.read_u8(BDA_CURSOR_PAGE0).unwrap(), 7);
}

#[test]
fn int10_teletype_wraps_and_ignores_graphics() {
    assert_eq!(teletype_step(3, 79, b'x'), ((4, 0), true));
    assert_eq!(teletype_step(24, 79, b'x'), ((24, 0), true));
    assert_eq!(teletype_step(24, 5, 0x0A), ((24, 5), false));
    assert_eq!(teletype_step(2, 0, 0x08), ((2, 0), false));
    let mut m = PhysMem::new(1024 * 1024);
    let r = Int10Regs { ah: 0x0E, al: b'q' };
    assert_eq!(service_int10(&mut m, r, false), Int10Action::Nothing);
    assert_eq!(m.read_u8(BDA_CURSOR_PAGE0).unwrap(), 0);
}

#[test]
fn teletype_controls_at_the_byte_limit() {
    assert_eq!(teletype_step(255, 255, 0x0D), ((255, 0), false));
    assert_eq!(teletype_step(255, 255, 0x08), ((255, 254), false));
    assert_eq!(teletype_step(255, 255, 0x07), ((255, 255), false));
    assert_eq!(teletype_step(255, 3, b'x'), ((255, 4), true));
    assert_eq!(teletype_step(3, 255, 0x0A), ((4, 255), false));
}
