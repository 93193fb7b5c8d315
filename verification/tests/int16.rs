use machine_pc::bda_kbd::{
    bda_kbd_inject_key, bda_kbd_len, bda_kbd_mode, seed_bda_keyboard_flags, service_kbd_irq1_bda,
    set_bda_kbd_flag1, set_bda_kbd_flag2, BDA_KBD_MODE, KBD_FLAG1_ALT, KBD_FLAG1_CAPS_LOCK,
    KBD_FLAG1_CTRL, KBD_FLAG1_LEFT_SHIFT, KBD_FLAG1_NUM_LOCK, KBD_FLAG1_RIGHT_SHIFT,
    KBD_FLAG1_SCROLL_LOCK, KBD_FLAG2_LEFT_ALT, KBD_FLAG2_LEFT_CTRL, KBD_MODE_RIGHT_ALT,
    KBD_MODE_RIGHT_CTRL,
};
use machine_pc::int16::{
    service_int16, Int16Buffer, Int16Key, Int16Regs, INT16_AH_CHECK_KEYSTROKE,
    INT16_AH_EXTENDED_SHIFT_STATUS, INT16_AH_GET_KEYSTROKE, INT16_AH_SHIFT_STATUS,
    INT16_BUFFER_CAP,
};
use machine_pc::ivt::install_int16_ivt_pointer;
use machine_pc::mem::PhysMem;

fn ax(r: &Int16Regs) -> u16 {
    (u16::from(r.ah) << 8) | u16::from(r.al)
}

fn call(mem: &mut PhysMem, buf: &mut Int16Buffer, r: &mut Int16Regs, ah: u8) {
    r.ah = ah;
    service_int16(mem, buf, r);
}

fn regs() -> Int16Regs {
    Int16Regs { ah: 0, al: 0, zf: false }
}

#[test]
fn int16_ah01_check_empty_and_ready() {
    let mut mem = PhysMem::new(64 * 1024);
    let mut buf = Int16Buffer::new();
    let mut r = regs();
    call(&mut mem, &mut buf, &mut r, INT16_AH_CHECK_KEYSTROKE);
    assert!(r.zf);

    assert!(buf.int16_push_key(b'A', 0x1E));
    call(&mut mem, &mut buf, &mut r, INT16_AH_CHECK_KEYSTROKE);
    assert!(!r.zf);
    assert_eq!(ax(&r), 0x1E41);
    assert_eq!(buf.int16_buffer_len(), 1);
}

#[test]
fn int16_ah00_get_removes_key() {
    let mut mem = PhysMem::new(64 * 1024);
    let mut buf = Int16Buffer::new();
    let mut r = regs();
    assert!(buf.int16_push_key(b'A', 0x1E));
    assert!(buf.int16_push_key(b'B', 0x30));
    call(&mut mem, &mut buf, &mut r, INT16_AH_GET_KEYSTROKE);
    assert!(!r.zf);
    assert_eq!(ax(&r), 0x1E41);
    assert_eq!(buf.int16_buffer_len(), 1);

    call(&mut mem, &mut buf, &mut r, INT16_AH_GET_KEYSTROKE);
    assert_eq!(ax(&r), 0x3042);
    assert_eq!(buf.int16_buffer_len(), 0);
}

#[test]
fn int16_ah00_empty_sets_zf() {
    let mut mem = PhysMem::new(64 * 1024);
    let mut buf = Int16Buffer::new();
    let mut r = Int16Regs { ah: 0x12, al: 0x34, zf: false };
    call(&mut mem, &mut buf, &mut r, INT16_AH_GET_KEYSTROKE);
    assert!(r.zf);
    assert_eq!(ax(&r) & 0xFF, 0x34, "AL preserved on empty get");
}

#[test]
fn int16_buffer_cap_and_reset() {
    let mut buf = Int16Buffer::new();
    for i in 0..INT16_BUFFER_CAP {
        assert!(buf.int16_push_key(i as u8, 0x10));
    }
    assert!(!buf.int16_push_key(0xFF, 0x10));
    buf.int16_clear();
    assert_eq!(buf.int16_buffer_len(), 0);
}

#[test]
fn int16_ivt_pointer_install() {
    let mut mem = PhysMem::new(64 * 1024);
    install_int16_ivt_pointer(&mut mem, 0xF000, 0xE100);
    assert_eq!(mem.read_u8(0x16 * 4).unwrap(), 0x00);
    assert_eq!(mem.read_u8(0x16 * 4 + 1).unwrap(), 0xE1);
    assert_eq!(mem.read_u8(0x16 * 4 + 2).unwrap(), 0x00);
    assert_eq!(mem.read_u8(0x16 * 4 + 3).unwrap(), 0xF0);
}

#[test]
fn int16_falls_back_to_bda_ring() {
    let mut mem = PhysMem::new(64 * 1024);
    let mut buf = Int16Buffer::new();
    let mut r = regs();
    assert!(bda_kbd_inject_key(&mut mem, b'A', 0x1E));

    call(&mut mem, &mut buf, &mut r, INT16_AH_CHECK_KEYSTROKE);
    assert!(!r.zf);
    assert_eq!(ax(&r), 0x1E41);
    assert_eq!(bda_kbd_len(&mem), 1);

    call(&mut mem, &mut buf, &mut r, INT16_AH_GET_KEYSTROKE);
    assert!(!r.zf);
    assert_eq!(ax(&r), 0x1E41);
    assert_eq!(bda_kbd_len(&mem), 0);
}

#[test]
fn int16_host_buffer_before_bda_ring() {
    let mut mem = PhysMem::new(64 * 1024);
    let mut buf = Int16Buffer::new();
    let mut r = regs();
    assert!(bda_kbd_inject_key(&mut mem, b'x', 0x2D));
    assert!(buf.int16_push_key(b'y', 0x15));
    call(&mut mem, &mut buf, &mut r, INT16_AH_GET_KEYSTROKE);
    assert_eq!((r.al, r.ah), (b'y', 0x15));
    assert_eq!(bda_kbd_len(&mem), 1);
    call(&mut mem, &mut buf, &mut r, INT16_AH_GET_KEYSTROKE);
    assert_eq!((r.al, r.ah), (b'x', 0x2D));
}

#[test]
fn int16_ah02_returns_bda_shift_flags() {
    let mut mem = PhysMem::new(64 * 1024);
    let mut buf = Int16Buffer::new();
    seed_bda_keyboard_flags(&mut mem, 0x04);
    let flags = KBD_FLAG1_LEFT_SHIFT
        | KBD_FLAG1_RIGHT_SHIFT
        | KBD_FLAG1_CTRL
        | KBD_FLAG1_ALT
        | KBD_FLAG1_SCROLL_LOCK
        | KBD_FLAG1_NUM_LOCK
        | KBD_FLAG1_CAPS_LOCK;
    set_bda_kbd_flag1(&mut mem, flags);
    let mut r = Int16Regs { ah: 0xFF, al: 0xFF, zf: true };
    call(&mut mem, &mut buf, &mut r, INT16_AH_SHIFT_STATUS);
    assert!(!r.zf);
    assert_eq!(r.al, flags);
}

#[test]
fn int16_ah02_after_modifier_inject() {
    let mut mem = PhysMem::new(64 * 1024);
    let mut buf = Int16Buffer::new();
    seed_bda_keyboard_flags(&mut mem, 0x04);
    assert!(service_kbd_irq1_bda(&mut mem, 0x2A).0.is_none());
    assert_eq!(bda_kbd_len(&mem), 0);
    let mut r = regs();
    call(&mut mem, &mut buf, &mut r, INT16_AH_SHIFT_STATUS);
    assert_eq!(r.al & KBD_FLAG1_LEFT_SHIFT, KBD_FLAG1_LEFT_SHIFT);
}

#[test]
fn int16_ah12_extended_shift_status() {
    let mut mem = PhysMem::new(64 * 1024);
    let mut buf = Int16Buffer::new();
    seed_bda_keyboard_flags(&mut mem, 0x04);
    set_bda_kbd_flag1(&mut mem, KBD_FLAG1_CTRL | KBD_FLAG1_ALT | KBD_FLAG1_LEFT_SHIFT);
    set_bda_kbd_flag2(&mut mem, KBD_FLAG2_LEFT_CTRL | KBD_FLAG2_LEFT_ALT);
    let mode = bda_kbd_mode(&mem) | KBD_MODE_RIGHT_CTRL | KBD_MODE_RIGHT_ALT;
    mem.write_u8(BDA_KBD_MODE, mode).unwrap();
    let mut r = regs();
    call(&mut mem, &mut buf, &mut r, INT16_AH_EXTENDED_SHIFT_STATUS);
    assert!(!r.zf);
    assert_eq!(r.al, KBD_FLAG1_CTRL | KBD_FLAG1_ALT | KBD_FLAG1_LEFT_SHIFT);
    assert_eq!(r.ah, 0x0F);
}

#[test]
fn int16_ah12_right_ctrl_via_e0() {
    let mut mem = PhysMem::new(64 * 1024);
    let mut buf = Int16Buffer::new();
    seed_bda_keyboard_flags(&mut mem, 0x04);
    assert!(service_kbd_irq1_bda(&mut mem, 0xE0).0.is_none());
    assert!(service_kbd_irq1_bda(&mut mem, 0x1D).0.is_none());
    let mut r = regs();
    call(&mut mem, &mut buf, &mut r, INT16_AH_EXTENDED_SHIFT_STATUS);
    assert_eq!(r.al & KBD_FLAG1_CTRL, KBD_FLAG1_CTRL);
    assert_eq!(r.ah & (1 << 2), 1 << 2);
    assert_eq!(r.ah & (1 << 0), 0, "left Ctrl not set");
}

#[test]
fn int16_unknown_function_sets_zf_only() {
    let mut mem = PhysMem::new(64 * 1024);
    let mut buf = Int16Buffer::new();
    assert!(buf.int16_push_key(b'q', 0x10));
    let mut r = Int16Regs { ah: 0x05, al: 0x77, zf: false };
    service_int16(&mut mem, &mut buf, &mut r);
    assert_eq!(r, Int16Regs { ah: 0x05, al: 0x77, zf: true });
    assert_eq!(buf.int16_buffer_len(), 1);
    assert_eq!(Int16Key::new(b'q', 0x10).ax(), 0x1071);
}
