use machine_pc::bda_kbd::{
    advance_bda_kbd_off, apply_set1_modifier, bda_kbd_count, bda_kbd_dequeue, bda_kbd_enqueue,
    bda_kbd_flag1, bda_kbd_flag2, bda_kbd_inject_key, bda_kbd_len, bda_kbd_mode, bda_kbd_peek,
    extended_shift_ah, init_bda_kbd_buffer, int16_extended_shift_ah, led_mirror,
    recompute_ctrl_alt, seed_bda_keyboard_flags, service_kbd_irq1_bda, set1_make_to_ascii,
    set_bda_kbd_flag1, BDA_KBD_BUF_START, BDA_KBD_BUF_START_OFF, BDA_KBD_CAPACITY, BDA_KBD_HEAD,
    BDA_KBD_LEDS, BDA_KBD_TAIL, KBD_FLAG1_ALT, KBD_FLAG1_CAPS_LOCK, KBD_FLAG1_CTRL,
    KBD_FLAG1_LEFT_SHIFT, KBD_FLAG1_NUM_LOCK, KBD_FLAG2_LEFT_CTRL, KBD_LED_CAPS, KBD_LED_NUM,
    KBD_MODE_ENHANCED, KBD_MODE_RIGHT_CTRL,
};
use machine_pc::guest_boot::BDA_EQUIPMENT;
use machine_pc::mem::PhysMem;

/// Keyboard-enabled bit of the equipment byte, as the platform seeds it.
const EQUIP_KEYBOARD_ENABLED: u8 = 0x04;

fn read_word(m: &PhysMem, phys: u64) -> u16 {
    let lo = m.read_u8(phys).unwrap();
    let hi = m.read_u8(phys + 1).unwrap();
    u16::from(lo) | (u16::from(hi) << 8)
}

#[test]
fn bda_kbd_init_empty_ring() {
    let mut m = PhysMem::new(64 * 1024);
    init_bda_kbd_buffer(&mut m);
    assert_eq!(read_word(&m, BDA_KBD_HEAD), BDA_KBD_BUF_START_OFF);
    assert_eq!(read_word(&m, BDA_KBD_TAIL), BDA_KBD_BUF_START_OFF);
    assert_eq!(bda_kbd_len(&m), 0);
}

#[test]
fn bda_kbd_inject_enqueues_word() {
    let mut m = PhysMem::new(64 * 1024);
    assert!(bda_kbd_inject_key(&mut m, b'A', 0x1E));
    assert_eq!(bda_kbd_len(&m), 1);
    assert_eq!(read_word(&m, BDA_KBD_BUF_START), 0x1E41);
    assert_eq!(read_word(&m, BDA_KBD_HEAD), BDA_KBD_BUF_START_OFF);
    assert_eq!(read_word(&m, BDA_KBD_TAIL), BDA_KBD_BUF_START_OFF + 2);
}

#[test]
fn bda_kbd_ring_full() {
    let mut m = PhysMem::new(64 * 1024);
    init_bda_kbd_buffer(&mut m);
    for i in 0..BDA_KBD_CAPACITY {
        assert!(bda_kbd_enqueue(&mut m, i as u8, 0x10), "slot {i} should enqueue");
    }
    assert!(!bda_kbd_enqueue(&mut m, 0xFF, 0x10));
    assert_eq!(bda_kbd_len(&m), BDA_KBD_CAPACITY);
}

#[test]
fn irq1_scancode_drains_to_bda() {
    let mut m = PhysMem::new(64 * 1024);
    // Set-1 'A' make, as the controller hands it over after translation.
    let got = service_kbd_irq1_bda(&mut m, 0x1E);
    assert_eq!(got, (Some((b'a', 0x1E)), None));
    assert_eq!(bda_kbd_len(&m), 1);
    assert_eq!(read_word(&m, BDA_KBD_BUF_START), 0x1E61);
}

#[test]
fn break_code_not_enqueued() {
    let mut m = PhysMem::new(64 * 1024);
    init_bda_kbd_buffer(&mut m);
    let got = service_kbd_irq1_bda(&mut m, 0x9E);
    assert!(got.0.is_none());
    assert_eq!(bda_kbd_len(&m), 0);
}

#[test]
fn bda_kbd_peek_and_dequeue() {
    let mut m = PhysMem::new(64 * 1024);
    assert!(bda_kbd_inject_key(&mut m, b'A', 0x1E));
    assert_eq!(bda_kbd_peek(&m), Some((b'A', 0x1E)));
    assert_eq!(bda_kbd_len(&m), 1);
    assert_eq!(bda_kbd_dequeue(&mut m), Some((b'A', 0x1E)));
    assert_eq!(bda_kbd_len(&m), 0);
    assert_eq!(bda_kbd_dequeue(&mut m), None);
}

#[test]
fn seed_bda_keyboard_flags_for_freedos() {
    let mut m = PhysMem::new(64 * 1024);
    let equipment: u8 = 0x05;
    seed_bda_keyboard_flags(&mut m, equipment);
    let equip = m.read_u8(BDA_EQUIPMENT).unwrap();
    assert_eq!(equip, equipment);
    assert_ne!(equip & EQUIP_KEYBOARD_ENABLED, 0, "keyboard enabled bit2");
    assert_eq!(equip & 0x01, equipment & 0x01, "bit0 tracks floppy media only");
    assert_eq!(bda_kbd_flag1(&m), 0);
    assert_eq!(bda_kbd_flag2(&m), 0);
    assert_eq!(bda_kbd_mode(&m) & KBD_MODE_ENHANCED, KBD_MODE_ENHANCED);
    assert_eq!(m.read_u8(BDA_KBD_LEDS).unwrap(), 0);
    assert_eq!(read_word(&m, BDA_KBD_HEAD), BDA_KBD_BUF_START_OFF);
}

#[test]
fn irq1_shift_updates_bda_flag1() {
    let mut m = PhysMem::new(64 * 1024);
    seed_bda_keyboard_flags(&mut m, 0x04);
    assert!(service_kbd_irq1_bda(&mut m, 0x2A).0.is_none());
    assert_eq!(bda_kbd_flag1(&m) & KBD_FLAG1_LEFT_SHIFT, KBD_FLAG1_LEFT_SHIFT);
    assert_eq!(bda_kbd_len(&m), 0);
    assert!(service_kbd_irq1_bda(&mut m, 0xAA).0.is_none());
    assert_eq!(bda_kbd_flag1(&m) & KBD_FLAG1_LEFT_SHIFT, 0);
}

#[test]
fn irq1_caps_lock_toggles_and_mirrors_leds() {
    let mut m = PhysMem::new(64 * 1024);
    seed_bda_keyboard_flags(&mut m, 0x04);
    let (word, leds) = service_kbd_irq1_bda(&mut m, 0x3A);
    assert!(word.is_none());
    assert_eq!(bda_kbd_flag1(&m) & KBD_FLAG1_CAPS_LOCK, KBD_FLAG1_CAPS_LOCK);
    assert_eq!(m.read_u8(BDA_KBD_LEDS).unwrap() & KBD_LED_CAPS, KBD_LED_CAPS);
    // The LED mask handed back is what the controller is told to light.
    assert_eq!(leds.unwrap() & KBD_LED_CAPS, KBD_LED_CAPS);
}

#[test]
fn irq1_ring_full_still_updates_shift_flags() {
    let mut m = PhysMem::new(64 * 1024);
    init_bda_kbd_buffer(&mut m);
    for i in 0..BDA_KBD_CAPACITY {
        assert!(bda_kbd_enqueue(&mut m, i as u8, 0x10));
    }
    assert_eq!(bda_kbd_len(&m), BDA_KBD_CAPACITY);
    assert!(service_kbd_irq1_bda(&mut m, 0x1E).0.is_none());
    assert_eq!(bda_kbd_len(&m), BDA_KBD_CAPACITY);
    assert!(service_kbd_irq1_bda(&mut m, 0x2A).0.is_none());
    assert_eq!(bda_kbd_flag1(&m) & KBD_FLAG1_LEFT_SHIFT, KBD_FLAG1_LEFT_SHIFT);
}

#[test]
fn irq1_e0_right_ctrl_sets_mode_and_flag1() {
    let mut m = PhysMem::new(64 * 1024);
    seed_bda_keyboard_flags(&mut m, 0x04);
    assert!(service_kbd_irq1_bda(&mut m, 0xE0).0.is_none());
    assert!(service_kbd_irq1_bda(&mut m, 0x1D).0.is_none());
    assert_eq!(bda_kbd_mode(&m) & KBD_MODE_RIGHT_CTRL, KBD_MODE_RIGHT_CTRL);
    assert_eq!(bda_kbd_flag1(&m) & KBD_FLAG1_CTRL, KBD_FLAG1_CTRL);
    assert_eq!(int16_extended_shift_ah(&m) & (1 << 2), 1 << 2);
}

#[test]
fn irq1_modifiers_coherent_with_int16_get() {
    let mut m = PhysMem::new(64 * 1024);
    seed_bda_keyboard_flags(&mut m, 0x04);
    assert!(service_kbd_irq1_bda(&mut m, 0x2A).0.is_none());
    assert_eq!(service_kbd_irq1_bda(&mut m, 0x1E).0, Some((b'a', 0x1E)));
    assert_eq!(bda_kbd_peek(&m), Some((0x61, 0x1E)));
    assert_eq!(bda_kbd_dequeue(&mut m), Some((0x61, 0x1E)));
    assert_eq!(bda_kbd_len(&m), 0);
    assert_eq!(bda_kbd_flag1(&m) & KBD_FLAG1_LEFT_SHIFT, KBD_FLAG1_LEFT_SHIFT);
}

#[test]
fn kbd_ring_is_first_in_first_out_across_wrap() {
    let mut m = PhysMem::new(64 * 1024);
    init_bda_kbd_buffer(&mut m);
    // Move head and tail near the end so the next pushes wrap.
    for i in 0..14u8 {
        assert!(bda_kbd_enqueue(&mut m, i, 0x20));
        assert_eq!(bda_kbd_dequeue(&mut m), Some((i, 0x20)));
    }
    for i in 0..5u8 {
        assert!(bda_kbd_enqueue(&mut m, b'a' + i, 0x30 + i));
    }
    assert_eq!(bda_kbd_len(&m), 5);
    for i in 0..5u8 {
        assert_eq!(bda_kbd_dequeue(&mut m), Some((b'a' + i, 0x30 + i)));
    }
    assert_eq!(bda_kbd_dequeue(&mut m), None);
}

#[test]
fn kbd_offset_wraps_at_buffer_end() {
    assert_eq!(advance_bda_kbd_off(0x1E), 0x20);
    assert_eq!(advance_bda_kbd_off(0x3A), 0x3C);
    assert_eq!(advance_bda_kbd_off(0x3C), 0x1E);
    assert_eq!(advance_bda_kbd_off(0xFFFE), 0);
    assert_eq!(advance_bda_kbd_off(0x3E), 0x1E);
}

#[test]
fn kbd_count_closed_form_examples() {
    assert_eq!(bda_kbd_count(0x1E, 0x1E), 0);
    assert_eq!(bda_kbd_count(0x1E, 0x24), 3);
    assert_eq!(bda_kbd_count(0x3A, 0x20), 3);
    assert_eq!(bda_kbd_count(0x20, 0x1E), 15);
}

#[test]
fn kbd_set1_ascii_table() {
    assert_eq!(set1_make_to_ascii(0x1E), b'a');
    assert_eq!(set1_make_to_ascii(0x02), b'1');
    assert_eq!(set1_make_to_ascii(0x0B), b'0');
    assert_eq!(set1_make_to_ascii(0x1C), 0x0D);
    assert_eq!(set1_make_to_ascii(0x39), b' ');
    assert_eq!(set1_make_to_ascii(0x3B), 0);
}

#[test]
fn kbd_ctrl_alt_and_leds() {
    assert_eq!(recompute_ctrl_alt(0, KBD_FLAG2_LEFT_CTRL, 0), KBD_FLAG1_CTRL);
    assert_eq!(recompute_ctrl_alt(KBD_FLAG1_CTRL | KBD_FLAG1_ALT, 0, 0), 0);
    assert_eq!(led_mirror(KBD_FLAG1_CAPS_LOCK | KBD_FLAG1_NUM_LOCK), KBD_LED_CAPS | KBD_LED_NUM);
    assert_eq!(extended_shift_ah(KBD_FLAG2_LEFT_CTRL, KBD_MODE_RIGHT_CTRL), 0x05);
}

#[test]
fn kbd_caps_lock_twice_restores_flag() {
    let mut m = PhysMem::new(64 * 1024);
    seed_bda_keyboard_flags(&mut m, 0x04);
    set_bda_kbd_flag1(&mut m, 0);
    let first = apply_set1_modifier(&mut m, 0x3A, false);
    assert!(first.handled);
    assert_eq!(first.flag1 & KBD_FLAG1_CAPS_LOCK, KBD_FLAG1_CAPS_LOCK);
    // Release, then press again: the lock goes back off.
    apply_set1_modifier(&mut m, 0xBA, false);
    let second = apply_set1_modifier(&mut m, 0x3A, false);
    assert_eq!(second.flag1 & KBD_FLAG1_CAPS_LOCK, 0);
    assert_eq!(second.leds, Some(0));
}
