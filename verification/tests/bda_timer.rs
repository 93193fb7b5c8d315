use machine_pc::bda_timer::{
    advance_bda_timer_tick, bda_timer_overflow, bda_timer_ticks, clear_bda_timer_ticks,
    set_bda_timer_ticks, BDA_TICKS_PER_DAY, BDA_TIMER_OVERFLOW, BDA_TIMER_TICKS,
};
use machine_pc::mem::PhysMem;

#[test]
fn midnight_wrap_sets_overflow_flag() {
    let mut m = PhysMem::new(64 * 1024);
    set_bda_timer_ticks(&mut m, BDA_TICKS_PER_DAY - 1);
    m.write_u8(BDA_TIMER_OVERFLOW, 0).unwrap();
    advance_bda_timer_tick(&mut m);
    assert_eq!(bda_timer_ticks(&m), 0);
    assert_eq!(bda_timer_overflow(&m), 1);
}

#[test]
fn advance_helper_increments_dword() {
    let mut m = PhysMem::new(64 * 1024);
    clear_bda_timer_ticks(&mut m);
    advance_bda_timer_tick(&mut m);
    advance_bda_timer_tick(&mut m);
    assert_eq!(bda_timer_ticks(&m), 2);
    assert_eq!(bda_timer_overflow(&m), 0);
}

#[test]
fn timer_ticks_are_little_endian_at_40_6c() {
    let mut m = PhysMem::new(64 * 1024);
    set_bda_timer_ticks(&mut m, 0x0012_3456);
    assert_eq!(m.read_u8(BDA_TIMER_TICKS).unwrap(), 0x56);
    assert_eq!(m.read_u8(BDA_TIMER_TICKS + 1).unwrap(), 0x34);
    assert_eq!(m.read_u8(BDA_TIMER_TICKS + 2).unwrap(), 0x12);
    assert_eq!(m.read_u8(BDA_TIMER_TICKS + 3).unwrap(), 0x00);
    assert_eq!(bda_timer_ticks(&m), 0x0012_3456);
}

#[test]
fn timer_max_count_wraps_without_flag() {
    let mut m = PhysMem::new(64 * 1024);
    set_bda_timer_ticks(&mut m, u32::MAX);
    m.write_u8(BDA_TIMER_OVERFLOW, 0).unwrap();
    advance_bda_timer_tick(&mut m);
    assert_eq!(bda_timer_ticks(&m), 0);
    assert_eq!(bda_timer_overflow(&m), 0);
}
