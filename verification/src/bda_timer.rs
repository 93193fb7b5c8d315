//! BDA timer tick count (`0040:006C`) and its midnight flag (`0040:0070`),
//! advanced once per IRQ0 tick.
use vstd::prelude::*;
use crate::bytes::{le32, le32_bytes, le32_seq, read_le32};
use crate::mem::{
    byte_writes, lemma_plain_writes, lemma_read_after_byte_writes, lemma_read_after_prefixed_outside,
    lemma_read_after_prefixed_writes, lemma_writes_concat, lemma_writes_none, write_all, writes_to,
    PhysMem,
};

verus! {

/// Timer ticks since midnight: dword at `0040:006C`.
pub const BDA_TIMER_TICKS: u64 = 0x46C;

/// Midnight rolled over: byte at `0040:0070`.
pub const BDA_TIMER_OVERFLOW: u64 = 0x470;

/// Ticks in 24 hours at the classic PC rate.
pub const BDA_TICKS_PER_DAY: u32 = 0x0018_00B0;

/// The tick dword memory `m` holds.
pub open spec fn ticks_spec(m: PhysMem) -> u32 {
    le32(
        m.read_spec(BDA_TIMER_TICKS),
        m.read_spec((BDA_TIMER_TICKS + 1) as u64),
        m.read_spec((BDA_TIMER_TICKS + 2) as u64),
        m.read_spec((BDA_TIMER_TICKS + 3) as u64),
    ) as u32
}

fn read_byte(mem: &PhysMem, p: u64) -> (r: u8)
    requires
        mem.wf(),
    ensures
        r == mem.read_spec(p),
{
    match mem.read_u8(p) {
        Ok(b) => b,
        Err(_) => 0,
    }
}

/// Read the tick dword (`0040:006C`).
pub fn bda_timer_ticks(mem: &PhysMem) -> (r: u32)
    requires
        mem.wf(),
    ensures
        r == ticks_spec(*mem),
{
    read_le32(
        read_byte(mem, BDA_TIMER_TICKS),
        read_byte(mem, BDA_TIMER_TICKS + 1),
        read_byte(mem, BDA_TIMER_TICKS + 2),
        read_byte(mem, BDA_TIMER_TICKS + 3),
    )
}

/// Write the tick dword (`0040:006C`), least significant byte first.
pub fn set_bda_timer_ticks(mem: &mut PhysMem, ticks: u32)
    requires
        old(mem).wf(),
    ensures
        final(mem).wf(),
        writes_to(*old(mem), *final(mem), byte_writes(BDA_TIMER_TICKS, le32_seq(ticks))),
{
    let (b0, b1, b2, b3) = le32_bytes(ticks);
    let bytes: Vec<u8> = vec![b0, b1, b2, b3];
    assert(bytes@ =~= le32_seq(ticks));
    write_all(mem, BDA_TIMER_TICKS, bytes.as_slice());
}

/// Read the midnight flag (`0040:0070`).
pub fn bda_timer_overflow(mem: &PhysMem) -> (r: u8)
    requires
        mem.wf(),
    ensures
        r == mem.read_spec(BDA_TIMER_OVERFLOW),
{
    read_byte(mem, BDA_TIMER_OVERFLOW)
}

/// The one-byte write of `v` to the midnight flag.
pub open spec fn overflow_write(v: u8) -> Seq<(u64, u8)> {
    byte_writes(BDA_TIMER_OVERFLOW, seq![v])
}

fn write_overflow(mem: &mut PhysMem, v: u8)
    requires
        old(mem).wf(),
    ensures
        final(mem).wf(),
        writes_to(*old(mem), *final(mem), overflow_write(v)),
{
    let bytes: Vec<u8> = vec![v];
    assert(bytes@ =~= seq![v]);
    write_all(mem, BDA_TIMER_OVERFLOW, bytes.as_slice());
}

/// Clear the ticks and the midnight flag (cold start).
pub fn clear_bda_timer_ticks(mem: &mut PhysMem)
    requires
        old(mem).wf(),
    ensures
        final(mem).wf(),
        writes_to(*old(mem), *final(mem), byte_writes(BDA_TIMER_TICKS, le32_seq(0)) + overflow_write(0)),
{
    let ghost m0 = *mem;
    set_bda_timer_ticks(mem, 0);
    let ghost m1 = *mem;
    write_overflow(mem, 0);
    proof {
        lemma_writes_concat(m0, m1, *mem, byte_writes(BDA_TIMER_TICKS, le32_seq(0)), overflow_write(0));
    }
}

/// The tick after `t`: one more modulo 2^32, back to 0 at 24 hours.
pub open spec fn next_tick(t: u32) -> u32 {
    if t == u32::MAX || t + 1 >= BDA_TICKS_PER_DAY {
        0
    } else {
        (t + 1) as u32
    }
}

/// Whether the tick after `t` rolls past midnight (a count already at
/// `FFFFFFFFh` wraps to 0 without setting the flag).
pub open spec fn rolls_over(t: u32) -> bool {
    t != u32::MAX && t + 1 >= BDA_TICKS_PER_DAY
}

/// The writes of one tick from `t`: the midnight flag set when it rolls
/// over, then the new tick dword.
pub open spec fn tick_writes(t: u32) -> Seq<(u64, u8)> {
    (if rolls_over(t) {
        overflow_write(1)
    } else {
        Seq::empty()
    }) + byte_writes(BDA_TIMER_TICKS, le32_seq(next_tick(t)))
}

/// Advance the ticks by one IRQ0 tick; at 24 hours they wrap to 0 and the
/// midnight flag is set.
pub fn advance_bda_timer_tick(mem: &mut PhysMem)
    requires
        old(mem).wf(),
    ensures
        final(mem).wf(),
        writes_to(*old(mem), *final(mem), tick_writes(ticks_spec(*old(mem)))),
{
    let ghost m0 = *mem;
    let mut ticks = bda_timer_ticks(mem);
    ticks = ticks.wrapping_add(1);
    if ticks >= BDA_TICKS_PER_DAY {
        ticks = 0;
        write_overflow(mem, 1);
    } else {
        proof {
            lemma_writes_none(m0);
        }
    }
    let ghost m1 = *mem;
    set_bda_timer_ticks(mem, ticks);
    proof {
        let t = ticks_spec(m0);
        let first = if rolls_over(t) {
            overflow_write(1)
        } else {
            Seq::empty()
        };
        lemma_writes_concat(m0, m1, *mem, first, byte_writes(BDA_TIMER_TICKS, le32_seq(next_tick(t))));
    }
}

proof fn lemma_le32_seq_value(v: u32)
    ensures
        le32(le32_seq(v)[0], le32_seq(v)[1], le32_seq(v)[2], le32_seq(v)[3]) == v,
{
}

/// Where the timer fields are plain RAM, one tick reads back as the next
/// tick count; the midnight flag reads 1 after a rollover and is left as
/// it was otherwise.
pub proof fn law_timer_tick_reads_back(m: PhysMem, m2: PhysMem)
    requires
        m.wf(),
        m.plain_ram_range(BDA_TIMER_TICKS, (BDA_TIMER_OVERFLOW + 1) as u64),
        writes_to(m, m2, tick_writes(ticks_spec(m))),
    ensures
        ticks_spec(m2) == next_tick(ticks_spec(m)),
        m2.read_spec(BDA_TIMER_OVERFLOW) == (if rolls_over(ticks_spec(m)) {
            1u8
        } else {
            m.read_spec(BDA_TIMER_OVERFLOW)
        }),
{
    let t = ticks_spec(m);
    let data = le32_seq(next_tick(t));
    let first = if rolls_over(t) {
        overflow_write(1)
    } else {
        Seq::<(u64, u8)>::empty()
    };
    let w = tick_writes(t);
    assert forall|i: int| 0 <= i < w.len() implies m.plain_ram_at(#[trigger] w[i].0) by {
        if i < first.len() {
            assert(w[i].0 == BDA_TIMER_OVERFLOW);
        } else {
            assert(w[i].0 == (BDA_TIMER_TICKS + (i - first.len())) as u64);
        }
    }
    lemma_plain_writes(m, m2, w);
    assert forall|k: int| 0 <= k < 4 implies #[trigger] m2.read_spec((BDA_TIMER_TICKS + k) as u64)
        == data[k] by {
        lemma_read_after_prefixed_writes(m, first, BDA_TIMER_TICKS, data, k);
        assert(m.plain_ram_at((BDA_TIMER_TICKS + k) as u64));
    }
    assert(m2.read_spec((BDA_TIMER_TICKS + 0) as u64) == data[0]);
    assert(m2.read_spec((BDA_TIMER_TICKS + 1) as u64) == data[1]);
    assert(m2.read_spec((BDA_TIMER_TICKS + 2) as u64) == data[2]);
    assert(m2.read_spec((BDA_TIMER_TICKS + 3) as u64) == data[3]);
    lemma_le32_seq_value(next_tick(t));
    assert(m.plain_ram_at(BDA_TIMER_OVERFLOW));
    lemma_read_after_prefixed_outside(m, first, BDA_TIMER_TICKS, data, BDA_TIMER_OVERFLOW);
    if rolls_over(t) {
        lemma_read_after_byte_writes(m, BDA_TIMER_OVERFLOW, seq![1u8], 0);
    }
}

} // verus!
