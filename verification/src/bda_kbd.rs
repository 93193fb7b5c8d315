//! IBM PC/AT BIOS Data Area keyboard state: the 16-word typeahead ring at
//! `0040:001E` with head/tail pointers at `0040:001A`/`001C`, the shift flags
//! at `0040:0017`/`0018`, the enhanced-keyboard byte at `0040:0096` and the
//! LED mirror at `0040:0097`, as the BIOS keyboard interrupt path keeps them.
use vstd::prelude::*;

use crate::guest_boot::BDA_EQUIPMENT;
use crate::mem::{
    lemma_below_1m_unmasked, lemma_plain_writes, lemma_writes_concat, lemma_writes_none, read_after,
    write_chain, writes_to, PhysMem,
};

verus! {

/// BDA segment physical base (`0040:0000`).
pub const BDA_PHYS_BASE: u64 = 0x400;

/// Keyboard shift-status flags (`0040:0017`).
pub const BDA_KBD_FLAG1: u64 = 0x417;

/// Extended keyboard status (`0040:0018`).
pub const BDA_KBD_FLAG2: u64 = 0x418;

/// Keyboard mode / type / E0 prefix / right Ctrl-Alt (`0040:0096`).
pub const BDA_KBD_MODE: u64 = 0x496;

/// Keyboard LED flags (`0040:0097`).
pub const BDA_KBD_LEDS: u64 = 0x497;

/// Keyboard buffer head pointer (offset within segment `40h`).
pub const BDA_KBD_HEAD: u64 = 0x41A;

/// Keyboard buffer tail pointer (offset within segment `40h`).
pub const BDA_KBD_TAIL: u64 = 0x41C;

/// Start of the 16-word circular buffer (`0040:001E`).
pub const BDA_KBD_BUF_START_OFF: u16 = 0x1E;

/// One past the last word of the ring (`0040:003E`).
pub const BDA_KBD_BUF_END_OFF: u16 = 0x3E;

/// Physical address of the first buffer word.
pub const BDA_KBD_BUF_START: u64 = 0x41E;

/// Usable words of the ring (one slot tells empty from full).
pub const BDA_KBD_CAPACITY: usize = 15;

pub const KBD_FLAG1_RIGHT_SHIFT: u8 = 0x01;

pub const KBD_FLAG1_LEFT_SHIFT: u8 = 0x02;

pub const KBD_FLAG1_CTRL: u8 = 0x04;

pub const KBD_FLAG1_ALT: u8 = 0x08;

pub const KBD_FLAG1_SCROLL_LOCK: u8 = 0x10;

pub const KBD_FLAG1_NUM_LOCK: u8 = 0x20;

pub const KBD_FLAG1_CAPS_LOCK: u8 = 0x40;

pub const KBD_FLAG1_INSERT: u8 = 0x80;

pub const KBD_FLAG2_LEFT_CTRL: u8 = 0x01;

pub const KBD_FLAG2_LEFT_ALT: u8 = 0x02;

pub const KBD_FLAG2_SYSREQ: u8 = 0x04;

pub const KBD_FLAG2_PAUSE: u8 = 0x08;

pub const KBD_FLAG2_SCROLL_DOWN: u8 = 0x10;

pub const KBD_FLAG2_NUM_DOWN: u8 = 0x20;

pub const KBD_FLAG2_CAPS_DOWN: u8 = 0x40;

pub const KBD_FLAG2_INSERT_DOWN: u8 = 0x80;

pub const KBD_MODE_LAST_E0: u8 = 0x01;

pub const KBD_MODE_RIGHT_CTRL: u8 = 0x04;

pub const KBD_MODE_RIGHT_ALT: u8 = 0x08;

/// Enhanced (101/102-key) keyboard present.
pub const KBD_MODE_ENHANCED: u8 = 0x10;

pub const KBD_LED_SCROLL: u8 = 0x01;

pub const KBD_LED_NUM: u8 = 0x02;

pub const KBD_LED_CAPS: u8 = 0x04;

/// The ring offset after `off`: two bytes on, wrapping to `001Eh` at `003Eh`.
pub open spec fn advance_off_spec(off: u16) -> u16 {
    let next = ((off + 2) % 0x10000) as u16;
    if next >= BDA_KBD_BUF_END_OFF {
        BDA_KBD_BUF_START_OFF
    } else {
        next
    }
}

/// Advance a ring offset by one word.
pub fn advance_bda_kbd_off(off: u16) -> (r: u16)
    ensures
        r == advance_off_spec(off),
{
    let next = off.wrapping_add(2);
    if next >= BDA_KBD_BUF_END_OFF {
        BDA_KBD_BUF_START_OFF
    } else {
        next
    }
}

/// Words counted walking from `cur` towards `tail` after `n` steps, giving
/// up after [`BDA_KBD_CAPACITY`] + 1 steps.
pub open spec fn count_from(cur: u16, tail: u16, n: nat) -> nat
    decreases 16 - n,
{
    let n1 = n + 1;
    let c1 = advance_off_spec(cur);
    if c1 == tail || n1 > BDA_KBD_CAPACITY || n1 >= 16 {
        n1
    } else {
        count_from(c1, tail, n1)
    }
}

/// Words waiting in the ring from `head` to `tail`.
pub open spec fn count_spec(head: u16, tail: u16) -> nat {
    if head == tail {
        0
    } else {
        count_from(head, tail, 0)
    }
}

/// Count the words from `head` to `tail`, walking the ring (at most
/// [`BDA_KBD_CAPACITY`] + 1).
pub fn bda_kbd_count(head: u16, tail: u16) -> (r: usize)
    ensures
        r == count_spec(head, tail),
{
    if head == tail {
        return 0;
    }
    let mut n: usize = 0;
    let mut cur = head;
    loop
        invariant
            n <= BDA_KBD_CAPACITY,
            head != tail,
            n == 0 ==> cur == head,
            count_spec(head, tail) == (if n == 0 {
                count_from(head, tail, 0)
            } else {
                count_from(cur, tail, n as nat)
            }),
            n > 0 ==> cur != tail,
        decreases 16 - n,
    {
        let c1 = advance_bda_kbd_off(cur);
        let n1 = n + 1;
        if c1 == tail || n1 > BDA_KBD_CAPACITY {
            return n1;
        }
        n = n1;
        cur = c1;
    }
}

/// Unshifted US-layout ASCII of a Set-1 make code (letters, digits, space,
/// Enter); 0 for everything else.
pub open spec fn set1_ascii_spec(scancode: u8) -> u8 {
    match scancode {
        0x02 => 0x31u8,
        0x03 => 0x32,
        0x04 => 0x33,
        0x05 => 0x34,
        0x06 => 0x35,
        0x07 => 0x36,
        0x08 => 0x37,
        0x09 => 0x38,
        0x0A => 0x39,
        0x0B => 0x30,
        0x10 => 0x71,
        0x11 => 0x77,
        0x12 => 0x65,
        0x13 => 0x72,
        0x14 => 0x74,
        0x15 => 0x79,
        0x16 => 0x75,
        0x17 => 0x69,
        0x18 => 0x6F,
        0x19 => 0x70,
        0x1C => 0x0D,
        0x1E => 0x61,
        0x1F => 0x73,
        0x20 => 0x64,
        0x21 => 0x66,
        0x22 => 0x67,
        0x23 => 0x68,
        0x24 => 0x6A,
        0x25 => 0x6B,
        0x26 => 0x6C,
        0x2C => 0x7A,
        0x2D => 0x78,
        0x2E => 0x63,
        0x2F => 0x76,
        0x30 => 0x62,
        0x31 => 0x6E,
        0x32 => 0x6D,
        0x39 => 0x20,
        _ => 0,
    }
}

/// Set-1 make code to the ASCII byte the BIOS stores with it.
pub fn set1_make_to_ascii(scancode: u8) -> (r: u8)
    ensures
        r == set1_ascii_spec(scancode),
{
    match scancode {
        0x02 => 0x31u8,
        0x03 => 0x32,
        0x04 => 0x33,
        0x05 => 0x34,
        0x06 => 0x35,
        0x07 => 0x36,
        0x08 => 0x37,
        0x09 => 0x38,
        0x0A => 0x39,
        0x0B => 0x30,
        0x10 => 0x71,
        0x11 => 0x77,
        0x12 => 0x65,
        0x13 => 0x72,
        0x14 => 0x74,
        0x15 => 0x79,
        0x16 => 0x75,
        0x17 => 0x69,
        0x18 => 0x6F,
        0x19 => 0x70,
        0x1C => 0x0D,
        0x1E => 0x61,
        0x1F => 0x73,
        0x20 => 0x64,
        0x21 => 0x66,
        0x22 => 0x67,
        0x23 => 0x68,
        0x24 => 0x6A,
        0x25 => 0x6B,
        0x26 => 0x6C,
        0x2C => 0x7A,
        0x2D => 0x78,
        0x2E => 0x63,
        0x2F => 0x76,
        0x30 => 0x62,
        0x31 => 0x6E,
        0x32 => 0x6D,
        0x39 => 0x20,
        _ => 0,
    }
}

/// `f1` with its Ctrl bit set exactly when left or right Ctrl is down, and
/// its Alt bit exactly when left or right Alt is down.
pub open spec fn ctrl_alt_spec(f1: u8, f2: u8, mode: u8) -> u8 {
    let c = if f2 & KBD_FLAG2_LEFT_CTRL != 0 || mode & KBD_MODE_RIGHT_CTRL != 0 {
        f1 | KBD_FLAG1_CTRL
    } else {
        f1 & !KBD_FLAG1_CTRL
    };
    if f2 & KBD_FLAG2_LEFT_ALT != 0 || mode & KBD_MODE_RIGHT_ALT != 0 {
        c | KBD_FLAG1_ALT
    } else {
        c & !KBD_FLAG1_ALT
    }
}

/// Recompute the combined Ctrl / Alt bits of `f1`.
pub fn recompute_ctrl_alt(f1: u8, f2: u8, mode: u8) -> (r: u8)
    ensures
        r == ctrl_alt_spec(f1, f2, mode),
{
    let c = if f2 & KBD_FLAG2_LEFT_CTRL != 0 || mode & KBD_MODE_RIGHT_CTRL != 0 {
        f1 | KBD_FLAG1_CTRL
    } else {
        f1 & !KBD_FLAG1_CTRL
    };
    if f2 & KBD_FLAG2_LEFT_ALT != 0 || mode & KBD_MODE_RIGHT_ALT != 0 {
        c | KBD_FLAG1_ALT
    } else {
        c & !KBD_FLAG1_ALT
    }
}

/// LED mirror byte of the lock bits of `f1`.
pub open spec fn led_mirror_spec(f1: u8) -> u8 {
    (if f1 & KBD_FLAG1_SCROLL_LOCK != 0 {
        KBD_LED_SCROLL
    } else {
        0u8
    }) | (if f1 & KBD_FLAG1_NUM_LOCK != 0 {
        KBD_LED_NUM
    } else {
        0u8
    }) | (if f1 & KBD_FLAG1_CAPS_LOCK != 0 {
        KBD_LED_CAPS
    } else {
        0u8
    })
}

/// LED mirror byte (Scroll, Num, Caps in bits 0-2) of the lock bits of `f1`.
pub fn led_mirror(f1: u8) -> (r: u8)
    ensures
        r == led_mirror_spec(f1),
{
    let s: u8 = if f1 & KBD_FLAG1_SCROLL_LOCK != 0 {
        KBD_LED_SCROLL
    } else {
        0
    };
    let n: u8 = if f1 & KBD_FLAG1_NUM_LOCK != 0 {
        KBD_LED_NUM
    } else {
        0
    };
    let c: u8 = if f1 & KBD_FLAG1_CAPS_LOCK != 0 {
        KBD_LED_CAPS
    } else {
        0
    };
    s | n | c
}

/// What one Set-1 scancode does to the shift state.
#[derive(Clone, Copy, Debug, PartialEq, Eq, Structural)]
pub struct Set1ModifierEffect {
    /// The scancode is a modifier or lock key (not a typeahead word).
    pub handled: bool,
    /// New `0040:0017`.
    pub flag1: u8,
    /// New `0040:0018`.
    pub flag2: u8,
    /// New `0040:0096`.
    pub mode: u8,
    /// New LED mirror, when a lock key toggled.
    pub leds: Option<u8>,
}

/// Set a bit on make, clear it on break.
pub open spec fn track(v: u8, bit: u8, is_break: bool) -> u8 {
    if is_break {
        v & !bit
    } else {
        v | bit
    }
}

/// Shift-state effect of `scancode` (E0-prefixed when `e0`) on flags `f1`,
/// `f2` and mode byte `mode0`: Shift, Ctrl and Alt track make/break (Ctrl
/// and Alt on the right side when E0-prefixed, recombined into `f1`); Caps,
/// Num and Scroll Lock track their down bit and toggle their lock on make;
/// anything else is not a modifier. A mode byte of 0 is first taken as
/// enhanced-keyboard-present.
pub open spec fn set1_modifier_spec(f1: u8, f2: u8, mode0: u8, scancode: u8, e0: bool) -> Set1ModifierEffect {
    let make = scancode & 0x7F;
    let brk = scancode & 0x80 != 0;
    let mode = if mode0 == 0 {
        KBD_MODE_ENHANCED
    } else {
        mode0
    };
    let none = Set1ModifierEffect { handled: false, flag1: f1, flag2: f2, mode, leds: None };
    if make == 0x2A {
        Set1ModifierEffect { handled: true, flag1: track(f1, KBD_FLAG1_LEFT_SHIFT, brk), ..none }
    } else if make == 0x36 && !e0 {
        Set1ModifierEffect { handled: true, flag1: track(f1, KBD_FLAG1_RIGHT_SHIFT, brk), ..none }
    } else if make == 0x1D {
        let m2 = if e0 {
            track(mode, KBD_MODE_RIGHT_CTRL, brk)
        } else {
            mode
        };
        let g2 = if e0 {
            f2
        } else {
            track(f2, KBD_FLAG2_LEFT_CTRL, brk)
        };
        Set1ModifierEffect {
            handled: true,
            flag1: ctrl_alt_spec(f1, g2, m2),
            flag2: g2,
            mode: m2,
            leds: None,
        }
    } else if make == 0x38 {
        let m2 = if e0 {
            track(mode, KBD_MODE_RIGHT_ALT, brk)
        } else {
            mode
        };
        let g2 = if e0 {
            f2
        } else {
            track(f2, KBD_FLAG2_LEFT_ALT, brk)
        };
        Set1ModifierEffect {
            handled: true,
            flag1: ctrl_alt_spec(f1, g2, m2),
            flag2: g2,
            mode: m2,
            leds: None,
        }
    } else if (make == 0x3A || make == 0x45 || make == 0x46) && !e0 {
        let (down, lock) = if make == 0x3A {
            (KBD_FLAG2_CAPS_DOWN, KBD_FLAG1_CAPS_LOCK)
        } else if make == 0x45 {
            (KBD_FLAG2_NUM_DOWN, KBD_FLAG1_NUM_LOCK)
        } else {
            (KBD_FLAG2_SCROLL_DOWN, KBD_FLAG1_SCROLL_LOCK)
        };
        if brk {
            Set1ModifierEffect { handled: true, flag2: f2 & !down, ..none }
        } else {
            let g1 = f1 ^ lock;
            Set1ModifierEffect {
                handled: true,
                flag1: g1,
                flag2: f2 | down,
                leds: Some(led_mirror_spec(g1)),
                ..none
            }
        }
    } else {
        none
    }
}

fn track_exec(v: u8, bit: u8, is_break: bool) -> (r: u8)
    ensures
        r == track(v, bit, is_break),
{
    if is_break {
        v & !bit
    } else {
        v | bit
    }
}

/// Compute the shift-state effect of a Set-1 scancode.
pub fn set1_modifier_effect(f1: u8, f2: u8, mode0: u8, scancode: u8, e0: bool) -> (r: Set1ModifierEffect)
    ensures
        r == set1_modifier_spec(f1, f2, mode0, scancode, e0),
{
    let make = scancode & 0x7F;
    let brk = scancode & 0x80 != 0;
    let mode = if mode0 == 0 {
        KBD_MODE_ENHANCED
    } else {
        mode0
    };
    let none = Set1ModifierEffect { handled: false, flag1: f1, flag2: f2, mode, leds: None };
    if make == 0x2A {
        Set1ModifierEffect {
            handled: true,
            flag1: track_exec(f1, KBD_FLAG1_LEFT_SHIFT, brk),
            ..none
        }
    } else if make == 0x36 && !e0 {
        Set1ModifierEffect {
            handled: true,
            flag1: track_exec(f1, KBD_FLAG1_RIGHT_SHIFT, brk),
            ..none
        }
    } else if make == 0x1D || make == 0x38 {
        let (right, left) = if make == 0x1D {
            (KBD_MODE_RIGHT_CTRL, KBD_FLAG2_LEFT_CTRL)
        } else {
            (KBD_MODE_RIGHT_ALT, KBD_FLAG2_LEFT_ALT)
        };
        let m2 = if e0 {
            track_exec(mode, right, brk)
        } else {
            mode
        };
        let g2 = if e0 {
            f2
        } else {
            track_exec(f2, left, brk)
        };
        Set1ModifierEffect {
            handled: true,
            flag1: recompute_ctrl_alt(f1, g2, m2),
            flag2: g2,
            mode: m2,
            leds: None,
        }
    } else if (make == 0x3A || make == 0x45 || make == 0x46) && !e0 {
        let (down, lock) = if make == 0x3A {
            (KBD_FLAG2_CAPS_DOWN, KBD_FLAG1_CAPS_LOCK)
        } else if make == 0x45 {
            (KBD_FLAG2_NUM_DOWN, KBD_FLAG1_NUM_LOCK)
        } else {
            (KBD_FLAG2_SCROLL_DOWN, KBD_FLAG1_SCROLL_LOCK)
        };
        if brk {
            Set1ModifierEffect { handled: true, flag2: f2 & !down, ..none }
        } else {
            let g1 = f1 ^ lock;
            Set1ModifierEffect {
                handled: true,
                flag1: g1,
                flag2: f2 | down,
                leds: Some(led_mirror(g1)),
                ..none
            }
        }
    } else {
        none
    }
}

/// INT 16h AH=12h high byte from `0040:0018` and `0040:0096`: left Ctrl,
/// left Alt, right Ctrl, right Alt, Scroll / Num / Caps down, SysReq in bits
/// 0-7.
pub open spec fn extended_shift_ah_spec(f2: u8, mode: u8) -> u8 {
    (if f2 & KBD_FLAG2_LEFT_CTRL != 0 { 0x01u8 } else { 0u8 })
        | (if f2 & KBD_FLAG2_LEFT_ALT != 0 { 0x02u8 } else { 0u8 })
        | (if mode & KBD_MODE_RIGHT_CTRL != 0 { 0x04u8 } else { 0u8 })
        | (if mode & KBD_MODE_RIGHT_ALT != 0 { 0x08u8 } else { 0u8 })
        | (if f2 & KBD_FLAG2_SCROLL_DOWN != 0 { 0x10u8 } else { 0u8 })
        | (if f2 & KBD_FLAG2_NUM_DOWN != 0 { 0x20u8 } else { 0u8 })
        | (if f2 & KBD_FLAG2_CAPS_DOWN != 0 { 0x40u8 } else { 0u8 })
        | (if f2 & KBD_FLAG2_SYSREQ != 0 { 0x80u8 } else { 0u8 })
}

/// Synthesize the INT 16h AH=12h high byte from the two status bytes.
pub fn extended_shift_ah(f2: u8, mode: u8) -> (r: u8)
    ensures
        r == extended_shift_ah_spec(f2, mode),
{
    (if f2 & KBD_FLAG2_LEFT_CTRL != 0 { 0x01u8 } else { 0u8 })
        | (if f2 & KBD_FLAG2_LEFT_ALT != 0 { 0x02u8 } else { 0u8 })
        | (if mode & KBD_MODE_RIGHT_CTRL != 0 { 0x04u8 } else { 0u8 })
        | (if mode & KBD_MODE_RIGHT_ALT != 0 { 0x08u8 } else { 0u8 })
        | (if f2 & KBD_FLAG2_SCROLL_DOWN != 0 { 0x10u8 } else { 0u8 })
        | (if f2 & KBD_FLAG2_NUM_DOWN != 0 { 0x20u8 } else { 0u8 })
        | (if f2 & KBD_FLAG2_CAPS_DOWN != 0 { 0x40u8 } else { 0u8 })
        | (if f2 & KBD_FLAG2_SYSREQ != 0 { 0x80u8 } else { 0u8 })
}


/// Little-endian word at `p` as memory reads it.
pub open spec fn word_at(m: PhysMem, p: u64) -> u16 {
    (m.read_spec(p) as int + 256 * (m.read_spec((p + 1) as u64) as int)) as u16
}

/// The two byte writes storing word `v` at `p`.
pub open spec fn word_writes(p: u64, v: u16) -> Seq<(u64, u8)> {
    seq![(p, (v % 256) as u8), ((p + 1) as u64, (v / 256) as u8)]
}

/// A single write of `v` to `p`, as the chain it is.
proof fn lemma_one_write(m: PhysMem, after: PhysMem, p: u64, v: u8)
    requires
        m.is_write_of(&after, p, v),
    ensures
        writes_to(m, after, seq![(p, v)]),
{
    let st = seq![m, after];
    let w = seq![(p, v)];
    let i: int = 0;
    assert(st[i].is_write_of(&st[i + 1], w[i].0, w[i].1));
    assert(write_chain(st, w));
}

/// Write one byte, as a one-write chain.
fn write_byte(mem: &mut PhysMem, p: u64, v: u8)
    requires
        old(mem).wf(),
    ensures
        final(mem).wf(),
        writes_to(*old(mem), *final(mem), seq![(p, v)]),
{
    let ghost before = *mem;
    let _ = mem.write_u8(p, v);
    proof {
        lemma_one_write(before, *mem, p, v);
    }
}

/// Read one byte (reads never fail).
fn read_byte(mem: &PhysMem, p: u64) -> (r: u8)
    requires
        mem.wf(),
    ensures
        r == mem.read_spec(p),
{
    match mem.read_u8(p) {
        Ok(b) => b,
        Err(_) => 0,
    }
}

/// Read a little-endian BDA pointer word.
fn read_bda_kbd_ptr(mem: &PhysMem, phys: u64) -> (r: u16)
    requires
        mem.wf(),
        phys < u64::MAX,
    ensures
        r == word_at(*mem, phys),
{
    let lo = read_byte(mem, phys);
    let hi = read_byte(mem, phys + 1);
    (lo as u16) + (hi as u16) * 256
}

/// Write a little-endian BDA pointer word.
fn write_bda_kbd_ptr(mem: &mut PhysMem, phys: u64, off: u16)
    requires
        old(mem).wf(),
        phys < u64::MAX,
    ensures
        final(mem).wf(),
        writes_to(*old(mem), *final(mem), word_writes(phys, off)),
{
    let ghost m0 = *mem;
    write_byte(mem, phys, (off % 256) as u8);
    let ghost m1 = *mem;
    write_byte(mem, phys + 1, (off / 256) as u8);
    proof {
        lemma_writes_concat(m0, m1, *mem, seq![(phys, (off % 256) as u8)], seq![((phys + 1) as u64, (off / 256) as u8)]);
        assert(seq![(phys, (off % 256) as u8)] + seq![((phys + 1) as u64, (off / 256) as u8)]
            =~= word_writes(phys, off));
    }
}

/// The writes of an empty ring: head and tail both `001Eh`.
pub open spec fn init_ring_writes() -> Seq<(u64, u8)> {
    word_writes(BDA_KBD_HEAD, BDA_KBD_BUF_START_OFF) + word_writes(BDA_KBD_TAIL, BDA_KBD_BUF_START_OFF)
}

/// Initialize the BDA keyboard head and tail to an empty ring at `40:1E`.
pub fn init_bda_kbd_buffer(mem: &mut PhysMem)
    requires
        old(mem).wf(),
    ensures
        final(mem).wf(),
        writes_to(*old(mem), *final(mem), init_ring_writes()),
{
    let ghost m0 = *mem;
    write_bda_kbd_ptr(mem, BDA_KBD_HEAD, BDA_KBD_BUF_START_OFF);
    let ghost m1 = *mem;
    write_bda_kbd_ptr(mem, BDA_KBD_TAIL, BDA_KBD_BUF_START_OFF);
    proof {
        lemma_writes_concat(m0, m1, *mem, word_writes(BDA_KBD_HEAD, BDA_KBD_BUF_START_OFF), word_writes(BDA_KBD_TAIL, BDA_KBD_BUF_START_OFF));
    }
}

/// `m2` is `m` with an all-zero (never initialized) ring set up empty.
pub open spec fn ensure_ring_rel(m: PhysMem, m2: PhysMem) -> bool {
    if word_at(m, BDA_KBD_HEAD) == 0 && word_at(m, BDA_KBD_TAIL) == 0 {
        writes_to(m, m2, init_ring_writes())
    } else {
        m2 == m
    }
}

/// Set up an empty ring when head and tail are both zero.
pub fn ensure_bda_kbd_ring(mem: &mut PhysMem)
    requires
        old(mem).wf(),
    ensures
        final(mem).wf(),
        ensure_ring_rel(*old(mem), *final(mem)),
{
    let head = read_bda_kbd_ptr(mem, BDA_KBD_HEAD);
    let tail = read_bda_kbd_ptr(mem, BDA_KBD_TAIL);
    if head == 0 && tail == 0 {
        init_bda_kbd_buffer(mem);
    }
}

/// Read the shift flags (`0040:0017`).
pub fn bda_kbd_flag1(mem: &PhysMem) -> (r: u8)
    requires
        mem.wf(),
    ensures
        r == mem.read_spec(BDA_KBD_FLAG1),
{
    read_byte(mem, BDA_KBD_FLAG1)
}

/// Write the shift flags (`0040:0017`).
pub fn set_bda_kbd_flag1(mem: &mut PhysMem, flags: u8)
    requires
        old(mem).wf(),
    ensures
        final(mem).wf(),
        writes_to(*old(mem), *final(mem), seq![(BDA_KBD_FLAG1, flags)]),
{
    write_byte(mem, BDA_KBD_FLAG1, flags);
}

/// Read the extended keyboard status (`0040:0018`).
pub fn bda_kbd_flag2(mem: &PhysMem) -> (r: u8)
    requires
        mem.wf(),
    ensures
        r == mem.read_spec(BDA_KBD_FLAG2),
{
    read_byte(mem, BDA_KBD_FLAG2)
}

/// Write the extended keyboard status (`0040:0018`).
pub fn set_bda_kbd_flag2(mem: &mut PhysMem, flags: u8)
    requires
        old(mem).wf(),
    ensures
        final(mem).wf(),
        writes_to(*old(mem), *final(mem), seq![(BDA_KBD_FLAG2, flags)]),
{
    write_byte(mem, BDA_KBD_FLAG2, flags);
}

/// Read the keyboard mode / type byte (`0040:0096`).
pub fn bda_kbd_mode(mem: &PhysMem) -> (r: u8)
    requires
        mem.wf(),
    ensures
        r == mem.read_spec(BDA_KBD_MODE),
{
    read_byte(mem, BDA_KBD_MODE)
}

/// INT 16h AH=12h high byte synthesized from `40:18` and `40:96`.
pub fn int16_extended_shift_ah(mem: &PhysMem) -> (r: u8)
    requires
        mem.wf(),
    ensures
        r == extended_shift_ah_spec(mem.read_spec(BDA_KBD_FLAG2), mem.read_spec(BDA_KBD_MODE)),
{
    extended_shift_ah(bda_kbd_flag2(mem), bda_kbd_mode(mem))
}

/// The field writes of [`seed_bda_keyboard_flags`] before the ring check:
/// equipment word, shift flags cleared, enhanced keyboard, LEDs off.
pub open spec fn seed_flag_writes(equipment_byte: u8) -> Seq<(u64, u8)> {
    seq![
        (BDA_EQUIPMENT, equipment_byte),
        ((BDA_EQUIPMENT + 1) as u64, 0u8),
        (BDA_KBD_FLAG1, 0u8),
        (BDA_KBD_FLAG2, 0u8),
        (BDA_KBD_MODE, KBD_MODE_ENHANCED),
        (BDA_KBD_LEDS, 0u8),
    ]
}

/// Seed the BDA keyboard fields: the equipment low byte, cleared shift
/// flags, the enhanced-keyboard bit, a cleared LED mirror, and an empty ring
/// if none was set up.
pub fn seed_bda_keyboard_flags(mem: &mut PhysMem, equipment_byte: u8)
    requires
        old(mem).wf(),
    ensures
        final(mem).wf(),
        exists|mid: PhysMem|
            writes_to(*old(mem), mid, seed_flag_writes(equipment_byte)) && ensure_ring_rel(
                mid,
                *final(mem),
            ),
{
    let ghost m0 = *mem;
    write_byte(mem, BDA_EQUIPMENT, equipment_byte);
    let ghost m1 = *mem;
    write_byte(mem, BDA_EQUIPMENT + 1, 0);
    let ghost m2 = *mem;
    write_byte(mem, BDA_KBD_FLAG1, 0);
    let ghost m3 = *mem;
    write_byte(mem, BDA_KBD_FLAG2, 0);
    let ghost m4 = *mem;
    write_byte(mem, BDA_KBD_MODE, KBD_MODE_ENHANCED);
    let ghost m5 = *mem;
    write_byte(mem, BDA_KBD_LEDS, 0);
    let ghost m6 = *mem;
    proof {
        let w = seed_flag_writes(equipment_byte);
        lemma_writes_concat(m0, m1, m2, seq![w[0]], seq![w[1]]);
        lemma_writes_concat(m0, m2, m3, seq![w[0]] + seq![w[1]], seq![w[2]]);
        lemma_writes_concat(m0, m3, m4, seq![w[0]] + seq![w[1]] + seq![w[2]], seq![w[3]]);
        lemma_writes_concat(m0, m4, m5, seq![w[0]] + seq![w[1]] + seq![w[2]] + seq![w[3]], seq![w[4]]);
        lemma_writes_concat(
            m0,
            m5,
            m6,
            seq![w[0]] + seq![w[1]] + seq![w[2]] + seq![w[3]] + seq![w[4]],
            seq![w[5]],
        );
        assert(seq![w[0]] + seq![w[1]] + seq![w[2]] + seq![w[3]] + seq![w[4]] + seq![w[5]] =~= w);
    }
    ensure_bda_kbd_ring(mem);
}

/// `r` and `m2` are what enqueuing `(ascii, scancode)` on `m` gives: when the
/// tail's successor is the head the ring is full and nothing changes;
/// otherwise the word is stored at the tail and the tail advances.
pub open spec fn enqueue_rel(m: PhysMem, m2: PhysMem, ascii: u8, scancode: u8, r: bool) -> bool {
    let head = word_at(m, BDA_KBD_HEAD);
    let tail = word_at(m, BDA_KBD_TAIL);
    let next = advance_off_spec(tail);
    if next == head {
        !r && m2 == m
    } else {
        r && writes_to(
            m,
            m2,
            seq![((BDA_PHYS_BASE + tail) as u64, ascii), ((BDA_PHYS_BASE + tail + 1) as u64, scancode)]
                + word_writes(BDA_KBD_TAIL, next),
        )
    }
}

/// Enqueue one keystroke word (`AL` = ASCII, `AH` = scancode) at the tail;
/// `false` when the ring is full.
pub fn bda_kbd_enqueue(mem: &mut PhysMem, ascii: u8, scancode: u8) -> (r: bool)
    requires
        old(mem).wf(),
    ensures
        final(mem).wf(),
        enqueue_rel(*old(mem), *final(mem), ascii, scancode, r),
{
    let head = read_bda_kbd_ptr(mem, BDA_KBD_HEAD);
    let tail = read_bda_kbd_ptr(mem, BDA_KBD_TAIL);
    let next = advance_bda_kbd_off(tail);
    if next == head {
        return false;
    }
    let ghost m0 = *mem;
    let phys = BDA_PHYS_BASE + tail as u64;
    write_byte(mem, phys, ascii);
    let ghost m1 = *mem;
    write_byte(mem, phys + 1, scancode);
    let ghost m2 = *mem;
    write_bda_kbd_ptr(mem, BDA_KBD_TAIL, next);
    proof {
        lemma_writes_concat(m0, m1, m2, seq![(phys, ascii)], seq![((phys + 1) as u64, scancode)]);
        lemma_writes_concat(
            m0,
            m2,
            *mem,
            seq![(phys, ascii)] + seq![((phys + 1) as u64, scancode)],
            word_writes(BDA_KBD_TAIL, next),
        );
        assert(seq![(phys, ascii)] + seq![((phys + 1) as u64, scancode)] =~= seq![
            (phys, ascii),
            ((phys + 1) as u64, scancode),
        ]);
    }
    true
}

/// Set up the ring if needed, then enqueue one keystroke word.
pub fn bda_kbd_inject_key(mem: &mut PhysMem, ascii: u8, scancode: u8) -> (r: bool)
    requires
        old(mem).wf(),
    ensures
        final(mem).wf(),
        exists|mid: PhysMem|
            ensure_ring_rel(*old(mem), mid) && enqueue_rel(mid, *final(mem), ascii, scancode, r),
{
    ensure_bda_kbd_ring(mem);
    let ghost mid = *mem;
    let r = bda_kbd_enqueue(mem, ascii, scancode);
    assert(ensure_ring_rel(*old(mem), mid) && enqueue_rel(mid, *mem, ascii, scancode, r));
    r
}

/// How many keystrokes wait in the ring.
pub fn bda_kbd_len(mem: &PhysMem) -> (r: usize)
    requires
        mem.wf(),
    ensures
        r == count_spec(word_at(*mem, BDA_KBD_HEAD), word_at(*mem, BDA_KBD_TAIL)),
{
    let head = read_bda_kbd_ptr(mem, BDA_KBD_HEAD);
    let tail = read_bda_kbd_ptr(mem, BDA_KBD_TAIL);
    bda_kbd_count(head, tail)
}

/// The word at the head, unless the ring is empty.
pub open spec fn peek_spec(m: PhysMem) -> Option<(u8, u8)> {
    let head = word_at(m, BDA_KBD_HEAD);
    if head == word_at(m, BDA_KBD_TAIL) {
        None
    } else {
        Some(
            (
                m.read_spec((BDA_PHYS_BASE + head) as u64),
                m.read_spec((BDA_PHYS_BASE + head + 1) as u64),
            ),
        )
    }
}

/// The next keystroke, left in the ring.
pub fn bda_kbd_peek(mem: &PhysMem) -> (r: Option<(u8, u8)>)
    requires
        mem.wf(),
    ensures
        r == peek_spec(*mem),
{
    let head = read_bda_kbd_ptr(mem, BDA_KBD_HEAD);
    let tail = read_bda_kbd_ptr(mem, BDA_KBD_TAIL);
    if head == tail {
        return None;
    }
    let phys = BDA_PHYS_BASE + head as u64;
    let ascii = read_byte(mem, phys);
    let scancode = read_byte(mem, phys + 1);
    Some((ascii, scancode))
}

/// `r` and `m2` are what dequeuing from `m` gives: the head word, with the
/// head advanced, or nothing from an empty ring.
pub open spec fn dequeue_rel(m: PhysMem, m2: PhysMem, r: Option<(u8, u8)>) -> bool {
    r == peek_spec(m) && if r is None {
        m2 == m
    } else {
        writes_to(m, m2, word_writes(BDA_KBD_HEAD, advance_off_spec(word_at(m, BDA_KBD_HEAD))))
    }
}

/// Remove and return the next keystroke.
pub fn bda_kbd_dequeue(mem: &mut PhysMem) -> (r: Option<(u8, u8)>)
    requires
        old(mem).wf(),
    ensures
        final(mem).wf(),
        dequeue_rel(*old(mem), *final(mem), r),
{
    let got = bda_kbd_peek(mem);
    match got {
        None => None,
        Some(word) => {
            let head = read_bda_kbd_ptr(mem, BDA_KBD_HEAD);
            write_bda_kbd_ptr(mem, BDA_KBD_HEAD, advance_bda_kbd_off(head));
            Some(word)
        },
    }
}

/// The flag writes of a modifier effect: the LED mirror when a lock
/// toggled, then both flag bytes and the mode byte when the key was a
/// modifier.
pub open spec fn modifier_writes(e: Set1ModifierEffect) -> Seq<(u64, u8)> {
    (match e.leds {
        Some(l) => seq![(BDA_KBD_LEDS, l)],
        None => Seq::empty(),
    }) + if e.handled {
        seq![(BDA_KBD_FLAG1, e.flag1), (BDA_KBD_FLAG2, e.flag2), (BDA_KBD_MODE, e.mode)]
    } else {
        Seq::empty()
    }
}

/// The modifier effect of `scancode` on the flags `m` holds.
pub open spec fn modifier_effect_of(m: PhysMem, scancode: u8, e0: bool) -> Set1ModifierEffect {
    set1_modifier_spec(
        m.read_spec(BDA_KBD_FLAG1),
        m.read_spec(BDA_KBD_FLAG2),
        m.read_spec(BDA_KBD_MODE),
        scancode,
        e0,
    )
}

/// Apply a Set-1 modifier or lock key to the BDA flags. Returns the effect;
/// its `leds` is the LED mask to reflect into the keyboard controller.
pub fn apply_set1_modifier(mem: &mut PhysMem, scancode: u8, e0: bool) -> (r: Set1ModifierEffect)
    requires
        old(mem).wf(),
    ensures
        final(mem).wf(),
        r == modifier_effect_of(*old(mem), scancode, e0),
        writes_to(*old(mem), *final(mem), modifier_writes(r)),
{
    let f1 = bda_kbd_flag1(mem);
    let f2 = bda_kbd_flag2(mem);
    let mode = bda_kbd_mode(mem);
    let e = set1_modifier_effect(f1, f2, mode, scancode, e0);
    let ghost m0 = *mem;
    proof {
        lemma_writes_none(m0);
    }
    match e.leds {
        Some(l) => {
            write_byte(mem, BDA_KBD_LEDS, l);
        },
        None => {},
    }
    let ghost m1 = *mem;
    let ghost lw = match e.leds {
        Some(l) => seq![(BDA_KBD_LEDS, l)],
        None => Seq::<(u64, u8)>::empty(),
    };
    assert(writes_to(m0, m1, lw));
    if e.handled {
        write_byte(mem, BDA_KBD_FLAG1, e.flag1);
        let ghost m2 = *mem;
        write_byte(mem, BDA_KBD_FLAG2, e.flag2);
        let ghost m3 = *mem;
        write_byte(mem, BDA_KBD_MODE, e.mode);
        proof {
            lemma_writes_concat(m0, m1, m2, lw, seq![(BDA_KBD_FLAG1, e.flag1)]);
            lemma_writes_concat(m0, m2, m3, lw + seq![(BDA_KBD_FLAG1, e.flag1)], seq![(BDA_KBD_FLAG2, e.flag2)]);
            lemma_writes_concat(
                m0,
                m3,
                *mem,
                lw + seq![(BDA_KBD_FLAG1, e.flag1)] + seq![(BDA_KBD_FLAG2, e.flag2)],
                seq![(BDA_KBD_MODE, e.mode)],
            );
            assert(lw + seq![(BDA_KBD_FLAG1, e.flag1)] + seq![(BDA_KBD_FLAG2, e.flag2)] + seq![
                (BDA_KBD_MODE, e.mode),
            ] =~= modifier_writes(e));
        }
    } else {
        assert(lw =~= modifier_writes(e));
    }
    e
}


/// The rest of a keyboard byte after its modifier effect `eff` took `m3`
/// to... : a modifier reports its LED mask; a non-modifier break is
/// dropped; a make is enqueued with its ASCII (after setting up an empty
/// ring if none was), and reported when it fit.
pub open spec fn irq1_after_modifier(
    m3: PhysMem,
    m2: PhysMem,
    scancode: u8,
    eff: Set1ModifierEffect,
    r: (Option<(u8, u8)>, Option<u8>),
) -> bool {
    if eff.handled {
        r == (None::<(u8, u8)>, eff.leds) && m2 == m3
    } else if scancode & 0x80 != 0 {
        r == (None::<(u8, u8)>, None::<u8>) && m2 == m3
    } else {
        exists|m4: PhysMem, ok: bool|
            ensure_ring_rel(m3, m4) && enqueue_rel(m4, m2, set1_ascii_spec(scancode), scancode, ok)
                && r == (
                if ok {
                    Some((set1_ascii_spec(scancode), scancode))
                } else {
                    None
                },
                None::<u8>,
            )
    }
}

/// Whether the mode byte records a pending `E0` prefix.
pub open spec fn e0_pending(m: PhysMem) -> bool {
    m.read_spec(BDA_KBD_MODE) & KBD_MODE_LAST_E0 != 0
}

/// What one keyboard byte read from the controller does to the BDA: `E0`
/// records the prefix in the mode byte; any other byte clears a pending
/// prefix, applies its modifier effect, and then [`irq1_after_modifier`].
pub open spec fn irq1_rel(m: PhysMem, m2: PhysMem, scancode: u8, r: (Option<(u8, u8)>, Option<u8>)) -> bool {
    let mode = m.read_spec(BDA_KBD_MODE);
    if scancode == 0xE0 {
        r == (None::<(u8, u8)>, None::<u8>) && writes_to(
            m,
            m2,
            seq![(BDA_KBD_MODE, mode | KBD_MODE_LAST_E0)],
        )
    } else {
        let e0 = e0_pending(m);
        exists|m1: PhysMem, m3: PhysMem|
            #![trigger writes_to(m1, m3, modifier_writes(modifier_effect_of(m1, scancode, e0)))]
            {
                &&& (if e0 {
                    writes_to(m, m1, seq![(BDA_KBD_MODE, mode & !KBD_MODE_LAST_E0)])
                } else {
                    m1 == m
                })
                &&& writes_to(m1, m3, modifier_writes(modifier_effect_of(m1, scancode, e0)))
                &&& irq1_after_modifier(m3, m2, scancode, modifier_effect_of(m1, scancode, e0), r)
            }
    }
}

/// Handle one keyboard byte read from the controller on IRQ1: track the E0
/// prefix, update shift and lock state, and enqueue ordinary make codes.
/// Returns the enqueued word, if any, and the LED mask to reflect into the
/// keyboard controller, if a lock key toggled.
pub fn service_kbd_irq1_bda(mem: &mut PhysMem, scancode: u8) -> (r: (Option<(u8, u8)>, Option<u8>))
    requires
        old(mem).wf(),
    ensures
        final(mem).wf(),
        irq1_rel(*old(mem), *final(mem), scancode, r),
{
    let ghost m0 = *mem;
    let mode = bda_kbd_mode(mem);
    if scancode == 0xE0 {
        write_byte(mem, BDA_KBD_MODE, mode | KBD_MODE_LAST_E0);
        return (None, None);
    }
    let e0 = mode & KBD_MODE_LAST_E0 != 0;
    if e0 {
        write_byte(mem, BDA_KBD_MODE, mode & !KBD_MODE_LAST_E0);
    }
    let ghost m1 = *mem;
    let ghost first = if e0 {
        writes_to(m0, m1, seq![(BDA_KBD_MODE, mode & !KBD_MODE_LAST_E0)])
    } else {
        m1 == m0
    };
    assert(first);
    let eff = apply_set1_modifier(mem, scancode, e0);
    let ghost m3 = *mem;
    assert(writes_to(m1, m3, modifier_writes(modifier_effect_of(m1, scancode, e0))));
    let r = if eff.handled {
        (None, eff.leds)
    } else if scancode & 0x80 != 0 {
        (None, None)
    } else {
        ensure_bda_kbd_ring(mem);
        let ghost m4 = *mem;
        let ascii = set1_make_to_ascii(scancode);
        let ok = bda_kbd_enqueue(mem, ascii, scancode);
        assert(ensure_ring_rel(m3, m4) && enqueue_rel(m4, *mem, set1_ascii_spec(scancode), scancode, ok));
        if ok {
            (Some((ascii, scancode)), None)
        } else {
            (None, None)
        }
    };
    assert(irq1_after_modifier(m3, *mem, scancode, modifier_effect_of(m1, scancode, e0), r));
    assert(first && writes_to(m1, m3, modifier_writes(modifier_effect_of(m1, scancode, e0)))
        && irq1_after_modifier(m3, *mem, scancode, modifier_effect_of(m1, scancode, e0), r));
    r
}


/// A ring offset the BIOS can hold: an even offset from `001Eh` to `003Ch`.
pub open spec fn valid_off(o: u16) -> bool {
    0x1E <= o <= 0x3C && o % 2 == 0
}

/// Word index of a ring offset (`0..16`).
pub open spec fn ring_pos(o: u16) -> int {
    (o - 0x1E) / 2
}

/// The BDA decodes to plain RAM.
pub open spec fn bda_plain(m: PhysMem) -> bool {
    m.plain_ram_range(0x400, 0x500)
}

/// The BDA is plain RAM and the head and tail are valid ring offsets.
pub open spec fn ring_ok(m: PhysMem) -> bool {
    &&& m.wf()
    &&& bda_plain(m)
    &&& valid_off(word_at(m, BDA_KBD_HEAD))
    &&& valid_off(word_at(m, BDA_KBD_TAIL))
}

/// Words waiting between a valid head and tail.
pub open spec fn queue_len(m: PhysMem) -> int {
    (ring_pos(word_at(m, BDA_KBD_TAIL)) - ring_pos(word_at(m, BDA_KBD_HEAD))) % 16
}

/// Address of the `i`-th waiting word counted from `head`.
pub open spec fn slot_addr(head: u16, i: int) -> u64 {
    (0x41E + 2 * ((ring_pos(head) + i) % 16)) as u64
}

/// The waiting keystrokes, oldest first.
pub open spec fn kbd_queue(m: PhysMem) -> Seq<(u8, u8)> {
    let head = word_at(m, BDA_KBD_HEAD);
    Seq::new(
        queue_len(m) as nat,
        |i: int| (m.read_spec(slot_addr(head, i)), m.read_spec((slot_addr(head, i) + 1) as u64)),
    )
}

proof fn lemma_advance_valid(o: u16)
    requires
        valid_off(o),
    ensures
        valid_off(advance_off_spec(o)),
        ring_pos(advance_off_spec(o)) == (ring_pos(o) + 1) % 16,
{
}

proof fn lemma_valid_pos_eq(a: u16, b: u16)
    requires
        valid_off(a),
        valid_off(b),
        ring_pos(a) == ring_pos(b),
    ensures
        a == b,
{
}

proof fn lemma_count_from(cur: u16, tail: u16, n: nat, d: int)
    requires
        valid_off(cur),
        valid_off(tail),
        d == (ring_pos(tail) - ring_pos(cur)) % 16,
        1 <= d,
        n + d <= 15,
    ensures
        count_from(cur, tail, n) == n + d,
    decreases d,
{
    lemma_advance_valid(cur);
    let c1 = advance_off_spec(cur);
    if d == 1 {
        lemma_valid_pos_eq(c1, tail);
    } else {
        if c1 == tail {
            assert(false);
        }
        lemma_count_from(c1, tail, n + 1, d - 1);
    }
}

/// The ring count walks exactly as many words as separate the head from the
/// tail: for valid offsets it is `(tail - head) / 2` modulo 16 words.
pub proof fn law_kbd_count_closed_form(head: u16, tail: u16)
    requires
        valid_off(head),
        valid_off(tail),
    ensures
        count_spec(head, tail) == (ring_pos(tail) - ring_pos(head)) % 16,
{
    if head != tail {
        if ring_pos(tail) == ring_pos(head) {
            lemma_valid_pos_eq(head, tail);
        }
        lemma_count_from(head, tail, 0, (ring_pos(tail) - ring_pos(head)) % 16);
    }
}

proof fn lemma_bda_plain_at(m: PhysMem, a: u64)
    requires
        bda_plain(m),
        0x400 <= a < 0x500,
    ensures
        m.plain_ram_at(a),
{
}

/// Memory after a non-full enqueue: the word at the tail slot and the new
/// tail pointer, every other BDA byte as before.
proof fn lemma_enqueue_memory(m: PhysMem, m2: PhysMem, ascii: u8, scancode: u8)
    requires
        ring_ok(m),
        advance_off_spec(word_at(m, BDA_KBD_TAIL)) != word_at(m, BDA_KBD_HEAD),
        writes_to(
            m,
            m2,
            seq![
                ((BDA_PHYS_BASE + word_at(m, BDA_KBD_TAIL)) as u64, ascii),
                ((BDA_PHYS_BASE + word_at(m, BDA_KBD_TAIL) + 1) as u64, scancode),
            ] + word_writes(BDA_KBD_TAIL, advance_off_spec(word_at(m, BDA_KBD_TAIL))),
        ),
    ensures
        m2.wf(),
        bda_plain(m2),
        enqueued_bytes(m, m2, ascii, scancode),
{
    let tail = word_at(m, BDA_KBD_TAIL);
    let next = advance_off_spec(tail);
    lemma_advance_valid(tail);
    let w = seq![((BDA_PHYS_BASE + tail) as u64, ascii), ((BDA_PHYS_BASE + tail + 1) as u64, scancode)]
        + word_writes(BDA_KBD_TAIL, next);
    assert forall|i: int| 0 <= i < w.len() implies m.plain_ram_at(#[trigger] w[i].0) by {
        lemma_bda_plain_at(m, w[i].0);
    }
    lemma_plain_writes(m, m2, w);
    reveal_with_fuel(read_after, 5);
    assert forall|a: u64| 0x400 <= a < 0x500 implies #[trigger] m2.plain_ram_at(a) by {
        lemma_bda_plain_at(m, a);
    }
    assert forall|b: u64| 0x400 <= b < 0x500 implies #[trigger] m2.read_spec(b) == (if b == (BDA_PHYS_BASE
        + tail) as u64 {
        ascii
    } else if b == (BDA_PHYS_BASE + tail + 1) as u64 {
        scancode
    } else if b == BDA_KBD_TAIL {
        next as u8
    } else if b == (BDA_KBD_TAIL + 1) as u64 {
        0u8
    } else {
        m.read_spec(b)
    }) by {
        lemma_bda_plain_at(m, b);
    }
}

/// BDA bytes of `m2` are those of `m` with the tail slot holding the new
/// word and the tail pointer at `next`.
pub open spec fn enqueued_bytes(m: PhysMem, m2: PhysMem, ascii: u8, scancode: u8) -> bool {
    let tail = word_at(m, BDA_KBD_TAIL);
    let next = advance_off_spec(tail);
    forall|b: u64|
        0x400 <= b < 0x500 ==> #[trigger] m2.read_spec(b) == (if b == (BDA_PHYS_BASE + tail) as u64 {
            ascii
        } else if b == (BDA_PHYS_BASE + tail + 1) as u64 {
            scancode
        } else if b == BDA_KBD_TAIL {
            next as u8
        } else if b == (BDA_KBD_TAIL + 1) as u64 {
            0u8
        } else {
            m.read_spec(b)
        })
}

proof fn lemma_enqueue_ptrs(m: PhysMem, m2: PhysMem, ascii: u8, scancode: u8)
    requires
        ring_ok(m),
        m2.wf(),
        bda_plain(m2),
        queue_len(m) < 15,
        enqueued_bytes(m, m2, ascii, scancode),
    ensures
        word_at(m2, BDA_KBD_HEAD) == word_at(m, BDA_KBD_HEAD),
        word_at(m2, BDA_KBD_TAIL) == advance_off_spec(word_at(m, BDA_KBD_TAIL)),
        ring_ok(m2),
        queue_len(m2) == queue_len(m) + 1,
{
    let tail = word_at(m, BDA_KBD_TAIL);
    let next = advance_off_spec(tail);
    lemma_advance_valid(tail);
    assert(m2.read_spec(BDA_KBD_HEAD) == m.read_spec(BDA_KBD_HEAD));
    assert(m2.read_spec((BDA_KBD_HEAD + 1) as u64) == m.read_spec((BDA_KBD_HEAD + 1) as u64));
    assert(m2.read_spec(BDA_KBD_TAIL) == next as u8);
    assert(m2.read_spec((BDA_KBD_TAIL + 1) as u64) == 0u8);
}

/// Slots `i < len` of a ring starting at `head` lie apart from the slot
/// `len`, which is the tail's word.
#[verifier::spinoff_prover]
#[verifier::rlimit(40)]
proof fn lemma_slot_apart(head: u16, tail: u16, i: int, len: int)
    requires
        valid_off(head),
        valid_off(tail),
        len == (ring_pos(tail) - ring_pos(head)) % 16,
        0 <= i < len,
    ensures
        0x41E <= slot_addr(head, i) <= 0x43C,
        slot_addr(head, i) != (BDA_PHYS_BASE + tail) as u64,
        slot_addr(head, i) != (BDA_PHYS_BASE + tail + 1) as u64,
        (slot_addr(head, i) + 1) as u64 != (BDA_PHYS_BASE + tail) as u64,
        (slot_addr(head, i) + 1) as u64 != (BDA_PHYS_BASE + tail + 1) as u64,
        slot_addr(head, i) != BDA_KBD_TAIL,
        slot_addr(head, i) != (BDA_KBD_TAIL + 1) as u64,
        (slot_addr(head, i) + 1) as u64 != BDA_KBD_TAIL,
        (slot_addr(head, i) + 1) as u64 != (BDA_KBD_TAIL + 1) as u64,
{
    assert((ring_pos(head) + i) % 16 != (ring_pos(head) + len) % 16);
    assert((ring_pos(head) + len) % 16 == ring_pos(tail));
}

/// Slot `len` of a ring starting at `head` is the tail's word.
proof fn lemma_slot_tail(head: u16, tail: u16, len: int)
    requires
        valid_off(head),
        valid_off(tail),
        len == (ring_pos(tail) - ring_pos(head)) % 16,
    ensures
        slot_addr(head, len) == (BDA_PHYS_BASE + tail) as u64,
{
    assert((ring_pos(head) + len) % 16 == ring_pos(tail));
}

#[verifier::spinoff_prover]
#[verifier::rlimit(50)]
proof fn lemma_enqueue_queue(m: PhysMem, m2: PhysMem, ascii: u8, scancode: u8)
    requires
        valid_off(word_at(m, BDA_KBD_HEAD)),
        valid_off(word_at(m, BDA_KBD_TAIL)),
        word_at(m2, BDA_KBD_HEAD) == word_at(m, BDA_KBD_HEAD),
        queue_len(m2) == queue_len(m) + 1,
        0 <= queue_len(m) < 15,
        enqueued_bytes(m, m2, ascii, scancode),
    ensures
        kbd_queue(m2) == kbd_queue(m).push((ascii, scancode)),
{
    let head = word_at(m, BDA_KBD_HEAD);
    let tail = word_at(m, BDA_KBD_TAIL);
    let len = queue_len(m);
    let q = kbd_queue(m);
    let q2 = kbd_queue(m2);
    assert forall|i: int| 0 <= i < len + 1 implies #[trigger] q2[i] == q.push((ascii, scancode))[i] by {
        let sa = slot_addr(head, i);
        if i < len {
            lemma_slot_apart(head, tail, i, len);
            assert(m2.read_spec(sa) == m.read_spec(sa));
            assert(m2.read_spec((sa + 1) as u64) == m.read_spec((sa + 1) as u64));
        } else {
            lemma_slot_tail(head, tail, len);
            assert(m2.read_spec(sa) == ascii);
            assert(m2.read_spec((sa + 1) as u64) == scancode);
        }
    }
    assert(q2 =~= q.push((ascii, scancode)));
}

/// Enqueuing onto a valid ring that is not full appends the keystroke at
/// the back of the queue and keeps the ring valid; onto a full ring (15
/// words) it is refused and changes nothing.
pub proof fn law_kbd_enqueue_appends(m: PhysMem, m2: PhysMem, ascii: u8, scancode: u8, r: bool)
    requires
        ring_ok(m),
        enqueue_rel(m, m2, ascii, scancode, r),
    ensures
        queue_len(m) < 15 ==> r && ring_ok(m2) && kbd_queue(m2) == kbd_queue(m).push((ascii, scancode)),
        queue_len(m) == 15 ==> !r && m2 == m,
{
    let head = word_at(m, BDA_KBD_HEAD);
    let tail = word_at(m, BDA_KBD_TAIL);
    let next = advance_off_spec(tail);
    lemma_advance_valid(tail);
    let len = queue_len(m);
    if next == head {
        assert(len == 15);
    } else {
        if len == 15 {
            lemma_valid_pos_eq(next, head);
        }
        lemma_enqueue_memory(m, m2, ascii, scancode);
        lemma_enqueue_ptrs(m, m2, ascii, scancode);
        lemma_enqueue_queue(m, m2, ascii, scancode);
    }
}

/// Memory after a dequeue from a non-empty ring: the head pointer at
/// `next`, every other BDA byte as before.
proof fn lemma_dequeue_memory(m: PhysMem, m2: PhysMem)
    requires
        ring_ok(m),
        writes_to(m, m2, word_writes(BDA_KBD_HEAD, advance_off_spec(word_at(m, BDA_KBD_HEAD)))),
    ensures
        m2.wf(),
        bda_plain(m2),
        forall|b: u64|
            0x400 <= b < 0x500 ==> #[trigger] m2.read_spec(b) == (if b == BDA_KBD_HEAD {
                advance_off_spec(word_at(m, BDA_KBD_HEAD)) as u8
            } else if b == (BDA_KBD_HEAD + 1) as u64 {
                0u8
            } else {
                m.read_spec(b)
            }),
{
    let next = advance_off_spec(word_at(m, BDA_KBD_HEAD));
    lemma_advance_valid(word_at(m, BDA_KBD_HEAD));
    let w = word_writes(BDA_KBD_HEAD, next);
    assert forall|i: int| 0 <= i < w.len() implies m.plain_ram_at(#[trigger] w[i].0) by {
        lemma_bda_plain_at(m, w[i].0);
    }
    lemma_plain_writes(m, m2, w);
    reveal_with_fuel(read_after, 3);
    assert forall|a: u64| 0x400 <= a < 0x500 implies #[trigger] m2.plain_ram_at(a) by {
        lemma_bda_plain_at(m, a);
    }
    assert forall|b: u64| 0x400 <= b < 0x500 implies #[trigger] m2.read_spec(b) == (if b == BDA_KBD_HEAD {
        next as u8
    } else if b == (BDA_KBD_HEAD + 1) as u64 {
        0u8
    } else {
        m.read_spec(b)
    }) by {
        lemma_bda_plain_at(m, b);
    }
}

#[verifier::spinoff_prover]
proof fn lemma_dequeue_queue(m: PhysMem, m2: PhysMem)
    requires
        valid_off(word_at(m, BDA_KBD_HEAD)),
        valid_off(word_at(m, BDA_KBD_TAIL)),
        word_at(m2, BDA_KBD_HEAD) == advance_off_spec(word_at(m, BDA_KBD_HEAD)),
        queue_len(m2) == queue_len(m) - 1,
        0 < queue_len(m) <= 15,
        forall|b: u64|
            0x41E <= b < 0x500 ==> #[trigger] m2.read_spec(b) == m.read_spec(b),
    ensures
        kbd_queue(m2) == kbd_queue(m).drop_first(),
{
    let head = word_at(m, BDA_KBD_HEAD);
    let next = advance_off_spec(head);
    lemma_advance_valid(head);
    let len = queue_len(m);
    let q = kbd_queue(m);
    let q2 = kbd_queue(m2);
    assert forall|i: int| 0 <= i < len - 1 implies #[trigger] q2[i] == q.drop_first()[i] by {
        assert(slot_addr(next, i) == slot_addr(head, i + 1));
        let sa = slot_addr(head, i + 1);
        assert(0x41E <= sa <= 0x43C);
        assert(m2.read_spec(sa) == m.read_spec(sa));
        assert(m2.read_spec((sa + 1) as u64) == m.read_spec((sa + 1) as u64));
    }
    assert(q2 =~= q.drop_first());
}

/// Dequeuing from a valid ring returns the oldest keystroke and removes it
/// (the queue loses its front); from an empty ring it returns nothing and
/// changes nothing. Peeking returns the same keystroke.
pub proof fn law_kbd_dequeue_takes_front(m: PhysMem, m2: PhysMem, r: Option<(u8, u8)>)
    requires
        ring_ok(m),
        dequeue_rel(m, m2, r),
    ensures
        peek_spec(m) == r,
        queue_len(m) == 0 ==> r is None && m2 == m,
        queue_len(m) > 0 ==> r == Some(kbd_queue(m)[0]) && ring_ok(m2) && kbd_queue(m2)
            == kbd_queue(m).drop_first(),
{
    let head = word_at(m, BDA_KBD_HEAD);
    let tail = word_at(m, BDA_KBD_TAIL);
    let len = queue_len(m);
    if head == tail {
        assert(len == 0);
    } else {
        if len == 0 {
            lemma_valid_pos_eq(head, tail);
        }
        assert(slot_addr(head, 0) == (BDA_PHYS_BASE + head) as u64);
        let next = advance_off_spec(head);
        lemma_advance_valid(head);
        lemma_dequeue_memory(m, m2);
        assert(m2.read_spec(BDA_KBD_TAIL) == m.read_spec(BDA_KBD_TAIL));
        assert(m2.read_spec((BDA_KBD_TAIL + 1) as u64) == m.read_spec((BDA_KBD_TAIL + 1) as u64));
        assert(word_at(m2, BDA_KBD_TAIL) == tail);
        assert(m2.read_spec(BDA_KBD_HEAD) == next as u8);
        assert(m2.read_spec((BDA_KBD_HEAD + 1) as u64) == 0u8);
        assert(word_at(m2, BDA_KBD_HEAD) == next);
        assert(queue_len(m2) == len - 1);
        assert forall|b: u64| 0x41E <= b < 0x500 implies #[trigger] m2.read_spec(b) == m.read_spec(b) by {
        }
        lemma_dequeue_queue(m, m2);
    }
}

/// The ring length reported for a valid ring is the queue's length.
pub proof fn law_kbd_len_is_queue_len(m: PhysMem)
    requires
        ring_ok(m),
    ensures
        count_spec(word_at(m, BDA_KBD_HEAD), word_at(m, BDA_KBD_TAIL)) == kbd_queue(m).len(),
{
    law_kbd_count_closed_form(word_at(m, BDA_KBD_HEAD), word_at(m, BDA_KBD_TAIL));
}


/// After a Ctrl or Alt make or break, the combined Ctrl bit of `0040:0017`
/// is set exactly when left Ctrl (`0040:0018`) or right Ctrl (`0040:0096`)
/// is down, and likewise the Alt bit.
pub proof fn law_kbd_ctrl_alt_combined(f1: u8, f2: u8, mode: u8, scancode: u8, e0: bool)
    requires
        scancode & 0x7F == 0x1D || scancode & 0x7F == 0x38,
    ensures
        ({
            let e = set1_modifier_spec(f1, f2, mode, scancode, e0);
            &&& e.handled
            &&& (e.flag1 & KBD_FLAG1_CTRL != 0) == (e.flag2 & KBD_FLAG2_LEFT_CTRL != 0 || e.mode
                & KBD_MODE_RIGHT_CTRL != 0)
            &&& (e.flag1 & KBD_FLAG1_ALT != 0) == (e.flag2 & KBD_FLAG2_LEFT_ALT != 0 || e.mode
                & KBD_MODE_RIGHT_ALT != 0)
        }),
{
    let e = set1_modifier_spec(f1, f2, mode, scancode, e0);
    let a = e.flag1;
    let g2 = e.flag2;
    let m2 = e.mode;
    assert(a == ctrl_alt_spec(f1, g2, m2));
    assert(forall|x: u8, y: u8, z: u8|
        #![trigger ctrl_alt_spec(x, y, z)]
        (ctrl_alt_spec(x, y, z) & 4u8 != 0) == (y & 1u8 != 0 || z & 4u8 != 0) && (ctrl_alt_spec(x, y, z)
            & 8u8 != 0) == (y & 2u8 != 0 || z & 8u8 != 0)) by (bit_vector);
}

/// A Shift make sets its bit in `0040:0017` and its break clears it,
/// leaving the other bits alone.
pub proof fn law_kbd_shift_tracks_make_break(f1: u8, f2: u8, mode: u8, e0: bool)
    ensures
        set1_modifier_spec(f1, f2, mode, 0x2A, e0).flag1 == f1 | KBD_FLAG1_LEFT_SHIFT,
        set1_modifier_spec(f1, f2, mode, 0xAA, e0).flag1 == f1 & !KBD_FLAG1_LEFT_SHIFT,
        set1_modifier_spec(f1, f2, mode, 0x36, false).flag1 == f1 | KBD_FLAG1_RIGHT_SHIFT,
        set1_modifier_spec(f1, f2, mode, 0xB6, false).flag1 == f1 & !KBD_FLAG1_RIGHT_SHIFT,
{
    assert(0x2Au8 & 0x7F == 0x2A && 0x2Au8 & 0x80 == 0 && 0xAAu8 & 0x7F == 0x2A && 0xAAu8 & 0x80 != 0)
        by (bit_vector);
    assert(0x36u8 & 0x7F == 0x36 && 0x36u8 & 0x80 == 0 && 0xB6u8 & 0x7F == 0x36 && 0xB6u8 & 0x80 != 0)
        by (bit_vector);
}

/// A Caps Lock make toggles the Caps Lock bit of `0040:0017` and reports an
/// LED mirror whose Caps bit equals the new lock bit.
pub proof fn law_kbd_caps_lock_toggles(f1: u8, f2: u8, mode: u8)
    ensures
        ({
            let e = set1_modifier_spec(f1, f2, mode, 0x3A, false);
            &&& e.handled
            &&& (e.flag1 & KBD_FLAG1_CAPS_LOCK != 0) == (f1 & KBD_FLAG1_CAPS_LOCK == 0)
            &&& e.leds == Some(led_mirror_spec(e.flag1))
            &&& (led_mirror_spec(e.flag1) & KBD_LED_CAPS != 0) == (e.flag1 & KBD_FLAG1_CAPS_LOCK != 0)
        }),
{
    assert(0x3Au8 & 0x7F == 0x3A && 0x3Au8 & 0x80 == 0) by (bit_vector);
    let g = f1 ^ 0x40u8;
    assert((g & 0x40u8 != 0) == (f1 & 0x40u8 == 0)) by (bit_vector)
        requires
            g == f1 ^ 0x40u8,
    ;
    assert(((if g & 0x10u8 != 0 { 1u8 } else { 0u8 }) | (if g & 0x20u8 != 0 { 2u8 } else { 0u8 }) | (if g
        & 0x40u8 != 0 { 4u8 } else { 0u8 })) & 4u8 != 0 <==> g & 0x40u8 != 0) by (bit_vector);
}


/// The LED mirror carries the Scroll, Num and Caps lock bits of `0040:0017`
/// (10h, 20h, 40h) in its bits 0, 1 and 2 and nothing else.
proof fn lemma_led_mirror_bits(g: u8)
    ensures
        (led_mirror_spec(g) & 0x01 != 0) == (g & 0x10 != 0),
        (led_mirror_spec(g) & 0x02 != 0) == (g & 0x20 != 0),
        (led_mirror_spec(g) & 0x04 != 0) == (g & 0x40 != 0),
        led_mirror_spec(g) & 0xF8 == 0,
{
    let l = led_mirror_spec(g);
    assert(l == ((if g & 0x10u8 != 0 { 1u8 } else { 0u8 }) | (if g & 0x20u8 != 0 { 2u8 } else { 0u8 }) | (
    if g & 0x40u8 != 0 { 4u8 } else { 0u8 })));
    assert({
        let x = (if g & 0x10u8 != 0 { 1u8 } else { 0u8 }) | (if g & 0x20u8 != 0 { 2u8 } else { 0u8 }) | (if g
            & 0x40u8 != 0 { 4u8 } else { 0u8 });
        &&& (x & 0x01 != 0) == (g & 0x10 != 0)
        &&& (x & 0x02 != 0) == (g & 0x20 != 0)
        &&& (x & 0x04 != 0) == (g & 0x40 != 0)
        &&& x & 0xF8 == 0
    }) by (bit_vector);
}

/// A lock-key make toggles its lock bit alone, sets its key-down bit alone,
/// and reports an LED mirror matching the new lock bits.
pub open spec fn lock_make_effect(e: Set1ModifierEffect, f1: u8, f2: u8, lock: u8) -> bool {
    &&& e.handled
    &&& e.flag1 == f1 ^ lock
    &&& e.flag2 == f2 | lock
    &&& e.leds is Some
    &&& (e.leds->Some_0 & 0x01 != 0) == (e.flag1 & 0x10 != 0)
    &&& (e.leds->Some_0 & 0x02 != 0) == (e.flag1 & 0x20 != 0)
    &&& (e.leds->Some_0 & 0x04 != 0) == (e.flag1 & 0x40 != 0)
    &&& e.leds->Some_0 & 0xF8 == 0
}

/// A lock-key break clears its key-down bit alone and leaves the lock bits
/// and the LEDs as they were.
pub open spec fn lock_break_effect(e: Set1ModifierEffect, f1: u8, f2: u8, lock: u8) -> bool {
    &&& e.handled
    &&& e.flag1 == f1
    &&& e.flag2 == f2 & !lock
    &&& e.leds is None
}

/// Caps Lock (3Ah), Num Lock (45h) and Scroll Lock (46h), not E0-prefixed:
/// a make toggles exactly the key's lock bit of `0040:0017` (40h, 20h, 10h
/// respectively), sets exactly its key-down bit of `0040:0018` (the same
/// bit value), and reports an LED mirror whose Caps, Num and Scroll bits
/// (4, 2, 1) equal the new lock bits; the break (the same code with bit 7
/// set) clears exactly the key-down bit and touches neither the lock bits
/// nor the LEDs.
pub proof fn law_kbd_lock_keys(f1: u8, f2: u8, mode: u8)
    ensures
        lock_make_effect(set1_modifier_spec(f1, f2, mode, 0x3A, false), f1, f2, 0x40),
        lock_make_effect(set1_modifier_spec(f1, f2, mode, 0x45, false), f1, f2, 0x20),
        lock_make_effect(set1_modifier_spec(f1, f2, mode, 0x46, false), f1, f2, 0x10),
        lock_break_effect(set1_modifier_spec(f1, f2, mode, 0xBA, false), f1, f2, 0x40),
        lock_break_effect(set1_modifier_spec(f1, f2, mode, 0xC5, false), f1, f2, 0x20),
        lock_break_effect(set1_modifier_spec(f1, f2, mode, 0xC6, false), f1, f2, 0x10),
{
    assert(0x3Au8 & 0x7F == 0x3A && 0x3Au8 & 0x80 == 0 && 0xBAu8 & 0x7F == 0x3A && 0xBAu8 & 0x80 != 0)
        by (bit_vector);
    assert(0x45u8 & 0x7F == 0x45 && 0x45u8 & 0x80 == 0 && 0xC5u8 & 0x7F == 0x45 && 0xC5u8 & 0x80 != 0)
        by (bit_vector);
    assert(0x46u8 & 0x7F == 0x46 && 0x46u8 & 0x80 == 0 && 0xC6u8 & 0x7F == 0x46 && 0xC6u8 & 0x80 != 0)
        by (bit_vector);
    lemma_led_mirror_bits(f1 ^ 0x40u8);
    lemma_led_mirror_bits(f1 ^ 0x20u8);
    lemma_led_mirror_bits(f1 ^ 0x10u8);
}


/// A scancode that is no Shift, Ctrl, Alt or lock key (and an E0-prefixed
/// right Shift or lock code) is not handled: the flags stay, no LEDs are
/// reported, and the mode byte only takes the enhanced-keyboard default
/// (10h) when it was 0.
pub proof fn law_kbd_other_keys_untouched(f1: u8, f2: u8, mode: u8, scancode: u8, e0: bool)
    requires
        scancode & 0x7F != 0x2A,
        scancode & 0x7F != 0x1D,
        scancode & 0x7F != 0x38,
        !e0 ==> (scancode & 0x7F != 0x36 && scancode & 0x7F != 0x3A && scancode & 0x7F != 0x45
            && scancode & 0x7F != 0x46),
    ensures
        ({
            let e = set1_modifier_spec(f1, f2, mode, scancode, e0);
            &&& !e.handled
            &&& e.flag1 == f1
            &&& e.flag2 == f2
            &&& e.leds is None
            &&& e.mode == (if mode == 0 { 0x10u8 } else { mode })
        }),
{
}

/// Left and right Ctrl and Alt keep separate down bits: a left key (no E0)
/// sets (make) or clears (break) its bit of `0040:0018` (Ctrl 01h, Alt 02h)
/// and leaves the mode byte; a right key (E0) does the same to its bit of
/// `0040:0096` (Ctrl 04h, Alt 08h) and leaves `0040:0018`.
pub proof fn law_kbd_ctrl_alt_sides(f1: u8, f2: u8, mode: u8)
    requires
        mode != 0,
    ensures
        set1_modifier_spec(f1, f2, mode, 0x1D, false).flag2 == f2 | 0x01,
        set1_modifier_spec(f1, f2, mode, 0x9D, false).flag2 == f2 & !0x01u8,
        set1_modifier_spec(f1, f2, mode, 0x1D, false).mode == mode,
        set1_modifier_spec(f1, f2, mode, 0x38, false).flag2 == f2 | 0x02,
        set1_modifier_spec(f1, f2, mode, 0xB8, false).flag2 == f2 & !0x02u8,
        set1_modifier_spec(f1, f2, mode, 0x38, false).mode == mode,
        set1_modifier_spec(f1, f2, mode, 0x1D, true).mode == mode | 0x04,
        set1_modifier_spec(f1, f2, mode, 0x9D, true).mode == mode & !0x04u8,
        set1_modifier_spec(f1, f2, mode, 0x1D, true).flag2 == f2,
        set1_modifier_spec(f1, f2, mode, 0x38, true).mode == mode | 0x08,
        set1_modifier_spec(f1, f2, mode, 0xB8, true).mode == mode & !0x08u8,
        set1_modifier_spec(f1, f2, mode, 0x38, true).flag2 == f2,
{
    assert(0x1Du8 & 0x7F == 0x1D && 0x1Du8 & 0x80 == 0 && 0x9Du8 & 0x7F == 0x1D && 0x9Du8 & 0x80 != 0)
        by (bit_vector);
    assert(0x38u8 & 0x7F == 0x38 && 0x38u8 & 0x80 == 0 && 0xB8u8 & 0x7F == 0x38 && 0xB8u8 & 0x80 != 0)
        by (bit_vector);
}

} // verus!
