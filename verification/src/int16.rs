//! INT 16h keyboard services (AH=00h/01h/02h/12h): a bounded host
//! typeahead buffer in front of the BDA keyboard ring, and the shift flags.
use vstd::prelude::*;
use crate::bda_kbd::{
    bda_kbd_dequeue, bda_kbd_flag1, bda_kbd_peek, dequeue_rel, extended_shift_ah_spec,
    int16_extended_shift_ah, peek_spec, BDA_KBD_FLAG1, BDA_KBD_FLAG2, BDA_KBD_MODE,
};
use crate::mem::PhysMem;

verus! {

/// AH=00h: read the next keystroke and remove it.
pub const INT16_AH_GET_KEYSTROKE: u8 = 0x00;

/// AH=01h: check whether a keystroke is ready.
pub const INT16_AH_CHECK_KEYSTROKE: u8 = 0x01;

/// AH=02h: get shift flags.
pub const INT16_AH_SHIFT_STATUS: u8 = 0x02;

/// AH=12h: get extended shift states.
pub const INT16_AH_EXTENDED_SHIFT_STATUS: u8 = 0x12;

/// Capacity of the INT 16h typeahead buffer.
pub const INT16_BUFFER_CAP: usize = 16;

/// One BIOS keystroke.
#[derive(Clone, Copy, Debug, PartialEq, Eq, Structural)]
pub struct Int16Key {
    pub ascii: u8,
    pub scancode: u8,
}

impl Int16Key {
    pub fn new(ascii: u8, scancode: u8) -> (r: Self)
        ensures
            r.ascii == ascii,
            r.scancode == scancode,
    {
        Int16Key { ascii, scancode }
    }

    /// The `AX` word: scancode in the high byte, ASCII in the low byte.
    pub fn ax(self) -> (r: u16)
        ensures
            r == self.scancode * 256 + self.ascii,
    {
        (self.scancode as u16) * 256 + (self.ascii as u16)
    }
}

/// The host typeahead buffer: at most [`INT16_BUFFER_CAP`] keystrokes,
/// oldest first.
pub struct Int16Buffer {
    keys: Vec<Int16Key>,
}

impl View for Int16Buffer {
    type V = Seq<Int16Key>;

    closed spec fn view(&self) -> Seq<Int16Key> {
        self.keys@
    }
}

impl Int16Buffer {
    /// At most [`INT16_BUFFER_CAP`] keystrokes wait.
    pub open spec fn wf(&self) -> bool {
        self@.len() <= INT16_BUFFER_CAP
    }

    /// An empty buffer.
    pub fn new() -> (r: Self)
        ensures
            r@ == Seq::<Int16Key>::empty(),
            r.wf(),
    {
        Int16Buffer { keys: Vec::new() }
    }

    /// Append a keystroke; `false` (and no change) when the buffer is full.
    pub fn int16_push_key(&mut self, ascii: u8, scancode: u8) -> (r: bool)
        requires
            old(self).wf(),
        ensures
            final(self).wf(),
            r == (old(self)@.len() < INT16_BUFFER_CAP),
            r ==> final(self)@ == old(self)@.push(Int16Key { ascii: ascii, scancode: scancode }),
            !r ==> final(self)@ == old(self)@,
    {
        if self.keys.len() >= INT16_BUFFER_CAP {
            return false;
        }
        self.keys.push(Int16Key::new(ascii, scancode));
        true
    }

    /// How many keystrokes wait.
    pub fn int16_buffer_len(&self) -> (r: usize)
        ensures
            r == self@.len(),
    {
        self.keys.len()
    }

    /// Drop every waiting keystroke.
    pub fn int16_clear(&mut self)
        ensures
            final(self)@ == Seq::<Int16Key>::empty(),
            final(self).wf(),
    {
        self.keys.clear();
    }

    /// The oldest keystroke, left in place.
    fn front(&self) -> (r: Option<Int16Key>)
        ensures
            r == (if self@.len() == 0 {
                None
            } else {
                Some(self@[0])
            }),
    {
        if self.keys.len() == 0 {
            None
        } else {
            Some(self.keys[0])
        }
    }

    /// Remove and return the oldest keystroke.
    fn pop_front(&mut self) -> (r: Option<Int16Key>)
        ensures
            old(self).wf() ==> final(self).wf(),
            old(self)@.len() == 0 ==> r is None && final(self)@ == old(self)@,
            old(self)@.len() > 0 ==> r == Some(old(self)@[0]) && final(self)@ == old(self)@.drop_first(),
    {
        if self.keys.len() == 0 {
            return None;
        }
        let k = self.keys.remove(0);
        proof {
            assert(self.keys@ =~= old(self)@.drop_first());
        }
        Some(k)
    }
}

/// The INT 16h registers: `AH`, `AL` and the zero flag.
#[derive(Clone, Copy, Debug, PartialEq, Eq, Structural)]
pub struct Int16Regs {
    pub ah: u8,
    pub al: u8,
    pub zf: bool,
}

/// A keystroke in `AX`, zero flag clear.
pub open spec fn key_regs(k: Int16Key) -> Int16Regs {
    Int16Regs { ah: k.scancode, al: k.ascii, zf: false }
}

/// What INT 16h does to the registers and the host buffer, with `m` the
/// memory before the call:
/// - AH=00h: the oldest host keystroke, removed; else the BDA ring's head,
///   dequeued; else the zero flag set (no waiting);
/// - AH=01h: the same keystroke, left in place; else the zero flag set;
/// - AH=02h: `AL` = shift flags `40:17`, zero flag clear;
/// - AH=12h: `AL` = `40:17`, `AH` = extended flags from `40:18` and `40:96`;
/// - any other AH: zero flag set, nothing else.
pub open spec fn int16_spec(m: PhysMem, buf: Seq<Int16Key>, r: Int16Regs) -> (Int16Regs, Seq<Int16Key>) {
    let bda_key = peek_spec(m);
    if r.ah == INT16_AH_GET_KEYSTROKE || r.ah == INT16_AH_CHECK_KEYSTROKE {
        let buf2 = if r.ah == INT16_AH_GET_KEYSTROKE && buf.len() > 0 {
            buf.drop_first()
        } else {
            buf
        };
        if buf.len() > 0 {
            (key_regs(buf[0]), buf2)
        } else {
            match bda_key {
                Some((a, s)) => (key_regs(Int16Key { ascii: a, scancode: s }), buf2),
                None => (Int16Regs { zf: true, ..r }, buf2),
            }
        }
    } else if r.ah == INT16_AH_SHIFT_STATUS {
        (Int16Regs { al: m.read_spec(BDA_KBD_FLAG1), zf: false, ..r }, buf)
    } else if r.ah == INT16_AH_EXTENDED_SHIFT_STATUS {
        (
            Int16Regs {
                ah: extended_shift_ah_spec(m.read_spec(BDA_KBD_FLAG2), m.read_spec(BDA_KBD_MODE)),
                al: m.read_spec(BDA_KBD_FLAG1),
                zf: false,
            },
            buf,
        )
    } else {
        (Int16Regs { zf: true, ..r }, buf)
    }
}

/// Whether this INT 16h call takes the BDA ring's head: AH=00h with an
/// empty host buffer.
pub open spec fn int16_takes_bda(buf: Seq<Int16Key>, r: Int16Regs) -> bool {
    r.ah == INT16_AH_GET_KEYSTROKE && buf.len() == 0
}

/// Host INT 16h dispatch on `AH`.
pub fn service_int16(mem: &mut PhysMem, buf: &mut Int16Buffer, regs: &mut Int16Regs)
    requires
        old(mem).wf(),
        old(buf).wf(),
    ensures
        final(mem).wf(),
        final(buf).wf(),
        (*final(regs), final(buf)@) == int16_spec(*old(mem), old(buf)@, *old(regs)),
        int16_takes_bda(old(buf)@, *old(regs)) ==> dequeue_rel(*old(mem), *final(mem), peek_spec(*old(mem))),
        !int16_takes_bda(old(buf)@, *old(regs)) ==> *final(mem) == *old(mem),
{
    let ah = regs.ah;
    if ah == INT16_AH_GET_KEYSTROKE {
        match buf.pop_front() {
            Some(k) => {
                *regs = Int16Regs { ah: k.scancode, al: k.ascii, zf: false };
            },
            None => match bda_kbd_dequeue(mem) {
                Some((ascii, scancode)) => {
                    *regs = Int16Regs { ah: scancode, al: ascii, zf: false };
                },
                None => {
                    regs.zf = true;
                },
            },
        }
    } else if ah == INT16_AH_CHECK_KEYSTROKE {
        match buf.front() {
            Some(k) => {
                *regs = Int16Regs { ah: k.scancode, al: k.ascii, zf: false };
            },
            None => match bda_kbd_peek(mem) {
                Some((ascii, scancode)) => {
                    *regs = Int16Regs { ah: scancode, al: ascii, zf: false };
                },
                None => {
                    regs.zf = true;
                },
            },
        }
    } else if ah == INT16_AH_SHIFT_STATUS {
        regs.al = bda_kbd_flag1(mem);
        regs.zf = false;
    } else if ah == INT16_AH_EXTENDED_SHIFT_STATUS {
        let al = bda_kbd_flag1(mem);
        let ah2 = int16_extended_shift_ah(mem);
        *regs = Int16Regs { ah: ah2, al: al, zf: false };
    } else {
        regs.zf = true;
    }
}

/// The host buffer is first in, first out: a key pushed into a buffer with
/// room comes out of AH=00h after every key pushed before it, and AH=00h
/// takes the oldest key first.
pub proof fn law_int16_buffer_fifo(m: PhysMem, buf: Seq<Int16Key>, r: Int16Regs, k: Int16Key)
    requires
        r.ah == INT16_AH_GET_KEYSTROKE,
        buf.len() < INT16_BUFFER_CAP,
    ensures
        int16_spec(m, buf.push(k), r) == (
            key_regs(buf.push(k)[0]),
            if buf.len() == 0 {
                Seq::<Int16Key>::empty()
            } else {
                buf.drop_first().push(k)
            },
        ),
{
    assert(buf.push(k).drop_first() =~= (if buf.len() == 0 {
        Seq::<Int16Key>::empty()
    } else {
        buf.drop_first().push(k)
    }));
}


/// INT 16h over its inputs: AH=00h hands out the oldest host key (scan code
/// in AH, ASCII in AL, ZF clear) and removes it, AH=01h reports the same key
/// and keeps it; AH=02h returns the shift flags byte `0040:0017` in AL with
/// ZF clear and AH kept; AH=12h returns that byte in AL and in AH the bits
/// left Ctrl, left Alt (`0040:0018` bits 0, 1), right Ctrl, right Alt
/// (`0040:0096` bits 2, 3), Scroll, Num, Caps down (`0040:0018` bits 4-6)
/// and SysReq down (`0040:0018` bit 2); any other AH only sets ZF.
pub proof fn law_int16_registers(m: PhysMem, buf: Seq<Int16Key>, r: Int16Regs)
    ensures
        ({
            let (o, b) = int16_spec(m, buf, r);
            let f1 = m.read_spec(0x417);
            let f2 = m.read_spec(0x418);
            let md = m.read_spec(0x496);
            &&& (r.ah == 0x00 && buf.len() > 0) ==> o.ah == buf[0].scancode && o.al == buf[0].ascii
                && !o.zf && b == buf.subrange(1, buf.len() as int)
            &&& (r.ah == 0x01 && buf.len() > 0) ==> o.ah == buf[0].scancode && o.al == buf[0].ascii
                && !o.zf && b == buf
            &&& r.ah == 0x02 ==> o.al == f1 && o.ah == r.ah && !o.zf && b == buf
            &&& r.ah == 0x12 ==> {
                &&& o.al == f1
                &&& !o.zf
                &&& b == buf
                &&& (o.ah & 0x01 != 0) == (f2 & 0x01 != 0)
                &&& (o.ah & 0x02 != 0) == (f2 & 0x02 != 0)
                &&& (o.ah & 0x04 != 0) == (md & 0x04 != 0)
                &&& (o.ah & 0x08 != 0) == (md & 0x08 != 0)
                &&& (o.ah & 0x10 != 0) == (f2 & 0x10 != 0)
                &&& (o.ah & 0x20 != 0) == (f2 & 0x20 != 0)
                &&& (o.ah & 0x40 != 0) == (f2 & 0x40 != 0)
                &&& (o.ah & 0x80 != 0) == (f2 & 0x04 != 0)
            }
            &&& (r.ah != 0x00 && r.ah != 0x01 && r.ah != 0x02 && r.ah != 0x12) ==> o == (Int16Regs {
                zf: true,
                ..r
            }) && b == buf
        }),
{
    let f2 = m.read_spec(0x418);
    let md = m.read_spec(0x496);
    let x = extended_shift_ah_spec(f2, md);
    assert(x == (if f2 & 0x01u8 != 0 { 0x01u8 } else { 0u8 }) | (if f2 & 0x02u8 != 0 { 0x02u8 } else { 0u8 })
        | (if md & 0x04u8 != 0 { 0x04u8 } else { 0u8 }) | (if md & 0x08u8 != 0 { 0x08u8 } else { 0u8 })
        | (if f2 & 0x10u8 != 0 { 0x10u8 } else { 0u8 }) | (if f2 & 0x20u8 != 0 { 0x20u8 } else { 0u8 })
        | (if f2 & 0x40u8 != 0 { 0x40u8 } else { 0u8 }) | (if f2 & 0x04u8 != 0 { 0x80u8 } else { 0u8 }));
    assert({
        let y = (if f2 & 0x01u8 != 0 { 0x01u8 } else { 0u8 }) | (if f2 & 0x02u8 != 0 { 0x02u8 } else { 0u8 })
            | (if md & 0x04u8 != 0 { 0x04u8 } else { 0u8 }) | (if md & 0x08u8 != 0 { 0x08u8 } else { 0u8 })
            | (if f2 & 0x10u8 != 0 { 0x10u8 } else { 0u8 }) | (if f2 & 0x20u8 != 0 { 0x20u8 } else { 0u8 })
            | (if f2 & 0x40u8 != 0 { 0x40u8 } else { 0u8 }) | (if f2 & 0x04u8 != 0 { 0x80u8 } else { 0u8 });
        &&& (y & 0x01 != 0) == (f2 & 0x01 != 0)
        &&& (y & 0x02 != 0) == (f2 & 0x02 != 0)
        &&& (y & 0x04 != 0) == (md & 0x04 != 0)
        &&& (y & 0x08 != 0) == (md & 0x08 != 0)
        &&& (y & 0x10 != 0) == (f2 & 0x10 != 0)
        &&& (y & 0x20 != 0) == (f2 & 0x20 != 0)
        &&& (y & 0x40 != 0) == (f2 & 0x40 != 0)
        &&& (y & 0x80 != 0) == (f2 & 0x04 != 0)
    }) by (bit_vector);
    if buf.len() > 0 {
        assert(buf.drop_first() =~= buf.subrange(1, buf.len() as int));
    }
}

} // verus!
