//! INT 10h video subset: AH=00h set mode (03h text, 13h graphics) and
//! AH=0Eh teletype output, with the BDA video fields. The display adapter
//! itself is driven by the caller from the returned action.
use vstd::prelude::*;
use crate::mem::{byte_writes, lemma_writes_concat, lemma_writes_none, write_all, writes_to, PhysMem};

verus! {

/// INT 10h vector number.
pub const INT10_VECTOR: u8 = 0x10;

/// AH=00h: set video mode.
pub const INT10_AH_SET_MODE: u8 = 0x00;

/// AH=0Eh: teletype output.
pub const INT10_AH_TELETYPE: u8 = 0x0E;

/// Mode 03h: 80x25 colour text.
pub const INT10_MODE_03H_TEXT: u8 = 0x03;

/// Mode 13h: 320x200x256.
pub const INT10_MODE_13H_GRAPHICS: u8 = 0x13;

/// BDA current video mode (`0040:0049`).
pub const BDA_VIDEO_MODE: u64 = 0x449;

/// BDA screen columns (`0040:004A`).
pub const BDA_VIDEO_COLS: u64 = 0x44A;

/// BDA cursor of display page 0 (`0040:0050`): column, then row.
pub const BDA_CURSOR_PAGE0: u64 = 0x450;

/// BDA active display page (`0040:0062`).
pub const BDA_ACTIVE_PAGE: u64 = 0x462;

/// Text rows of the teletype screen.
pub const INT10_TEXT_ROWS: u8 = 25;

/// Text columns of the teletype screen.
pub const INT10_TEXT_COLS: u8 = 80;

/// What the display adapter is to do after an INT 10h call.
#[derive(Clone, Copy, Debug, PartialEq, Eq, Structural)]
pub enum Int10Action {
    /// Nothing.
    Nothing,
    /// Reset to 80x25 text.
    ResetText,
    /// Program mode 13h.
    ProgramMode13h,
    /// Put `ch` at `row`, `col` with the cell's current attribute.
    PutChar { row: u8, col: u8, ch: u8 },
}

/// The BDA writes of a mode set: mode, column count (little-endian word),
/// page 0, then the cursor column and row.
pub open spec fn video_writes(mode: u8, cols: u16, row: u8, col: u8) -> Seq<(u64, u8)> {
    byte_writes(BDA_VIDEO_MODE, seq![mode, (cols % 256) as u8, (cols / 256) as u8]) + byte_writes(
        BDA_ACTIVE_PAGE,
        seq![0u8],
    ) + cursor_writes(row, col)
}

/// The BDA writes of a cursor move: column, then row.
pub open spec fn cursor_writes(row: u8, col: u8) -> Seq<(u64, u8)> {
    byte_writes(BDA_CURSOR_PAGE0, seq![col, row])
}

fn read_byte(mem: &PhysMem, p: u64) -> (r: u8)
    requires
        mem.wf(),
    ensures
        r == mem.read_spec(p),
{
    match mem.read_u8(p) {
        Ok(b) => b,
        Err(_) => 0,
    }
}

/// Write the page-0 cursor (`0040:0050` column, `0040:0051` row).
pub fn write_bda_cursor(mem: &mut PhysMem, row: u8, col: u8)
    requires
        old(mem).wf(),
    ensures
        final(mem).wf(),
        writes_to(*old(mem), *final(mem), cursor_writes(row, col)),
{
    let bytes: Vec<u8> = vec![col, row];
    assert(bytes@ =~= seq![col, row]);
    write_all(mem, BDA_CURSOR_PAGE0, bytes.as_slice());
}

/// Read the page-0 cursor as `(row, column)`.
pub fn read_bda_cursor(mem: &PhysMem) -> (r: (u8, u8))
    requires
        mem.wf(),
    ensures
        r == (mem.read_spec((BDA_CURSOR_PAGE0 + 1) as u64), mem.read_spec(BDA_CURSOR_PAGE0)),
{
    let col = read_byte(mem, BDA_CURSOR_PAGE0);
    let row = read_byte(mem, BDA_CURSOR_PAGE0 + 1);
    (row, col)
}

/// Record a mode in the BDA: mode byte, columns, page 0 and the cursor.
pub fn write_bda_video(mem: &mut PhysMem, mode: u8, cols: u16, row: u8, col: u8)
    requires
        old(mem).wf(),
    ensures
        final(mem).wf(),
        writes_to(*old(mem), *final(mem), video_writes(mode, cols, row, col)),
{
    let ghost m0 = *mem;
    let head: Vec<u8> = vec![mode, (cols % 256) as u8, (cols / 256) as u8];
    assert(head@ =~= seq![mode, (cols % 256) as u8, (cols / 256) as u8]);
    write_all(mem, BDA_VIDEO_MODE, head.as_slice());
    let ghost m1 = *mem;
    let page: Vec<u8> = vec![0u8];
    assert(page@ =~= seq![0u8]);
    write_all(mem, BDA_ACTIVE_PAGE, page.as_slice());
    let ghost m2 = *mem;
    write_bda_cursor(mem, row, col);
    proof {
        let w1 = byte_writes(BDA_VIDEO_MODE, seq![mode, (cols % 256) as u8, (cols / 256) as u8]);
        let w2 = byte_writes(BDA_ACTIVE_PAGE, seq![0u8]);
        lemma_writes_concat(m0, m1, m2, w1, w2);
        lemma_writes_concat(m0, m2, *mem, w1 + w2, cursor_writes(row, col));
    }
}

/// The cursor after teletype output of `ch` at `(row, col)`: CR to column
/// 0, LF one row down (staying on the last row), BS one column left
/// (stopping at 0), BEL nowhere; any other byte is written and the cursor
/// advances, wrapping to the next row's column 0 at column 80.
pub open spec fn teletype_cursor(row: u8, col: u8, ch: u8) -> (u8, u8) {
    let down = if row + 1 < INT10_TEXT_ROWS {
        (row + 1) as u8
    } else {
        row
    };
    if ch == 0x0D {
        (row, 0u8)
    } else if ch == 0x0A {
        (down, col)
    } else if ch == 0x08 {
        (row, if col > 0 {
            (col - 1) as u8
        } else {
            0u8
        })
    } else if ch == 0x07 {
        (row, col)
    } else if col + 1 >= INT10_TEXT_COLS {
        (down, 0u8)
    } else {
        (row, (col + 1) as u8)
    }
}

/// Whether teletype output of `ch` writes a character cell.
pub open spec fn teletype_puts(ch: u8) -> bool {
    ch != 0x0D && ch != 0x0A && ch != 0x08 && ch != 0x07
}

/// Whether advancing the cursor for `ch` at `(row, col)` would step a byte
/// coordinate past 255: a line feed on row 255, a written character on
/// column 255, or a written character that wraps from row 255.
pub open spec fn teletype_overflows(row: u8, col: u8, ch: u8) -> bool {
    if ch == 0x0A {
        row == 255
    } else if !teletype_puts(ch) {
        false
    } else {
        col == 255 || (col + 1 >= INT10_TEXT_COLS && row == 255)
    }
}

/// The new cursor, and the cell to write, of teletype output of `ch` at
/// `(row, col)`.
pub fn teletype_step(row: u8, col: u8, ch: u8) -> (r: ((u8, u8), bool))
    requires
        !teletype_overflows(row, col, ch),
    ensures
        r == (teletype_cursor(row, col, ch), teletype_puts(ch)),
{
    if ch == 0x0D {
        ((row, 0), false)
    } else if ch == 0x0A {
        let down: u8 = if row + 1 < INT10_TEXT_ROWS {
            row + 1
        } else {
            row
        };
        ((down, col), false)
    } else if ch == 0x08 {
        ((row, if col > 0 {
            col - 1
        } else {
            0
        }), false)
    } else if ch == 0x07 {
        ((row, col), false)
    } else if col + 1 >= INT10_TEXT_COLS {
        let down: u8 = if row + 1 < INT10_TEXT_ROWS {
            row + 1
        } else {
            row
        };
        ((down, 0), true)
    } else {
        ((row, col + 1), true)
    }
}

/// The INT 10h registers the subset reads.
#[derive(Clone, Copy, Debug, PartialEq, Eq, Structural)]
pub struct Int10Regs {
    pub ah: u8,
    pub al: u8,
}

/// A teletype call of `r` reaches the cursor arithmetic (text mode, page 0)
/// and the cursor in the BDA cannot be advanced for its character.
pub open spec fn teletype_call_overflows(m: PhysMem, r: Int10Regs, text_mode: bool) -> bool {
    &&& r.ah == INT10_AH_TELETYPE
    &&& text_mode
    &&& m.read_spec(BDA_ACTIVE_PAGE) == 0
    &&& teletype_overflows(
        m.read_spec((BDA_CURSOR_PAGE0 + 1) as u64),
        m.read_spec(BDA_CURSOR_PAGE0),
        r.al,
    )
}

/// What INT 10h does: the action for the adapter and the BDA writes.
/// - AH=00h AL=03h: reset text, BDA mode 03h / 80 columns / cursor (0,0);
/// - AH=00h AL=13h: program mode 13h, BDA mode 13h / 40 columns / (0,0);
/// - AH=0Eh in text mode on page 0: the teletype step from the BDA cursor;
/// - anything else: nothing.
pub open spec fn int10_spec(m: PhysMem, r: Int10Regs, text_mode: bool) -> (Int10Action, Seq<(u64, u8)>) {
    if r.ah == INT10_AH_SET_MODE {
        if r.al == INT10_MODE_03H_TEXT {
            (Int10Action::ResetText, video_writes(INT10_MODE_03H_TEXT, 80, 0, 0))
        } else if r.al == INT10_MODE_13H_GRAPHICS {
            (Int10Action::ProgramMode13h, video_writes(INT10_MODE_13H_GRAPHICS, 40, 0, 0))
        } else {
            (Int10Action::Nothing, Seq::empty())
        }
    } else if r.ah == INT10_AH_TELETYPE && text_mode && m.read_spec(BDA_ACTIVE_PAGE) == 0 {
        let row = m.read_spec((BDA_CURSOR_PAGE0 + 1) as u64);
        let col = m.read_spec(BDA_CURSOR_PAGE0);
        let next = teletype_cursor(row, col, r.al);
        (
            if teletype_puts(r.al) {
                Int10Action::PutChar { row: row, col: col, ch: r.al }
            } else {
                Int10Action::Nothing
            },
            cursor_writes(next.0, next.1),
        )
    } else {
        (Int10Action::Nothing, Seq::empty())
    }
}

/// Host INT 10h dispatch. `text_mode` tells whether the adapter shows text
/// (teletype output is text-only); the returned action is for the adapter.
pub fn service_int10(mem: &mut PhysMem, regs: Int10Regs, text_mode: bool) -> (r: Int10Action)
    requires
        old(mem).wf(),
        !teletype_call_overflows(*old(mem), regs, text_mode),
    ensures
        final(mem).wf(),
        r == int10_spec(*old(mem), regs, text_mode).0,
        writes_to(*old(mem), *final(mem), int10_spec(*old(mem), regs, text_mode).1),
{
    proof {
        lemma_writes_none(*old(mem));
    }
    if regs.ah == INT10_AH_SET_MODE {
        if regs.al == INT10_MODE_03H_TEXT {
            write_bda_video(mem, INT10_MODE_03H_TEXT, 80, 0, 0);
            Int10Action::ResetText
        } else if regs.al == INT10_MODE_13H_GRAPHICS {
            write_bda_video(mem, INT10_MODE_13H_GRAPHICS, 40, 0, 0);
            Int10Action::ProgramMode13h
        } else {
            Int10Action::Nothing
        }
    } else if regs.ah == INT10_AH_TELETYPE {
        if !text_mode {
            return Int10Action::Nothing;
        }
        let page = read_byte(mem, BDA_ACTIVE_PAGE);
        if page != 0 {
            return Int10Action::Nothing;
        }
        let (row, col) = read_bda_cursor(mem);
        let ((row2, col2), puts) = teletype_step(row, col, regs.al);
        write_bda_cursor(mem, row2, col2);
        if puts {
            Int10Action::PutChar { row, col, ch: regs.al }
        } else {
            Int10Action::Nothing
        }
    } else {
        Int10Action::Nothing
    }
}

/// Registers of an AH=00h set-mode call.
pub fn setup_int10_set_mode(regs: &mut Int10Regs, mode: u8)
    ensures
        *final(regs) == (Int10Regs { ah: INT10_AH_SET_MODE, al: mode }),
{
    regs.ah = INT10_AH_SET_MODE;
    regs.al = mode;
}

/// Registers of an AH=0Eh teletype call.
pub fn setup_int10_teletype(regs: &mut Int10Regs, ch: u8)
    ensures
        *final(regs) == (Int10Regs { ah: INT10_AH_TELETYPE, al: ch }),
{
    regs.ah = INT10_AH_TELETYPE;
    regs.al = ch;
}

/// Teletype output keeps a cursor on the 80x25 screen: from any cell, any
/// byte leaves the cursor on a cell, and a written character lands on the
/// cell the cursor was on.
pub proof fn law_teletype_cursor_stays_on_screen(row: u8, col: u8, ch: u8)
    requires
        row < INT10_TEXT_ROWS,
        col < INT10_TEXT_COLS,
    ensures
        teletype_cursor(row, col, ch).0 < INT10_TEXT_ROWS,
        teletype_cursor(row, col, ch).1 < INT10_TEXT_COLS,
{
}

/// A carriage return then a line feed moves to column 0 of the next row
/// (the last row stays the last row).
pub proof fn law_teletype_crlf(row: u8, col: u8)
    requires
        row < INT10_TEXT_ROWS,
        col < INT10_TEXT_COLS,
    ensures
        ({
            let cr = teletype_cursor(row, col, 0x0D);
            teletype_cursor(cr.0, cr.1, 0x0A) == (if row + 1 < INT10_TEXT_ROWS {
                ((row + 1) as u8, 0u8)
            } else {
                (row, 0u8)
            })
        }),
{
}


/// INT 10h over its inputs, as BDA writes: AH=00h AL=03h resets text and
/// writes mode 03h, 80 columns, page 0 and cursor (0,0) to `0040:0049`,
/// `004A`, `0062` and `0050`; AL=13h likewise with mode 13h and 40 columns;
/// a teletype call in text mode on page 0 writes only the page-0 cursor
/// (column at `0040:0050`, row at `0051`) and names the cell it prints in,
/// at the old cursor; every other call writes nothing.
pub proof fn law_int10_bda_writes(m: PhysMem, r: Int10Regs, text_mode: bool)
    ensures
        ({
            let (act, w) = int10_spec(m, r, text_mode);
            let row = m.read_spec(0x451);
            let col = m.read_spec(0x450);
            &&& (r.ah == 0x00 && r.al == 0x03) ==> act == Int10Action::ResetText && w == seq![
                (0x449u64, 0x03u8),
                (0x44Au64, 80u8),
                (0x44Bu64, 0u8),
                (0x462u64, 0u8),
                (0x450u64, 0u8),
                (0x451u64, 0u8),
            ]
            &&& (r.ah == 0x00 && r.al == 0x13) ==> act == Int10Action::ProgramMode13h && w == seq![
                (0x449u64, 0x13u8),
                (0x44Au64, 40u8),
                (0x44Bu64, 0u8),
                (0x462u64, 0u8),
                (0x450u64, 0u8),
                (0x451u64, 0u8),
            ]
            &&& (r.ah == 0x0E && text_mode && m.read_spec(0x462) == 0) ==> {
                let next = teletype_cursor(row, col, r.al);
                &&& w == seq![(0x450u64, next.1), (0x451u64, next.0)]
                &&& (r.al == 0x0D || r.al == 0x0A || r.al == 0x08 || r.al == 0x07 ==> act
                    == Int10Action::Nothing)
                &&& (!(r.al == 0x0D || r.al == 0x0A || r.al == 0x08 || r.al == 0x07) ==> act
                    == (Int10Action::PutChar { row, col, ch: r.al }))
            }
            &&& !(r.ah == 0x00 && (r.al == 0x03 || r.al == 0x13)) && !(r.ah == 0x0E && text_mode
                && m.read_spec(0x462) == 0) ==> act == Int10Action::Nothing && w.len() == 0
        }),
{
    assert(video_writes(0x03, 80, 0, 0) =~= seq![
        (0x449u64, 0x03u8),
        (0x44Au64, 80u8),
        (0x44Bu64, 0u8),
        (0x462u64, 0u8),
        (0x450u64, 0u8),
        (0x451u64, 0u8),
    ]);
    assert(video_writes(0x13, 40, 0, 0) =~= seq![
        (0x449u64, 0x13u8),
        (0x44Au64, 40u8),
        (0x44Bu64, 0u8),
        (0x462u64, 0u8),
        (0x450u64, 0u8),
        (0x451u64, 0u8),
    ]);
    let next = teletype_cursor(m.read_spec(0x451), m.read_spec(0x450), r.al);
    assert(cursor_writes(next.0, next.1) =~= seq![(0x450u64, next.1), (0x451u64, next.0)]);
}

} // verus!
