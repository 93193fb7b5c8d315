//! The built-in reset ROM that prints `HELLO FROM EMULATOR` on COM1 and the
//! `0x402` debug port, then halts.
use vstd::prelude::*;

use crate::bytes::{fill, push_bytes, push_fill};

verus! {

/// Text the built-in ROM prints.
pub const EXPECTED_HELLO: &'static str = "HELLO FROM EMULATOR";

/// Size of the built-in ROM (mapped at `0xFFFF_0000`).
pub const HELLO_ROM_SIZE: usize = 0x10000;

/// Offset of the message inside the ROM.
pub const HELLO_MSG_OFFSET: usize = 0x17;

/// Offset of the reset vector inside the ROM.
pub const HELLO_RESET_VECTOR: usize = 0xFFF0;

/// Real-mode code at offset 0: `cli; mov bx,0017h; L: mov al,cs:[bx];
/// test al,al; jz done; mov dx,3F8h; out dx,al; mov dx,402h; out dx,al;
/// inc bx; jmp L; done: hlt`.
pub open spec fn hello_code() -> Seq<u8> {
    seq![
        0xFAu8, 0xBB, 0x17, 0x00, 0x2E, 0x8A, 0x07, 0x84, 0xC0, 0x74, 0x0B, 0xBA, 0xF8, 0x03,
        0xEE, 0xBA, 0x02, 0x04, 0xEE, 0x43, 0xEB, 0xEE, 0xF4,
    ]
}

/// ASCII `HELLO FROM EMULATOR`.
pub open spec fn hello_text() -> Seq<u8> {
    seq![
        0x48u8, 0x45, 0x4C, 0x4C, 0x4F, 0x20, 0x46, 0x52, 0x4F, 0x4D, 0x20, 0x45, 0x4D, 0x55,
        0x4C, 0x41, 0x54, 0x4F, 0x52,
    ]
}

/// Layout of the built-in ROM: code, NUL-terminated message, zero padding,
/// and a near `JMP` to offset 0 at the reset vector.
pub open spec fn hello_rom_spec() -> Seq<u8> {
    hello_code() + hello_text() + fill(0xFFF0 - 0x2A, 0) + seq![0xE9u8, 0x0D, 0x00] + fill(13, 0)
}

/// Build the 64 KiB HELLO ROM.
pub fn build_hello_rom() -> (r: Vec<u8>)
    ensures
        r@ == hello_rom_spec(),
        r@.len() == HELLO_ROM_SIZE,
        r@.subrange(HELLO_MSG_OFFSET as int, HELLO_MSG_OFFSET + 19) == hello_text(),
{
    let code: Vec<u8> = vec![
        0xFAu8, 0xBB, 0x17, 0x00, 0x2E, 0x8A, 0x07, 0x84, 0xC0, 0x74, 0x0B, 0xBA, 0xF8, 0x03,
        0xEE, 0xBA, 0x02, 0x04, 0xEE, 0x43, 0xEB, 0xEE, 0xF4,
    ];
    assert(code@ =~= hello_code());
    let msg: Vec<u8> = vec![
        0x48u8, 0x45, 0x4C, 0x4C, 0x4F, 0x20, 0x46, 0x52, 0x4F, 0x4D, 0x20, 0x45, 0x4D, 0x55,
        0x4C, 0x41, 0x54, 0x4F, 0x52,
    ];
    assert(msg@ =~= hello_text());
    let mut rom: Vec<u8> = Vec::new();
    push_bytes(&mut rom, code.as_slice());
    push_bytes(&mut rom, msg.as_slice());
    push_fill(&mut rom, 0, 0xFFF0 - 0x2A);
    rom.push(0xE9);
    rom.push(0x0D);
    rom.push(0x00);
    push_fill(&mut rom, 0, 13);
    assert(rom@ =~= hello_rom_spec());
    assert(rom@.subrange(0x17, 0x2A) =~= hello_text());
    rom
}

} // verus!
