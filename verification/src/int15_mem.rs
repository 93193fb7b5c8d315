//! INT 15h memory-size services: AH=88h (extended memory) and AX=E801h
//! (memory split at 16 MiB), answered from the CMOS memory-size fields.
use vstd::prelude::*;

verus! {

/// AH=88h: contiguous extended memory in KiB above 1 MiB.
pub const INT15_AH_EXT_MEM: u8 = 0x88;

/// AX=E801h: memory size for configurations above 64 MiB.
pub const INT15_AX_E801: u16 = 0xE801;

/// Cap of the CMOS extended-memory field (15 MiB in KiB).
pub const CMOS_EXT_MEMORY_MAX_KB: u16 = 0x3C00;

/// The CMOS memory-size fields the services answer from: extended memory
/// in KiB (`17h`/`18h`) and memory above 16 MiB in 64 KiB blocks
/// (`34h`/`35h`).
#[derive(Clone, Copy, Debug, PartialEq, Eq, Structural)]
pub struct CmosMemorySize {
    pub ext_kb: u16,
    pub above_16m_blocks: u16,
}

/// The registers of the memory-size services.
#[derive(Clone, Copy, Debug, PartialEq, Eq, Structural)]
pub struct Int15MemRegs {
    pub ax: u16,
    pub bx: u16,
    pub cx: u16,
    pub dx: u16,
    pub cf: bool,
}

/// Extended memory as AH=88h reports it: the CMOS field, capped at 15 MiB.
pub fn int15_extended_memory_kb(cmos: CmosMemorySize) -> (r: u16)
    ensures
        r == (if cmos.ext_kb < CMOS_EXT_MEMORY_MAX_KB {
            cmos.ext_kb
        } else {
            CMOS_EXT_MEMORY_MAX_KB
        }),
{
    if cmos.ext_kb < CMOS_EXT_MEMORY_MAX_KB {
        cmos.ext_kb
    } else {
        CMOS_EXT_MEMORY_MAX_KB
    }
}

/// Memory above 16 MiB as E801h reports it, in 64 KiB blocks.
pub fn int15_memory_above_16m_blocks(cmos: CmosMemorySize) -> (r: u16)
    ensures
        r == cmos.above_16m_blocks,
{
    cmos.above_16m_blocks
}

/// What the memory-size services do to the registers:
/// - AX=E801h: AX = CX = extended KiB (capped), BX = DX = blocks above
///   16 MiB, CF clear;
/// - AH=88h: AX = extended KiB (capped), CF clear;
/// - anything else: CF set, nothing else.
pub open spec fn int15_mem_spec(r: Int15MemRegs, cmos: CmosMemorySize) -> Int15MemRegs {
    let kb = if cmos.ext_kb < CMOS_EXT_MEMORY_MAX_KB {
        cmos.ext_kb
    } else {
        CMOS_EXT_MEMORY_MAX_KB
    };
    if r.ax == INT15_AX_E801 {
        Int15MemRegs {
            ax: kb,
            bx: cmos.above_16m_blocks,
            cx: kb,
            dx: cmos.above_16m_blocks,
            cf: false,
        }
    } else if r.ax / 256 == INT15_AH_EXT_MEM {
        Int15MemRegs { ax: kb, cf: false, ..r }
    } else {
        Int15MemRegs { cf: true, ..r }
    }
}

/// Host INT 15h AH=88h / AX=E801h dispatch.
pub fn service_int15_memory_size(regs: &mut Int15MemRegs, cmos: CmosMemorySize)
    ensures
        *final(regs) == int15_mem_spec(*old(regs), cmos),
{
    if regs.ax == INT15_AX_E801 {
        let between = int15_extended_memory_kb(cmos);
        let above = int15_memory_above_16m_blocks(cmos);
        regs.ax = between;
        regs.bx = above;
        regs.cx = between;
        regs.dx = above;
        regs.cf = false;
        return;
    }
    if regs.ax / 256 == INT15_AH_EXT_MEM as u16 {
        regs.ax = int15_extended_memory_kb(cmos);
        regs.cf = false;
        return;
    }
    regs.cf = true;
}


/// What the memory-size services answer, over every register file and CMOS
/// content: AX=E801h reports the extended KiB, capped at 15 MiB (`3C00h`),
/// in both AX and CX and the 64 KiB blocks above 16 MiB in both BX and DX,
/// with CF clear; AH=88h reports the same capped KiB in AX alone, with CF
/// clear and BX, CX, DX kept; any other call only sets CF.
pub proof fn law_int15_memory_size_registers(r: Int15MemRegs, cmos: CmosMemorySize)
    ensures
        ({
            let o = int15_mem_spec(r, cmos);
            let capped: u16 = if cmos.ext_kb <= 0x3C00 {
                cmos.ext_kb
            } else {
                0x3C00u16
            };
            &&& r.ax == 0xE801 ==> {
                &&& o.ax == capped
                &&& o.cx == o.ax
                &&& o.bx == cmos.above_16m_blocks
                &&& o.dx == o.bx
                &&& !o.cf
            }
            &&& (r.ax != 0xE801 && r.ax >= 0x8800 && r.ax <= 0x88FF) ==> {
                &&& o.ax == capped
                &&& o.bx == r.bx
                &&& o.cx == r.cx
                &&& o.dx == r.dx
                &&& !o.cf
            }
            &&& (r.ax != 0xE801 && !(r.ax >= 0x8800 && r.ax <= 0x88FF)) ==> o == (Int15MemRegs {
                cf: true,
                ..r
            })
        }),
{
}

} // verus!
