//! Real-mode interrupt vector table entries for the host-serviced BIOS
//! interrupts.
use vstd::prelude::*;
use crate::guest_boot::ivt_far_spec;
use crate::mem::{
    byte_writes, lemma_plain_writes, lemma_read_after_byte_writes, write_all, writes_to, PhysMem,
};

verus! {

/// The four IVT bytes of a far pointer: offset, then segment, each least
/// significant byte first.
pub open spec fn ivt_entry_bytes(seg: u16, off: u16) -> Seq<u8> {
    seq![(off % 256) as u8, (off / 256) as u8, (seg % 256) as u8, (seg / 256) as u8]
}

/// Point IVT entry `vector` (at `vector * 4`) at `seg:off`.
fn install_ivt_pointer(mem: &mut PhysMem, vector: u8, seg: u16, off: u16)
    requires
        old(mem).wf(),
    ensures
        final(mem).wf(),
        writes_to(*old(mem), *final(mem), byte_writes((vector * 4) as u64, ivt_entry_bytes(seg, off))),
{
    let base = (vector as u64) * 4;
    let bytes: Vec<u8> = vec![(off % 256) as u8, (off / 256) as u8, (seg % 256) as u8, (seg / 256) as u8];
    assert(bytes@ =~= ivt_entry_bytes(seg, off));
    write_all(mem, base, bytes.as_slice());
}

/// Install the IVT far pointer of `INT 10h` (video); only the pointer, no
/// handler body.
pub fn install_int10_ivt_pointer(mem: &mut PhysMem, handler_seg: u16, handler_off: u16)
    requires
        old(mem).wf(),
    ensures
        final(mem).wf(),
        writes_to(*old(mem), *final(mem), byte_writes(0x40, ivt_entry_bytes(handler_seg, handler_off))),
{
    install_ivt_pointer(mem, 0x10, handler_seg, handler_off);
}

/// Install the IVT far pointer of `INT 13h` (disk); only the pointer, no
/// handler body.
pub fn install_int13_ivt_pointer(mem: &mut PhysMem, handler_seg: u16, handler_off: u16)
    requires
        old(mem).wf(),
    ensures
        final(mem).wf(),
        writes_to(*old(mem), *final(mem), byte_writes(0x4C, ivt_entry_bytes(handler_seg, handler_off))),
{
    install_ivt_pointer(mem, 0x13, handler_seg, handler_off);
}

/// Install the IVT far pointer of `INT 15h` (system services); only the
/// pointer, no handler body.
pub fn install_int15_ivt_pointer(mem: &mut PhysMem, handler_seg: u16, handler_off: u16)
    requires
        old(mem).wf(),
    ensures
        final(mem).wf(),
        writes_to(*old(mem), *final(mem), byte_writes(0x54, ivt_entry_bytes(handler_seg, handler_off))),
{
    install_ivt_pointer(mem, 0x15, handler_seg, handler_off);
}

/// Install the IVT far pointer of `INT 16h` (keyboard); only the pointer, no
/// handler body.
pub fn install_int16_ivt_pointer(mem: &mut PhysMem, handler_seg: u16, handler_off: u16)
    requires
        old(mem).wf(),
    ensures
        final(mem).wf(),
        writes_to(*old(mem), *final(mem), byte_writes(0x58, ivt_entry_bytes(handler_seg, handler_off))),
{
    install_ivt_pointer(mem, 0x16, handler_seg, handler_off);
}

/// Where the IVT is plain RAM, the far pointer read back from an entry is
/// the one installed there.
pub proof fn law_ivt_install_reads_back(m: PhysMem, m2: PhysMem, vector: u8, seg: u16, off: u16)
    requires
        m.wf(),
        m.plain_ram_range((vector * 4) as u64, (vector * 4 + 4) as u64),
        writes_to(m, m2, byte_writes((vector * 4) as u64, ivt_entry_bytes(seg, off))),
    ensures
        ivt_far_spec(m2, vector) == (off, seg),
{
    let base = (vector * 4) as u64;
    let data = ivt_entry_bytes(seg, off);
    let w = byte_writes(base, data);
    assert forall|i: int| 0 <= i < w.len() implies m.plain_ram_at(#[trigger] w[i].0) by {
        assert(w[i].0 == (base + i) as u64);
    }
    lemma_plain_writes(m, m2, w);
    lemma_read_after_byte_writes(m, base, data, 0);
    lemma_read_after_byte_writes(m, base, data, 1);
    lemma_read_after_byte_writes(m, base, data, 2);
    lemma_read_after_byte_writes(m, base, data, 3);
    assert(m.plain_ram_at(base));
    assert(m.plain_ram_at((base + 1) as u64));
    assert(m.plain_ram_at((base + 2) as u64));
    assert(m.plain_ram_at((base + 3) as u64));
}

} // verus!
