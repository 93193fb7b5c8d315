//! Coherence of the CMOS equipment and floppy-type bytes with the machine's
//! equipment model, and the BDA equipment word seeded from CMOS.
use vstd::prelude::*;
use crate::guest_boot::BDA_EQUIPMENT;
use crate::mem::{
    byte_writes, lemma_plain_writes, lemma_read_after_byte_writes, write_all, writes_to, PhysMem,
};

verus! {

/// Equipment bit 0: a floppy drive is installed.
pub const EQUIP_FLOPPY_INSTALLED: u8 = 0x01;

/// Equipment bit 2: keyboard enabled.
pub const EQUIP_KEYBOARD_ENABLED: u8 = 0x04;

/// CMOS `10h` drive type: none.
pub const FLOPPY_TYPE_NONE: u8 = 0;

/// CMOS `10h` drive type: 1.44 MB 3.5".
pub const FLOPPY_TYPE_1440K: u8 = 4;

/// CMOS equipment (`14h`) and floppy types (`10h`) agree with the machine:
/// the equipment byte is the machine's, has the keyboard bit, its floppy bit
/// matches drive A's presence, drive A (when present) is 1.44 MB, and drive
/// B is absent.
pub open spec fn equipment_coherent_spec(cmos_equip: u8, machine_equip: u8, drive_a: u8, drive_b: u8) -> bool {
    &&& cmos_equip == machine_equip
    &&& cmos_equip & EQUIP_KEYBOARD_ENABLED != 0
    &&& (cmos_equip & EQUIP_FLOPPY_INSTALLED != 0) == (drive_a != FLOPPY_TYPE_NONE)
    &&& (cmos_equip & EQUIP_FLOPPY_INSTALLED != 0 ==> drive_a == FLOPPY_TYPE_1440K)
    &&& drive_b == FLOPPY_TYPE_NONE
}

/// Whether the CMOS equipment and floppy-type bytes match the machine's
/// equipment byte.
pub fn cmos_equipment_coherent(cmos_equip: u8, machine_equip: u8, drive_a: u8, drive_b: u8) -> (r: bool)
    ensures
        r == equipment_coherent_spec(cmos_equip, machine_equip, drive_a, drive_b),
{
    if cmos_equip != machine_equip {
        return false;
    }
    if cmos_equip & EQUIP_KEYBOARD_ENABLED == 0 {
        return false;
    }
    let floppy_bit = cmos_equip & EQUIP_FLOPPY_INSTALLED != 0;
    let type_present = drive_a != FLOPPY_TYPE_NONE;
    if floppy_bit != type_present {
        return false;
    }
    if floppy_bit && drive_a != FLOPPY_TYPE_1440K {
        return false;
    }
    drive_b == FLOPPY_TYPE_NONE
}

/// Seed the BDA equipment word (`0040:0010`) from the CMOS equipment byte:
/// low byte = CMOS `14h`, high byte 0.
pub fn seed_bda_equipment_from_cmos(mem: &mut PhysMem, cmos_equip: u8)
    requires
        old(mem).wf(),
    ensures
        final(mem).wf(),
        writes_to(*old(mem), *final(mem), byte_writes(BDA_EQUIPMENT, seq![cmos_equip, 0u8])),
{
    let bytes: Vec<u8> = vec![cmos_equip, 0];
    assert(bytes@ =~= seq![cmos_equip, 0u8]);
    write_all(mem, BDA_EQUIPMENT, bytes.as_slice());
}

/// The BDA equipment low byte (`0040:0010`).
pub fn bda_equipment_byte(mem: &PhysMem) -> (r: u8)
    requires
        mem.wf(),
    ensures
        r == mem.read_spec(BDA_EQUIPMENT),
{
    match mem.read_u8(BDA_EQUIPMENT) {
        Ok(b) => b,
        Err(_) => 0,
    }
}

/// Where the BDA equipment word is plain RAM, the equipment byte read back
/// after seeding is the CMOS equipment byte it was seeded from.
pub proof fn law_seeded_equipment_reads_back(m: PhysMem, m2: PhysMem, cmos_equip: u8)
    requires
        m.wf(),
        m.plain_ram_range(BDA_EQUIPMENT, (BDA_EQUIPMENT + 2) as u64),
        writes_to(m, m2, byte_writes(BDA_EQUIPMENT, seq![cmos_equip, 0u8])),
    ensures
        m2.read_spec(BDA_EQUIPMENT) == cmos_equip,
{
    let data = seq![cmos_equip, 0u8];
    let w = byte_writes(BDA_EQUIPMENT, data);
    assert(m.plain_ram_at(BDA_EQUIPMENT));
    assert(m.plain_ram_at((BDA_EQUIPMENT + 1) as u64));
    assert forall|i: int| 0 <= i < w.len() implies m.plain_ram_at(#[trigger] w[i].0) by {
        assert(w[i].0 == (BDA_EQUIPMENT + i) as u64);
    }
    lemma_plain_writes(m, m2, w);
    lemma_read_after_byte_writes(m, BDA_EQUIPMENT, data, 0);
}

} // verus!
