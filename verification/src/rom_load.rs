//! Mapping firmware into physical memory: a flat ROM at the reset window,
//! a prepared ROM image, and a legacy BIOS with its below-1 MiB alias.
use vstd::prelude::*;
use crate::boot_load::MachineError;
use crate::bytes::{copy_range, fill, push_bytes, push_fill};
use crate::firmware::{bios_low_len, bios_rom_error, prepare_bios_rom, RomImage, BIOS_ROM_HIGH_END, BIOS_ROM_LOW_END};
use crate::hello_rom::build_hello_rom;
use crate::mem::{pam_index_spec, rom_lookup, PhysMem};

verus! {

/// Base of the 64 KiB reset window.
pub const RESET_ROM_BASE: u64 = 0xFFFF_0000;

/// Size of the reset window.
pub const RESET_ROM_SIZE: usize = 0x10000;

/// Memory configuration other than the ROM windows is unchanged.
pub open spec fn rest_unchanged(a: PhysMem, b: PhysMem) -> bool {
    &&& b.same_stores(&a)
    &&& b.a20_view() == a.a20_view()
    &&& b.pam_view() == a.pam_view()
    &&& b.bios_write_protect_view() == a.bios_write_protect_view()
    &&& b.smram_view() == a.smram_view()
    &&& b.hole_view() == a.hole_view()
}

/// Map a flat ROM of at most 64 KiB at `0xFFFF_0000` as the only ROM
/// window, zero-padded to 64 KiB (a short image starts at offset 0).
pub fn load_rom(mem: &mut PhysMem, data: &[u8]) -> (r: Result<(), MachineError>)
    requires
        old(mem).wf(),
    ensures
        final(mem).wf(),
        r is Err <==> data@.len() > RESET_ROM_SIZE,
        r is Err ==> r == Err::<(), MachineError>(MachineError::RomTooLarge) && *final(mem) == *old(mem),
        r is Ok ==> {
            &&& final(mem).roms_view().len() == 1
            &&& final(mem).roms_view()[0].base == RESET_ROM_BASE
            &&& final(mem).roms_view()[0].data@ == data@ + fill(RESET_ROM_SIZE - data@.len(), 0)
            &&& rest_unchanged(*old(mem), *final(mem))
        },
{
    if data.len() > RESET_ROM_SIZE {
        return Err(MachineError::RomTooLarge);
    }
    let mut rom: Vec<u8> = Vec::new();
    push_bytes(&mut rom, data);
    push_fill(&mut rom, 0, RESET_ROM_SIZE - data.len());
    mem.map_rom(RESET_ROM_BASE, rom);
    Ok(())
}

/// Map a prepared ROM image as the only ROM window.
pub fn load_rom_image(mem: &mut PhysMem, image: &RomImage) -> (r: Result<(), MachineError>)
    requires
        old(mem).wf(),
    ensures
        final(mem).wf(),
        r is Ok,
        final(mem).roms_view().len() == 1,
        final(mem).roms_view()[0].base == image.phys_base,
        final(mem).roms_view()[0].data@ == image.data@,
        rest_unchanged(*old(mem), *final(mem)),
{
    let data = copy_range(image.data.as_slice(), 0, image.data.len());
    assert(image.data@.subrange(0, image.data@.len() as int) =~= image.data@);
    mem.map_rom(image.phys_base, data);
    Ok(())
}

/// The ROM windows are exactly those of a mapped BIOS image: the whole image
/// ending at 4 GiB, then its last (up to) 128 KiB ending at 1 MiB.
pub open spec fn bios_windows(mem: PhysMem, data: Seq<u8>) -> bool {
    &&& mem.roms_view().len() == 2
    &&& mem.roms_view()[0].base == BIOS_ROM_HIGH_END - data.len()
    &&& mem.roms_view()[0].data@ == data
    &&& mem.roms_view()[1].base == BIOS_ROM_LOW_END - bios_low_len(data.len() as int)
    &&& mem.roms_view()[1].data@ == data.subrange(
        data.len() - bios_low_len(data.len() as int),
        data.len() as int,
    )
}

/// With a BIOS image mapped, the top of 4 GiB and the top of 1 MiB read the
/// same bytes, the tail of the image: the reset vector at `0xFFFF_FFF0` and
/// its real-mode alias at `0x000F_FFF0` agree. This holds where nothing else
/// decodes in front of the ROM windows (A20 enabled, no DRAM hole, no SMRAM
/// steering, and the PAM region of the low address reading ROM).
pub proof fn law_bios_high_and_low_copies_agree(mem: PhysMem, data: Seq<u8>, k: int)
    requires
        bios_rom_error(data.len() as int) is None,
        bios_windows(mem, data),
        0 <= k < bios_low_len(data.len() as int),
        mem.a20_view(),
        !mem.in_hole((BIOS_ROM_HIGH_END - 1 - k) as u64),
        !mem.in_hole((BIOS_ROM_LOW_END - 1 - k) as u64),
        !mem.smram_read_steer((BIOS_ROM_HIGH_END - 1 - k) as u64),
        !mem.smram_read_steer((BIOS_ROM_LOW_END - 1 - k) as u64),
        !mem.pam_reads_shadow((BIOS_ROM_LOW_END - 1 - k) as u64),
    ensures
        mem.read_spec((BIOS_ROM_HIGH_END - 1 - k) as u64) == data[data.len() - 1 - k],
        mem.read_spec((BIOS_ROM_LOW_END - 1 - k) as u64) == data[data.len() - 1 - k],
{
    let hi = (BIOS_ROM_HIGH_END - 1 - k) as u64;
    let lo = (BIOS_ROM_LOW_END - 1 - k) as u64;
    let roms = mem.roms_view();
    let l = bios_low_len(data.len() as int);
    assert(pam_index_spec(hi) is None);
    assert(rom_lookup(roms, hi) == Some(data[data.len() - 1 - k]));
    assert(rom_lookup(roms.drop_first(), lo) == Some(roms[1].data@[lo - roms[1].base]));
    assert(lo - roms[1].base == l - 1 - k);
    assert(roms[1].data@[l - 1 - k] == data[data.len() - 1 - k]);
    assert(rom_lookup(roms, lo) == rom_lookup(roms.drop_first(), lo));
}

/// Map a legacy BIOS image: the whole image ending at 4 GiB, then its last
/// (up to) 128 KiB ending at 1 MiB; earlier ROM windows are removed.
pub fn load_bios_rom(mem: &mut PhysMem, data: &[u8]) -> (r: Result<(), MachineError>)
    requires
        old(mem).wf(),
    ensures
        final(mem).wf(),
        match bios_rom_error(data@.len() as int) {
            Some(e) => r == Err::<(), MachineError>(MachineError::BiosRom(e)) && *final(mem) == *old(mem),
            None => r is Ok && bios_windows(*final(mem), data@) && rest_unchanged(*old(mem), *final(mem)),
        },
{
    let map = match prepare_bios_rom(data) {
        Ok(m) => m,
        Err(e) => {
            return Err(MachineError::BiosRom(e));
        },
    };
    mem.clear_roms();
    mem.add_rom(map.high.phys_base, map.high.data);
    mem.add_rom(map.low.phys_base, map.low.data);
    Ok(())
}

/// Map the built-in HELLO ROM at the reset window.
pub fn load_hello_rom(mem: &mut PhysMem) -> (r: Result<(), MachineError>)
    requires
        old(mem).wf(),
    ensures
        final(mem).wf(),
        r is Ok,
        final(mem).roms_view().len() == 1,
        final(mem).roms_view()[0].base == RESET_ROM_BASE,
        rest_unchanged(*old(mem), *final(mem)),
{
    let rom = build_hello_rom();
    load_rom(mem, rom.as_slice())
}

} // verus!
