//! Host-side guest preparation in physical memory: the BDA disk fields, the
//! Linux real-mode setup copy to its load address, and the real-mode entry
//! `CS:IP` of that setup.
use vstd::prelude::*;

use crate::boot_load::MachineError;
use crate::boot_media::{hlt_sector, push_hlt_sector};
use crate::guest_boot::{BDA_EQUIPMENT, BDA_HD_COUNT};
use crate::guest_images::{bzimage_setup_hlt_spec, synthetic_linux_bzimage_setup_hlt};
use crate::int13_disk::IdeDisk;
use crate::linux_boot::{
    classify_bzimage_early, early_class_spec, linux_realmode_bytes, realmode_bytes_spec,
    BzImageEarlyClass, LinuxBootProtocolError, LINUX_REALMODE_LOAD_ADDR,
};
use crate::text::{dec_digits, push_dec};
use crate::mem::{byte_writes, write_all, write_chain, writes_to, PhysMem};

verus! {

/// Error from [`load_bzimage_realmode_setup`] and
/// [`arm_bzimage_realmode_entry`].
#[derive(Clone, Copy, Debug, PartialEq, Eq, Structural)]
pub enum BzImageLoadError {
    /// The header did not parse.
    Classify(LinuxBootProtocolError),
    /// The buffer is shorter than the real-mode setup blob.
    IncompleteSetup { have: usize, need: usize },
    /// The blob does not fit in RAM at the destination (or the destination
    /// is not a real-mode paragraph address).
    RamTooSmall,
}

impl From<LinuxBootProtocolError> for BzImageLoadError {
    fn from(value: LinuxBootProtocolError) -> (r: Self) {
        BzImageLoadError::Classify(value)
    }
}

impl vstd::std_specs::convert::FromSpecImpl<LinuxBootProtocolError> for BzImageLoadError {
    open spec fn obeys_from_spec() -> bool {
        true
    }

    open spec fn from_spec(v: LinuxBootProtocolError) -> Self {
        BzImageLoadError::Classify(v)
    }
}

/// The writes seeding the BDA disk fields: equipment low byte, a zero high
/// byte, and the hard-disk count.
pub open spec fn bda_disk_writes(equipment_byte: u8, ide_attached: bool) -> Seq<(u64, u8)> {
    seq![
        (BDA_EQUIPMENT, equipment_byte),
        ((BDA_EQUIPMENT + 1) as u64, 0u8),
        (BDA_HD_COUNT, if ide_attached { 1u8 } else { 0u8 }),
    ]
}

/// Seed the BDA equipment word (`0040:0010`) with `equipment_byte` and the
/// hard-disk count (`0040:0075`) with 1 when an IDE disk is attached, else 0.
pub fn seed_bda_disk_equipment(mem: &mut PhysMem, equipment_byte: u8, ide_attached: bool)
    requires
        old(mem).wf(),
    ensures
        final(mem).wf(),
        writes_to(*old(mem), *final(mem), bda_disk_writes(equipment_byte, ide_attached)),
{
    let ghost s0 = *mem;
    let _ = mem.write_u8(BDA_EQUIPMENT, equipment_byte);
    let ghost s1 = *mem;
    let _ = mem.write_u8(BDA_EQUIPMENT + 1, 0);
    let ghost s2 = *mem;
    let hd: u8 = if ide_attached {
        1
    } else {
        0
    };
    let _ = mem.write_u8(BDA_HD_COUNT, hd);
    proof {
        let states = seq![s0, s1, s2, *mem];
        let w = bda_disk_writes(equipment_byte, ide_attached);
        assert(states[0].is_write_of(&states[1], w[0].0, w[0].1));
        assert(states[1].is_write_of(&states[2], w[1].0, w[1].1));
        assert(states[2].is_write_of(&states[3], w[2].0, w[2].1));
        assert(write_chain(states, w));
    }
}

/// Copy the real-mode part of a bzImage (`(setup_sects + 1) x 512` bytes,
/// `setup_sects == 0` meaning 4) into guest memory at `dest`, once the early
/// classify finds the setup loadable. Nothing is executed.
pub fn load_bzimage_realmode_setup(mem: &mut PhysMem, image: &[u8], dest: u64) -> (r: Result<
    BzImageEarlyClass,
    BzImageLoadError,
>)
    requires
        old(mem).wf(),
    ensures
        final(mem).wf(),
        match early_class_spec(image@) {
            BzImageEarlyClass::BadHeader(e) => r == Err::<BzImageEarlyClass, BzImageLoadError>(
                BzImageLoadError::Classify(e),
            ) && *final(mem) == *old(mem),
            BzImageEarlyClass::IncompleteSetup { have, need, .. } => r == Err::<
                BzImageEarlyClass,
                BzImageLoadError,
            >(BzImageLoadError::IncompleteSetup { have, need }) && *final(mem) == *old(mem),
            BzImageEarlyClass::SetupLoadable { setup_sects, .. } => {
                let n = realmode_bytes_spec(setup_sects);
                if dest + n > old(mem).ram_view().len() {
                    r == Err::<BzImageEarlyClass, BzImageLoadError>(BzImageLoadError::RamTooSmall)
                        && *final(mem) == *old(mem)
                } else {
                    r == Ok::<BzImageEarlyClass, BzImageLoadError>(early_class_spec(image@))
                        && writes_to(*old(mem), *final(mem), byte_writes(dest, image@.take(n)))
                }
            },
        },
{
    let class = classify_bzimage_early(image);
    match class {
        BzImageEarlyClass::BadHeader(e) => Err(BzImageLoadError::Classify(e)),
        BzImageEarlyClass::IncompleteSetup { have, need, .. } => Err(
            BzImageLoadError::IncompleteSetup { have, need },
        ),
        BzImageEarlyClass::SetupLoadable { setup_sects, .. } => {
            let bytes = linux_realmode_bytes(setup_sects);
            let ram = mem.ram_len();
            if dest > u64::MAX - (bytes as u64) {
                return Err(BzImageLoadError::RamTooSmall);
            }
            let end = dest + bytes as u64;
            if end > ram as u64 {
                return Err(BzImageLoadError::RamTooSmall);
            }
            write_all(mem, dest, &image[0..bytes]);
            proof {
                assert(image@.subrange(0, bytes as int) =~= image@.take(bytes as int));
            }
            Ok(class)
        },
    }
}

/// The real-mode `CS:IP` of a setup loaded at `dest`: `CS = dest >> 4`,
/// `IP = 0x200`, for a paragraph-aligned `dest` that a segment can reach.
pub fn arm_bzimage_realmode_entry(dest: u64) -> (r: Result<(u16, u16), BzImageLoadError>)
    ensures
        dest % 16 != 0 || dest > 0xFFFF * 16 ==> r == Err::<(u16, u16), BzImageLoadError>(
            BzImageLoadError::RamTooSmall,
        ),
        dest % 16 == 0 && dest <= 0xFFFF * 16 ==> r == Ok::<(u16, u16), BzImageLoadError>(
            ((dest / 16) as u16, 0x0200u16),
        ),
{
    if dest % 16 != 0 {
        return Err(BzImageLoadError::RamTooSmall);
    }
    if dest > 0xFFFF * 16 {
        return Err(BzImageLoadError::RamTooSmall);
    }
    Ok(((dest / 16) as u16, 0x0200))
}


/// Bytes of RAM the synthetic setup entry needs: the classic load address
/// plus its two-sector real-mode blob.
pub open spec fn bzimage_setup_entry_ram() -> int {
    LINUX_REALMODE_LOAD_ADDR as int + 1024
}

/// Prepare the synthetic bzImage setup-entry measure: with RAM for the
/// real-mode blob at `0x90000`, attach a signed `HLT` sector as the IDE disk
/// when none (or an empty one) is attached, copy the synthetic setup to
/// `0x90000`, and give the armed entry `9000:0200`.
pub fn prepare_bzimage_setup_entry(mem: &mut PhysMem, ide: &mut IdeDisk) -> (r: Result<(u16, u16), MachineError>)
    requires
        old(mem).wf(),
    ensures
        final(mem).wf(),
        old(mem).ram_view().len() < bzimage_setup_entry_ram() ==> {
            &&& r == Err::<(u16, u16), MachineError>(MachineError::MbrRamTooSmall)
            &&& *final(mem) == *old(mem)
            &&& *final(ide) == *old(ide)
        },
        old(mem).ram_view().len() >= bzimage_setup_entry_ram() ==> {
            &&& r == Ok::<(u16, u16), MachineError>((0x9000u16, 0x0200u16))
            &&& writes_to(*old(mem), *final(mem), byte_writes(LINUX_REALMODE_LOAD_ADDR, bzimage_setup_hlt_spec()))
            &&& if old(ide).present && old(ide).image@.len() > 0 {
                *final(ide) == *old(ide)
            } else {
                final(ide).present && final(ide).image@ == hlt_sector()
            }
        },
{
    let image = synthetic_linux_bzimage_setup_hlt();
    let need = linux_realmode_bytes(1);
    if mem.ram_len() < LINUX_REALMODE_LOAD_ADDR as usize + need {
        return Err(MachineError::MbrRamTooSmall);
    }
    if !ide.present || ide.image.len() == 0 {
        let mut sector: Vec<u8> = Vec::new();
        push_hlt_sector(&mut sector);
        assert(sector@ =~= hlt_sector());
        ide.present = true;
        ide.image = sector;
    }
    match load_bzimage_realmode_setup(mem, image.as_slice(), LINUX_REALMODE_LOAD_ADDR) {
        Ok(_) => {},
        Err(_) => {
            return Err(MachineError::MbrRamTooSmall);
        },
    }
    proof {
        assert(image@.take(1024) =~= image@);
    }
    match arm_bzimage_realmode_entry(LINUX_REALMODE_LOAD_ADDR) {
        Ok(entry) => Ok(entry),
        Err(_) => Err(MachineError::MbrRamTooSmall),
    }
}

impl BzImageLoadError {
    /// The displayed error: `bzImage load: ` and what went wrong.
    pub open spec fn spec_display(self) -> Seq<char> {
        match self {
            BzImageLoadError::Classify(e) => "bzImage load: "@ + e.spec_message(),
            BzImageLoadError::IncompleteSetup { have, need } => "bzImage load: incomplete setup have="@
                + dec_digits(have as nat) + " need="@ + dec_digits(need as nat),
            BzImageLoadError::RamTooSmall => "bzImage load: RAM too small"@,
        }
    }

    /// Render the error as [`Self::spec_display`] describes.
    pub fn to_string(&self) -> (r: String)
        ensures
            r@ == self.spec_display(),
    {
        match self {
            BzImageLoadError::Classify(e) => {
                let mut s = String::from_str("bzImage load: ");
                s.append(e.message());
                s
            },
            BzImageLoadError::IncompleteSetup { have, need } => {
                let mut s = String::from_str("bzImage load: incomplete setup have=");
                push_dec(&mut s, *have as u64);
                s.append(" need=");
                push_dec(&mut s, *need as u64);
                s
            },
            BzImageLoadError::RamTooSmall => String::from_str("bzImage load: RAM too small"),
        }
    }
}

} // verus!
