//! Classic MBR layout: boot-sector signature and the four partition entries.
use vstd::prelude::*;

use crate::bytes::{le32_at, le32_of};

verus! {

/// Physical load address of the classic PC boot sector.
pub const MBR_PHYS_ADDR: u64 = 0x7C00;

/// Boot sector size (ATA / floppy sector).
pub const MBR_SECTOR_SIZE: usize = 512;

/// Signature byte at offset 510.
pub const MBR_SIGNATURE_LO: u8 = 0x55;

/// Signature byte at offset 511.
pub const MBR_SIGNATURE_HI: u8 = 0xAA;

/// Offset of the first partition-table entry.
pub const MBR_PART0_OFF: usize = 0x1BE;

/// Boot indicator of an active (bootable) partition.
pub const MBR_PART_BOOTABLE: u8 = 0x80;

/// Whether a sector-sized buffer ends in the `55 AA` boot signature.
pub open spec fn has_boot_signature(s: Seq<u8>) -> bool {
    s.len() >= MBR_SECTOR_SIZE && s[510] == MBR_SIGNATURE_LO && s[511] == MBR_SIGNATURE_HI
}

/// Offset of partition-table entry `i`.
pub open spec fn part_entry_off(i: int) -> int {
    MBR_PART0_OFF as int + 16 * i
}

/// First partition slot at or after `i` whose boot indicator is `80h`.
pub open spec fn first_active_slot(s: Seq<u8>, i: int) -> Option<int>
    decreases 4 - i,
{
    if i >= 4 || i < 0 {
        None
    } else if s[part_entry_off(i)] == MBR_PART_BOOTABLE {
        Some(i)
    } else {
        first_active_slot(s, i + 1)
    }
}

proof fn lemma_first_active_slot_range(s: Seq<u8>, i: int)
    ensures
        match first_active_slot(s, i) {
            Some(j) => 0 <= i <= j < 4 && s[part_entry_off(j)] == MBR_PART_BOOTABLE,
            None => true,
        },
    decreases 4 - i,
{
    if 0 <= i < 4 && s[part_entry_off(i)] != MBR_PART_BOOTABLE {
        lemma_first_active_slot_range(s, i + 1);
    }
}

/// Active partition entry discovered in a classic MBR.
#[derive(Clone, Copy, Debug, PartialEq, Eq, Structural)]
pub struct ActivePartition {
    /// Partition table slot `0..3`.
    pub index: u8,
    /// Partition system ID (byte 4 of the entry).
    pub part_type: u8,
    /// Starting LBA (little-endian dword at entry + 8).
    pub start_lba: u32,
    /// Sector count (little-endian dword at entry + 12).
    pub sector_count: u32,
}

/// The active partition [`find_active_partition`] reports for `s`.
pub open spec fn active_partition_spec(s: Seq<u8>) -> Option<ActivePartition> {
    if !has_boot_signature(s) {
        None
    } else {
        match first_active_slot(s, 0) {
            None => None,
            Some(i) => Some(
                ActivePartition {
                    index: i as u8,
                    part_type: s[part_entry_off(i) + 4],
                    start_lba: le32_at(s, part_entry_off(i) + 8) as u32,
                    sector_count: le32_at(s, part_entry_off(i) + 12) as u32,
                },
            ),
        }
    }
}

/// Index of the first active partition slot of a signed sector.
pub fn first_active_index(mbr: &[u8]) -> (r: Option<usize>)
    requires
        mbr@.len() >= MBR_SECTOR_SIZE,
    ensures
        match r {
            Some(i) => first_active_slot(mbr@, 0) == Some(i as int) && i < 4,
            None => first_active_slot(mbr@, 0) is None,
        },
{
    let mut i: usize = 0;
    while i < 4
        invariant
            i <= 4,
            mbr@.len() >= MBR_SECTOR_SIZE,
            first_active_slot(mbr@, 0) == first_active_slot(mbr@, i as int),
        decreases 4 - i,
    {
        if mbr[MBR_PART0_OFF + i * 16] == MBR_PART_BOOTABLE {
            return Some(i);
        }
        i = i + 1;
    }
    None
}

/// Scan a boot sector for the first active (`80h`) partition entry; `None`
/// when the signature is wrong or no entry is active.
pub fn find_active_partition(mbr: &[u8]) -> (r: Option<ActivePartition>)
    ensures
        r == active_partition_spec(mbr@),
{
    if mbr.len() < MBR_SECTOR_SIZE {
        return None;
    }
    if mbr[510] != MBR_SIGNATURE_LO || mbr[511] != MBR_SIGNATURE_HI {
        return None;
    }
    match first_active_index(mbr) {
        None => None,
        Some(i) => {
            let off = MBR_PART0_OFF + i * 16;
            Some(
                ActivePartition {
                    index: i as u8,
                    part_type: mbr[off + 4],
                    start_lba: le32_of(mbr, off + 8),
                    sector_count: le32_of(mbr, off + 12),
                },
            )
        },
    }
}

} // verus!
