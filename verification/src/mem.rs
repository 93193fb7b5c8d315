//! Physical RAM, ROM windows, the A20 gate, i440FX PAM shadowing, the
//! compatible SMRAM window and the fixed DRAM hole.
//!
//! A byte address first has A20 applied, then decodes in this order: the
//! fixed DRAM hole (open bus), the SMRAM window when it steers to DRAM, a PAM
//! region of the legacy window (shadow DRAM when its attribute says so), a ROM
//! window, RAM, and finally open bus. Writes the platform cannot store are
//! dropped, never faulted.
use vstd::prelude::*;

verus! {

/// Physical address bit 20, forced clear while the A20 gate is disabled.
pub const A20_ADDR_BIT: u64 = 0x0010_0000;

/// Every physical address bit except bit 20.
pub const A20_CLEAR_MASK: u64 = 0xFFFF_FFFF_FFEF_FFFF;

/// Base of the PAM-attributed legacy region.
pub const PAM_WINDOW_BASE: u64 = 0x000C_0000;

/// End (exclusive) of the PAM-attributed legacy region.
pub const PAM_WINDOW_END: u64 = 0x0010_0000;

/// Independently attributed PAM regions: twelve 16 KiB and one 64 KiB.
pub const PAM_REGION_COUNT: usize = 13;

/// Index of the `0xF0000`-`0xFFFFF` BIOS-area region (PAM0 bits 7:4).
pub const PAM_BIOS_REGION: usize = 12;

/// First PAM configuration register offset (PAM0).
pub const PAM_REGISTER_FIRST: u8 = 0x59;

/// Last PAM configuration register offset (PAM6).
pub const PAM_REGISTER_LAST: u8 = 0x5F;

/// Attribute bit 0 (RE): reads are directed to DRAM.
pub const PAM_FIELD_RE: u8 = 1;

/// Attribute bit 1 (WE): writes are directed to DRAM.
pub const PAM_FIELD_WE: u8 = 2;

/// Attribute bits decoded (bits 3:2 of each nibble are reserved).
pub const PAM_FIELD_MASK: u8 = 3;

/// Base of the BIOS-area region.
pub const PAM_BIOS_BASE: u64 = 0x000F_0000;

/// Size of each of the twelve small PAM regions.
pub const PAM_SMALL_REGION_LEN: u64 = 0x4000;

/// Size of the BIOS-area PAM region.
pub const PAM_BIOS_REGION_LEN: u64 = 0x10000;

/// Size of the lazily allocated shadow for the legacy window.
pub const LEGACY_SHADOW_LEN: usize = 0x40000;

/// Base of PAM region `i`.
pub open spec fn pam_base(i: int) -> int {
    if i < 12 {
        PAM_WINDOW_BASE as int + i * PAM_SMALL_REGION_LEN as int
    } else {
        PAM_BIOS_BASE as int
    }
}

/// Length of PAM region `i`.
pub open spec fn pam_len(i: int) -> int {
    if i < 12 {
        PAM_SMALL_REGION_LEN as int
    } else {
        PAM_BIOS_REGION_LEN as int
    }
}

/// Whether `a` lies in PAM region `i`.
pub open spec fn in_pam_region(a: int, i: int) -> bool {
    0 <= i < PAM_REGION_COUNT && pam_base(i) <= a < pam_base(i) + pam_len(i)
}

/// PAM region containing an (already A20-masked) address.
pub open spec fn pam_index_spec(a: u64) -> Option<int> {
    if PAM_WINDOW_BASE <= a < PAM_BIOS_BASE {
        Some((a - PAM_WINDOW_BASE) / (PAM_SMALL_REGION_LEN as int))
    } else if PAM_BIOS_BASE <= a < PAM_WINDOW_END {
        Some(12)
    } else {
        None
    }
}

/// Region attributed by one nibble of a PAM configuration register.
pub open spec fn pam_register_region(offset: u8, high_nibble: bool) -> Option<int> {
    if offset < PAM_REGISTER_FIRST || offset > PAM_REGISTER_LAST {
        None
    } else if offset == PAM_REGISTER_FIRST {
        if high_nibble {
            Some(PAM_BIOS_REGION as int)
        } else {
            None
        }
    } else {
        Some(2 * (offset - PAM_REGISTER_FIRST - 1) + if high_nibble {
            1int
        } else {
            0int
        })
    }
}

/// PAM attributes after one configuration register byte is applied.
pub open spec fn pam_after_register(pam: Seq<PamAttributes>, offset: u8, value: u8) -> Seq<
    PamAttributes,
> {
    Seq::new(
        pam.len(),
        |i: int|
            if pam_register_region(offset, false) == Some(i) {
                pam_field_attributes(value & PAM_FIELD_MASK)
            } else if pam_register_region(offset, true) == Some(i) {
                pam_field_attributes((value >> 4u8) & PAM_FIELD_MASK)
            } else {
                pam[i]
            },
    )
}

/// The byte a PAM configuration register reads back as, decoded from the
/// region attributes it owns (reserved bits read as zero).
pub open spec fn pam_register_encoding(pam: Seq<PamAttributes>, offset: u8) -> Option<u8> {
    if offset < PAM_REGISTER_FIRST || offset > PAM_REGISTER_LAST {
        None
    } else {
        Some(
            (match pam_register_region(offset, false) {
                Some(i) => pam_attributes_field(pam[i]) as int,
                None => 0int,
            } + 16 * match pam_register_region(offset, true) {
                Some(i) => pam_attributes_field(pam[i]) as int,
                None => 0int,
            }) as u8,
        )
    }
}

/// Where reads of a PAM region are satisfied from.
#[derive(Clone, Copy, Debug, Default, PartialEq, Eq, Structural)]
pub enum PamRead {
    /// The ROM window covering the address (or the normal decode below it).
    #[default]
    Rom,
    /// The shadow DRAM backing store.
    ShadowRam,
}

/// Where writes to a PAM region go.
#[derive(Clone, Copy, Debug, Default, PartialEq, Eq, Structural)]
pub enum PamWrite {
    /// Forwarded off the DRAM controller and dropped.
    #[default]
    Ignored,
    /// Written to the shadow DRAM backing store.
    ShadowRam,
}

/// One region's attribute pair.
#[derive(Clone, Copy, Debug, PartialEq, Eq, Structural)]
pub struct PamAttributes {
    pub read: PamRead,
    pub write: PamWrite,
}

/// Reset attributes: read the ROM, drop writes.
pub open spec fn pam_reset_attributes() -> PamAttributes {
    PamAttributes { read: PamRead::Rom, write: PamWrite::Ignored }
}

/// Attributes a 4-bit PAM field decodes to.
pub open spec fn pam_field_attributes(field: u8) -> PamAttributes {
    PamAttributes {
        read: if field & PAM_FIELD_RE != 0 {
            PamRead::ShadowRam
        } else {
            PamRead::Rom
        },
        write: if field & PAM_FIELD_WE != 0 {
            PamWrite::ShadowRam
        } else {
            PamWrite::Ignored
        },
    }
}

/// 4-bit field encoding a pair of attributes.
pub open spec fn pam_attributes_field(a: PamAttributes) -> u8 {
    ((if a.read == PamRead::ShadowRam {
        1int
    } else {
        0int
    }) + (if a.write == PamWrite::ShadowRam {
        2int
    } else {
        0int
    })) as u8
}

impl Default for PamAttributes {
    fn default() -> (r: Self)
        ensures
            r == pam_reset_attributes(),
    {
        PamAttributes { read: PamRead::Rom, write: PamWrite::Ignored }
    }
}

impl PamAttributes {
    /// Decode one 4-bit PAM attribute field (bits 3:2 reserved).
    pub fn from_field(field: u8) -> (r: Self)
        ensures
            r == pam_field_attributes(field),
    {
        PamAttributes {
            read: if field & PAM_FIELD_RE != 0 {
                PamRead::ShadowRam
            } else {
                PamRead::Rom
            },
            write: if field & PAM_FIELD_WE != 0 {
                PamWrite::ShadowRam
            } else {
                PamWrite::Ignored
            },
        }
    }

    /// Encode back into a 4-bit PAM attribute field.
    pub fn to_field(self) -> (r: u8)
        ensures
            r == pam_attributes_field(self),
            r <= 3,
    {
        let mut field: u8 = 0;
        if self.read == PamRead::ShadowRam {
            field = field + PAM_FIELD_RE;
        }
        if self.write == PamWrite::ShadowRam {
            field = field + PAM_FIELD_WE;
        }
        field
    }
}

/// A ROM image mapped at a physical base.
#[derive(Clone, Debug)]
pub struct RomWindow {
    pub base: u64,
    pub data: Vec<u8>,
}

/// i440FX compatible SMRAM window decode (start/end inclusive).
#[derive(Clone, Copy, Debug, PartialEq, Eq, Structural)]
pub struct SmramRegion {
    pub start: u32,
    pub end: u32,
    /// Code references are steered to DRAM.
    pub code_to_dram: bool,
    /// Data references are steered to DRAM.
    pub data_to_dram: bool,
}

/// i440FX fixed DRAM hole (start/end inclusive).
#[derive(Clone, Copy, Debug, PartialEq, Eq, Structural)]
pub struct FdhcHole {
    pub start: u32,
    pub end: u32,
}

#[derive(Debug, Clone, Copy, PartialEq, Eq, Structural)]
pub enum MemError {
    OutOfRange,
    /// A write resolved to a ROM window; never returned by [`PhysMem::write_u8`],
    /// which drops such writes.
    RomWrite,
}

/// What the memory model did with a write. Every `Dropped*` outcome looks the
/// same to the processor: a normal bus completion.
#[derive(Debug, Clone, Copy, PartialEq, Eq, Structural)]
pub enum WriteDisposition {
    /// Landed in DRAM, or in the shadow DRAM behind a PAM region with WE set.
    Accepted,
    /// The address decoded to a ROM window, which takes no write cycles.
    DroppedRom,
    /// Inside the PAM window with WE clear.
    DroppedPamWriteDisabled,
    /// No RAM, no ROM, no device: master abort, data discarded.
    DroppedUnclaimed,
}

impl WriteDisposition {
    /// Whether the write reached storage.
    pub fn accepted(self) -> (r: bool)
        ensures
            r == (self == WriteDisposition::Accepted),
    {
        match self {
            WriteDisposition::Accepted => true,
            _ => false,
        }
    }
}

/// `s` padded with zero bytes to at least `len` bytes.
pub open spec fn zero_extend(s: Seq<u8>, len: nat) -> Seq<u8> {
    if s.len() < len {
        s + Seq::new((len - s.len()) as nat, |i: int| 0u8)
    } else {
        s
    }
}

/// Pad `v` with zero bytes to at least `len` bytes.
fn zero_extend_vec(v: &mut Vec<u8>, len: usize)
    ensures
        final(v)@ == zero_extend(old(v)@, len as nat),
{
    let ghost orig = v@;
    while v.len() < len
        invariant
            orig.len() <= v@.len(),
            v@.len() <= len || v@ == orig,
            v@ == orig + Seq::new((v@.len() - orig.len()) as nat, |i: int| 0u8),
        decreases len - v@.len(),
    {
        v.push(0);
        proof {
            assert(v@ =~= orig + Seq::new((v@.len() - orig.len()) as nat, |i: int| 0u8));
        }
    }
    proof {
        if orig.len() < len {
            assert(v@ =~= zero_extend(orig, len as nat));
        } else {
            assert(v@ =~= orig);
        }
    }
}

/// First ROM window (in mapping order) covering `a`, and the byte it holds.
pub open spec fn rom_lookup(roms: Seq<RomWindow>, a: u64) -> Option<u8>
    decreases roms.len(),
{
    if roms.len() == 0 {
        None
    } else if roms[0].base <= a && (a - roms[0].base) < roms[0].data@.len() {
        Some(roms[0].data@[a - roms[0].base])
    } else {
        rom_lookup(roms.drop_first(), a)
    }
}

/// Physical RAM plus ROM windows and chipset decode state.
#[derive(Clone, Debug)]
pub struct PhysMem {
    ram: Vec<u8>,
    roms: Vec<RomWindow>,
    a20_enabled: bool,
    pam: Vec<PamAttributes>,
    legacy_shadow: Vec<u8>,
    bios_write_protect: bool,
    smram: Option<SmramRegion>,
    smram_shadow: Vec<u8>,
    fdhc_hole: Option<(u32, u32)>,
}

impl PhysMem {
    pub closed spec fn ram_view(&self) -> Seq<u8> {
        self.ram@
    }

    pub closed spec fn roms_view(&self) -> Seq<RomWindow> {
        self.roms@
    }

    pub closed spec fn a20_view(&self) -> bool {
        self.a20_enabled
    }

    pub closed spec fn pam_view(&self) -> Seq<PamAttributes> {
        self.pam@
    }

    pub closed spec fn legacy_view(&self) -> Seq<u8> {
        self.legacy_shadow@
    }

    pub closed spec fn bios_write_protect_view(&self) -> bool {
        self.bios_write_protect
    }

    pub closed spec fn smram_view(&self) -> Option<SmramRegion> {
        self.smram
    }

    pub closed spec fn smram_shadow_view(&self) -> Seq<u8> {
        self.smram_shadow@
    }

    pub closed spec fn hole_view(&self) -> Option<(u32, u32)> {
        self.fdhc_hole
    }

    /// Internal consistency: thirteen PAM regions, a legacy shadow that is
    /// either unallocated or covers the whole window, and an SMRAM window whose
    /// size fits in 32 bits.
    pub open spec fn wf(&self) -> bool {
        &&& self.pam_view().len() == PAM_REGION_COUNT
        &&& (self.legacy_view().len() == 0 || self.legacy_view().len() == LEGACY_SHADOW_LEN)
        &&& match self.smram_view() {
            Some(s) => s.start <= s.end && s.end < u32::MAX,
            None => true,
        }
    }

    /// The A20 gate applied to an address.
    pub open spec fn masked(&self, addr: u64) -> u64 {
        if self.a20_view() {
            addr
        } else {
            addr & A20_CLEAR_MASK
        }
    }

    /// Whether `a` falls inside the enabled fixed DRAM hole.
    pub open spec fn in_hole(&self, a: u64) -> bool {
        match self.hole_view() {
            Some((s, e)) => s <= (a as u32) <= e,
            None => false,
        }
    }

    /// Whether `a` falls inside the SMRAM window.
    pub open spec fn smram_contains_spec(&self, a: u64) -> bool {
        match self.smram_view() {
            Some(s) => s.start <= (a as u32) <= s.end,
            None => false,
        }
    }

    /// Whether a read of `a` is steered to SMRAM DRAM.
    pub open spec fn smram_read_steer(&self, a: u64) -> bool {
        self.smram_contains_spec(a) && match self.smram_view() {
            Some(s) => s.data_to_dram || s.code_to_dram,
            None => false,
        }
    }

    /// Whether a write to `a` is steered to SMRAM DRAM.
    pub open spec fn smram_write_steer(&self, a: u64) -> bool {
        self.smram_contains_spec(a) && match self.smram_view() {
            Some(s) => s.data_to_dram,
            None => false,
        }
    }

    /// Offset of `a` inside the SMRAM window.
    pub open spec fn smram_offset(&self, a: u64) -> int {
        (a as u32) - self.smram_view().unwrap().start
    }

    /// Byte an SMRAM-steered read of `a` returns.
    pub open spec fn smram_read_spec(&self, a: u64) -> u8 {
        if a < self.ram_view().len() {
            self.ram_view()[a as int]
        } else if 0 <= self.smram_offset(a) < self.smram_shadow_view().len() {
            self.smram_shadow_view()[self.smram_offset(a)]
        } else {
            0
        }
    }

    /// Byte a shadow-DRAM read of a legacy-window address returns.
    pub open spec fn shadow_read_spec(&self, a: u64) -> u8 {
        if a < self.ram_view().len() {
            self.ram_view()[a as int]
        } else if a - PAM_WINDOW_BASE < self.legacy_view().len() {
            self.legacy_view()[a - PAM_WINDOW_BASE]
        } else {
            0
        }
    }

    /// Whether the PAM region of `a` reads from shadow DRAM.
    pub open spec fn pam_reads_shadow(&self, a: u64) -> bool {
        match pam_index_spec(a) {
            Some(r) => self.pam_view()[r].read == PamRead::ShadowRam,
            None => false,
        }
    }

    /// Whether the PAM region of `a` writes to shadow DRAM.
    pub open spec fn pam_writes_shadow(&self, a: u64) -> bool {
        match pam_index_spec(a) {
            Some(r) => self.pam_view()[r].write == PamWrite::ShadowRam,
            None => false,
        }
    }

    /// The byte a read of `addr` returns.
    pub open spec fn read_spec(&self, addr: u64) -> u8 {
        let a = self.masked(addr);
        if self.in_hole(a) {
            0xFF
        } else if self.smram_read_steer(a) {
            self.smram_read_spec(a)
        } else if self.pam_reads_shadow(a) {
            self.shadow_read_spec(a)
        } else if rom_lookup(self.roms_view(), a) is Some {
            rom_lookup(self.roms_view(), a).unwrap()
        } else if a < self.ram_view().len() {
            self.ram_view()[a as int]
        } else {
            0xFF
        }
    }

    /// Whether `addr` decodes to RAM, a ROM window, or shadow DRAM for reads
    /// or for writes (a PAM region with RE or WE set, an SMRAM steer).
    pub open spec fn mapped_spec(&self, addr: u64) -> bool {
        let a = self.masked(addr);
        if self.in_hole(a) {
            false
        } else if self.smram_read_steer(a) {
            true
        } else if self.pam_reads_shadow(a) || self.pam_writes_shadow(a) {
            true
        } else {
            rom_lookup(self.roms_view(), a) is Some || a < self.ram_view().len()
        }
    }

    /// What a write of `addr` is reported as.
    pub open spec fn write_disposition(&self, addr: u64) -> WriteDisposition {
        let a = self.masked(addr);
        if self.in_hole(a) {
            WriteDisposition::DroppedUnclaimed
        } else if self.smram_write_steer(a) {
            WriteDisposition::Accepted
        } else if pam_index_spec(a) is Some {
            if self.pam_writes_shadow(a) {
                WriteDisposition::Accepted
            } else {
                WriteDisposition::DroppedPamWriteDisabled
            }
        } else if rom_lookup(self.roms_view(), a) is Some {
            WriteDisposition::DroppedRom
        } else if a < self.ram_view().len() {
            WriteDisposition::Accepted
        } else {
            WriteDisposition::DroppedUnclaimed
        }
    }

    /// RAM after a write of `val` to `addr`.
    pub open spec fn ram_after_write(&self, addr: u64, val: u8) -> Seq<u8> {
        let a = self.masked(addr);
        if self.write_disposition(addr) == WriteDisposition::Accepted && a
            < self.ram_view().len() {
            self.ram_view().update(a as int, val)
        } else {
            self.ram_view()
        }
    }

    /// Legacy shadow after a write of `val` to `addr`.
    pub open spec fn legacy_after_write(&self, addr: u64, val: u8) -> Seq<u8> {
        let a = self.masked(addr);
        if !self.in_hole(a) && !self.smram_write_steer(a) && self.pam_writes_shadow(a) && a
            >= self.ram_view().len() {
            let base = if self.legacy_view().len() == 0 {
                Seq::new(LEGACY_SHADOW_LEN as nat, |i: int| 0u8)
            } else {
                self.legacy_view()
            };
            base.update(a - PAM_WINDOW_BASE, val)
        } else {
            self.legacy_view()
        }
    }

    /// SMRAM shadow after a write of `val` to `addr`.
    pub open spec fn smram_shadow_after_write(&self, addr: u64, val: u8) -> Seq<u8> {
        let a = self.masked(addr);
        if !self.in_hole(a) && self.smram_write_steer(a) && a >= self.ram_view().len() {
            let s = self.smram_view().unwrap();
            zero_extend(self.smram_shadow_view(), (s.end - s.start + 1) as nat).update(
                self.smram_offset(a),
                val,
            )
        } else {
            self.smram_shadow_view()
        }
    }

    /// Configuration (everything but the backing stores) is the same in both.
    pub open spec fn same_config(&self, other: &PhysMem) -> bool {
        &&& self.roms_view() == other.roms_view()
        &&& self.a20_view() == other.a20_view()
        &&& self.pam_view() == other.pam_view()
        &&& self.bios_write_protect_view() == other.bios_write_protect_view()
        &&& self.smram_view() == other.smram_view()
        &&& self.hole_view() == other.hole_view()
    }

    /// The backing stores are the same in both.
    pub open spec fn same_stores(&self, other: &PhysMem) -> bool {
        &&& self.ram_view() == other.ram_view()
        &&& self.legacy_view() == other.legacy_view()
        &&& self.smram_shadow_view() == other.smram_shadow_view()
    }

    pub fn new(ram_size: usize) -> (r: Self)
        ensures
            r.wf(),
            r.ram_view() == Seq::new(ram_size as nat, |i: int| 0u8),
            r.roms_view().len() == 0,
            r.a20_view(),
            r.pam_view() == Seq::new(PAM_REGION_COUNT as nat, |i: int| pam_reset_attributes()),
            r.legacy_view().len() == 0,
            r.bios_write_protect_view(),
            r.smram_view() is None,
            r.smram_shadow_view().len() == 0,
            r.hole_view() is None,
    {
        let ram: Vec<u8> = vec![0u8; ram_size];
        let mut pam: Vec<PamAttributes> = Vec::new();
        let mut i: usize = 0;
        while i < PAM_REGION_COUNT
            invariant
                i <= PAM_REGION_COUNT,
                pam@ == Seq::new(i as nat, |j: int| pam_reset_attributes()),
            decreases PAM_REGION_COUNT - i,
        {
            pam.push(PamAttributes { read: PamRead::Rom, write: PamWrite::Ignored });
            i = i + 1;
        }
        let r = PhysMem {
            ram,
            roms: Vec::new(),
            a20_enabled: true,
            pam,
            legacy_shadow: Vec::new(),
            bios_write_protect: true,
            smram: None,
            smram_shadow: Vec::new(),
            fdhc_hole: None,
        };
        assert(r.ram_view() =~= Seq::new(ram_size as nat, |i: int| 0u8));
        r
    }

    pub fn ram_len(&self) -> (r: usize)
        ensures
            r == self.ram_view().len(),
    {
        self.ram.len()
    }

    /// Whether BIOS write-protect is in force (XBCS bit 2 clear).
    pub fn bios_write_protect(&self) -> (r: bool)
        ensures
            r == self.bios_write_protect_view(),
    {
        self.bios_write_protect
    }

    /// Mirror XBCS bit 2 into the memory model (true = protect).
    pub fn set_bios_write_protect(&mut self, enabled: bool)
        requires
            old(self).wf(),
        ensures
            final(self).wf(),
            final(self).bios_write_protect_view() == enabled,
            final(self).same_stores(old(self)),
            final(self).roms_view() == old(self).roms_view(),
            final(self).a20_view() == old(self).a20_view(),
            final(self).pam_view() == old(self).pam_view(),
            final(self).smram_view() == old(self).smram_view(),
            final(self).hole_view() == old(self).hole_view(),
    {
        self.bios_write_protect = enabled;
    }

    /// Apply the compatible SMRAM window steering. A region that steers
    /// neither code nor data to DRAM returns the window to the VGA/PCI overlay.
    pub fn apply_smram(&mut self, region: SmramRegion, _in_smm: bool)
        requires
            old(self).wf(),
            region.code_to_dram || region.data_to_dram ==> region.start <= region.end < u32::MAX,
        ensures
            final(self).wf(),
            final(self).smram_view() == (if region.code_to_dram || region.data_to_dram {
                Some(region)
            } else {
                None
            }),
            final(self).same_stores(old(self)),
            final(self).roms_view() == old(self).roms_view(),
            final(self).a20_view() == old(self).a20_view(),
            final(self).pam_view() == old(self).pam_view(),
            final(self).bios_write_protect_view() == old(self).bios_write_protect_view(),
            final(self).hole_view() == old(self).hole_view(),
    {
        if region.code_to_dram || region.data_to_dram {
            self.smram = Some(region);
        } else {
            self.smram = None;
        }
    }

    /// Apply Fixed DRAM Hole Control; `None` restores normal DRAM decode.
    pub fn apply_fdhc_hole(&mut self, hole: Option<FdhcHole>)
        requires
            old(self).wf(),
        ensures
            final(self).wf(),
            final(self).hole_view() == (match hole {
                Some(h) => Some((h.start, h.end)),
                None => None,
            }),
            final(self).same_stores(old(self)),
            final(self).roms_view() == old(self).roms_view(),
            final(self).a20_view() == old(self).a20_view(),
            final(self).pam_view() == old(self).pam_view(),
            final(self).bios_write_protect_view() == old(self).bios_write_protect_view(),
            final(self).smram_view() == old(self).smram_view(),
    {
        self.fdhc_hole = match hole {
            Some(h) => Some((h.start, h.end)),
            None => None,
        };
    }

    fn smram_contains(&self, addr: u64) -> (r: bool)
        ensures
            r == self.smram_contains_spec(addr),
    {
        match self.smram {
            Some(s) => {
                #[verifier::truncate]
                let a = addr as u32;
                s.start <= a && a <= s.end
            },
            None => false,
        }
    }

    /// Whether a CPU reference into the SMRAM window maps to DRAM on reads.
    pub fn smram_steers_read_to_dram(&self, addr: u64) -> (r: bool)
        ensures
            r == self.smram_read_steer(addr),
    {
        self.smram_contains(addr) && match self.smram {
            Some(s) => s.data_to_dram || s.code_to_dram,
            None => false,
        }
    }

    /// Whether a CPU data write into the SMRAM window maps to DRAM.
    pub fn smram_steers_write_to_dram(&self, addr: u64) -> (r: bool)
        ensures
            r == self.smram_write_steer(addr),
    {
        self.smram_contains(addr) && match self.smram {
            Some(s) => s.data_to_dram,
            None => false,
        }
    }

    fn in_fdhc_hole(&self, addr: u64) -> (r: bool)
        ensures
            r == self.in_hole(addr),
    {
        match self.fdhc_hole {
            Some((start, end)) => {
                #[verifier::truncate]
                let a = addr as u32;
                start <= a && a <= end
            },
            None => false,
        }
    }

    fn smram_read(&self, addr: u64) -> (r: u8)
        requires
            self.smram_view() is Some,
            self.smram_contains_spec(addr),
        ensures
            r == self.smram_read_spec(addr),
    {
        if addr < self.ram.len() as u64 {
            return self.ram[addr as usize];
        }
        let s = match self.smram {
            Some(s) => s,
            None => {
                return 0xFF;
            },
        };
        #[verifier::truncate]
        let a = addr as u32;
        let off = (a - s.start) as usize;
        if off < self.smram_shadow.len() {
            self.smram_shadow[off]
        } else {
            0
        }
    }

    /// Store a steered SMRAM write: RAM when the address is inside it, else
    /// the SMRAM shadow, grown with zeros to cover the current window so the
    /// byte always lands.
    fn smram_write(&mut self, addr: u64, val: u8)
        requires
            old(self).wf(),
            old(self).smram_view() is Some,
            old(self).smram_contains_spec(addr),
        ensures
            final(self).wf(),
            final(self).same_config(old(self)),
            final(self).legacy_view() == old(self).legacy_view(),
            addr < old(self).ram_view().len() ==> final(self).ram_view() == old(self).ram_view().update(addr as int, val)
                && final(self).smram_shadow_view() == old(self).smram_shadow_view(),
            addr >= old(self).ram_view().len() ==> final(self).ram_view() == old(self).ram_view() && {
                let s = old(self).smram_view().unwrap();
                final(self).smram_shadow_view() == zero_extend(
                    old(self).smram_shadow_view(),
                    (s.end - s.start + 1) as nat,
                ).update(old(self).smram_offset(addr), val)
            },
    {
        if addr < self.ram.len() as u64 {
            self.ram.set(addr as usize, val);
            return ;
        }
        let s = match self.smram {
            Some(s) => s,
            None => {
                return ;
            },
        };
        let len = (s.end - s.start + 1) as usize;
        zero_extend_vec(&mut self.smram_shadow, len);
        #[verifier::truncate]
        let a = addr as u32;
        let off = (a - s.start) as usize;
        self.smram_shadow.set(off, val);
    }

    pub fn a20_enabled(&self) -> (r: bool)
        ensures
            r == self.a20_view(),
    {
        self.a20_enabled
    }

    /// Set the A20 gate; a disabled gate masks physical bit 20.
    pub fn set_a20_enabled(&mut self, enabled: bool)
        requires
            old(self).wf(),
        ensures
            final(self).wf(),
            final(self).a20_view() == enabled,
            final(self).same_stores(old(self)),
            final(self).roms_view() == old(self).roms_view(),
            final(self).pam_view() == old(self).pam_view(),
            final(self).bios_write_protect_view() == old(self).bios_write_protect_view(),
            final(self).smram_view() == old(self).smram_view(),
            final(self).hole_view() == old(self).hole_view(),
    {
        self.a20_enabled = enabled;
    }

    fn apply_a20(&self, addr: u64) -> (r: u64)
        ensures
            r == self.masked(addr),
    {
        if self.a20_enabled {
            addr
        } else {
            addr & A20_CLEAR_MASK
        }
    }

    /// Replace all ROM windows with a single mapping.
    pub fn map_rom(&mut self, base: u64, data: Vec<u8>)
        requires
            old(self).wf(),
        ensures
            final(self).wf(),
            final(self).roms_view().len() == 1,
            final(self).roms_view()[0].base == base,
            final(self).roms_view()[0].data@ == data@,
            final(self).same_stores(old(self)),
            final(self).a20_view() == old(self).a20_view(),
            final(self).pam_view() == old(self).pam_view(),
            final(self).bios_write_protect_view() == old(self).bios_write_protect_view(),
            final(self).smram_view() == old(self).smram_view(),
            final(self).hole_view() == old(self).hole_view(),
    {
        self.roms.clear();
        self.roms.push(RomWindow { base, data });
    }

    /// Remove every ROM window.
    pub fn clear_roms(&mut self)
        requires
            old(self).wf(),
        ensures
            final(self).wf(),
            final(self).roms_view().len() == 0,
            final(self).same_stores(old(self)),
            final(self).a20_view() == old(self).a20_view(),
            final(self).pam_view() == old(self).pam_view(),
            final(self).bios_write_protect_view() == old(self).bios_write_protect_view(),
            final(self).smram_view() == old(self).smram_view(),
            final(self).hole_view() == old(self).hole_view(),
    {
        self.roms.clear();
    }

    /// Append a ROM window after the existing ones (earlier windows win).
    pub fn add_rom(&mut self, base: u64, data: Vec<u8>)
        requires
            old(self).wf(),
        ensures
            final(self).wf(),
            final(self).roms_view().len() == old(self).roms_view().len() + 1,
            final(self).roms_view().take(old(self).roms_view().len() as int) == old(self).roms_view(),
            final(self).roms_view().last().base == base,
            final(self).roms_view().last().data@ == data@,
            final(self).same_stores(old(self)),
            final(self).a20_view() == old(self).a20_view(),
            final(self).pam_view() == old(self).pam_view(),
            final(self).bios_write_protect_view() == old(self).bios_write_protect_view(),
            final(self).smram_view() == old(self).smram_view(),
            final(self).hole_view() == old(self).hole_view(),
    {
        self.roms.push(RomWindow { base, data });
        assert(self.roms@.take(old(self).roms@.len() as int) =~= old(self).roms@);
    }

    fn rom_read(&self, addr: u64) -> (r: Option<u8>)
        ensures
            r == rom_lookup(self.roms_view(), addr),
    {
        let mut i: usize = 0;
        assert(self.roms@.skip(0) =~= self.roms@);
        while i < self.roms.len()
            invariant
                i <= self.roms@.len(),
                rom_lookup(self.roms@, addr) == rom_lookup(self.roms@.skip(i as int), addr),
            decreases self.roms@.len() - i,
        {
            let rom = &self.roms[i];
            assert(self.roms@.skip(i as int)[0] == *rom);
            assert(self.roms@.skip(i as int).drop_first() =~= self.roms@.skip(i + 1));
            if rom.base <= addr && addr - rom.base < rom.data.len() as u64 {
                return Some(rom.data[(addr - rom.base) as usize]);
            }
            i = i + 1;
        }
        None
    }

    /// PAM region containing an already-A20-masked physical address.
    pub fn pam_region_index(addr: u64) -> (r: Option<usize>)
        ensures
            match r {
                Some(i) => pam_index_spec(addr) == Some(i as int) && in_pam_region(addr as int, i as int),
                None => pam_index_spec(addr) is None && forall|i: int| !in_pam_region(addr as int, i),
            },
    {
        if PAM_WINDOW_BASE <= addr && addr < PAM_BIOS_BASE {
            let i = ((addr - PAM_WINDOW_BASE) / PAM_SMALL_REGION_LEN) as usize;
            Some(i)
        } else if PAM_BIOS_BASE <= addr && addr < PAM_WINDOW_END {
            Some(PAM_BIOS_REGION)
        } else {
            None
        }
    }

    /// `(base, length)` of a PAM region.
    pub fn pam_region_range(region: usize) -> (r: Option<(u64, u64)>)
        ensures
            match r {
                Some((b, l)) => region < PAM_REGION_COUNT && b == pam_base(region as int) && l
                    == pam_len(region as int),
                None => region >= PAM_REGION_COUNT,
            },
    {
        if region < 12 {
            Some((PAM_WINDOW_BASE + (region as u64) * PAM_SMALL_REGION_LEN, PAM_SMALL_REGION_LEN))
        } else if region == PAM_BIOS_REGION {
            Some((PAM_BIOS_BASE, PAM_BIOS_REGION_LEN))
        } else {
            None
        }
    }

    /// Region attributed by one nibble of a PAM configuration register: PAM0's
    /// high nibble owns the BIOS area (its low nibble is reserved); PAM1-PAM6
    /// own the twelve small regions in ascending order, low nibble first.
    pub fn pam_region_for_register(offset: u8, high_nibble: bool) -> (r: Option<usize>)
        ensures
            match r {
                Some(i) => pam_register_region(offset, high_nibble) == Some(i as int) && i
                    < PAM_REGION_COUNT,
                None => pam_register_region(offset, high_nibble) is None,
            },
    {
        if offset < PAM_REGISTER_FIRST || offset > PAM_REGISTER_LAST {
            return None;
        }
        if offset == PAM_REGISTER_FIRST {
            return if high_nibble {
                Some(PAM_BIOS_REGION)
            } else {
                None
            };
        }
        let pair = (offset - PAM_REGISTER_FIRST - 1) as usize;
        Some(pair * 2 + if high_nibble {
            1usize
        } else {
            0usize
        })
    }

    /// Current attributes of a PAM region.
    pub fn region_attributes(&self, region: usize) -> (r: Option<PamAttributes>)
        requires
            self.wf(),
        ensures
            r == (if region < PAM_REGION_COUNT {
                Some(self.pam_view()[region as int])
            } else {
                None
            }),
    {
        if region < self.pam.len() {
            Some(self.pam[region])
        } else {
            None
        }
    }

    /// Set one region's attributes; `false` for an out-of-range index.
    pub fn set_region_attributes(
        &mut self,
        region: usize,
        readable_from: PamRead,
        writable_to: PamWrite,
    ) -> (r: bool)
        requires
            old(self).wf(),
        ensures
            final(self).wf(),
            r == (region < PAM_REGION_COUNT),
            final(self).pam_view() == (if region < PAM_REGION_COUNT {
                old(self).pam_view().update(
                    region as int,
                    PamAttributes { read: readable_from, write: writable_to },
                )
            } else {
                old(self).pam_view()
            }),
            final(self).same_stores(old(self)),
            final(self).roms_view() == old(self).roms_view(),
            final(self).a20_view() == old(self).a20_view(),
            final(self).bios_write_protect_view() == old(self).bios_write_protect_view(),
            final(self).smram_view() == old(self).smram_view(),
            final(self).hole_view() == old(self).hole_view(),
    {
        if region < self.pam.len() {
            self.pam.set(region, PamAttributes { read: readable_from, write: writable_to });
            true
        } else {
            false
        }
    }

    /// Apply one PAM configuration register byte (`0x59`-`0x5F`): the low
    /// nibble drives the lower region of the pair, the high nibble the higher
    /// one; PAM0's low nibble is reserved. `false` when `offset` is not a PAM
    /// register.
    pub fn apply_pam_register(&mut self, offset: u8, value: u8) -> (r: bool)
        requires
            old(self).wf(),
        ensures
            final(self).wf(),
            r == (PAM_REGISTER_FIRST <= offset <= PAM_REGISTER_LAST),
            final(self).pam_view() == pam_after_register(old(self).pam_view(), offset, value),
            final(self).same_stores(old(self)),
            final(self).roms_view() == old(self).roms_view(),
            final(self).a20_view() == old(self).a20_view(),
            final(self).bios_write_protect_view() == old(self).bios_write_protect_view(),
            final(self).smram_view() == old(self).smram_view(),
            final(self).hole_view() == old(self).hole_view(),
    {
        if offset < PAM_REGISTER_FIRST || offset > PAM_REGISTER_LAST {
            return false;
        }
        if let Some(region) = Self::pam_region_for_register(offset, false) {
            self.pam.set(region, PamAttributes::from_field(value & PAM_FIELD_MASK));
        }
        if let Some(region) = Self::pam_region_for_register(offset, true) {
            self.pam.set(region, PamAttributes::from_field((value >> 4u8) & PAM_FIELD_MASK));
        }
        assert(self.pam_view() =~= pam_after_register(old(self).pam_view(), offset, value));
        true
    }

    /// Re-encode the attributes a PAM register currently holds (reserved bits
    /// read back as zero).
    pub fn pam_register_value(&self, offset: u8) -> (r: Option<u8>)
        requires
            self.wf(),
        ensures
            r == pam_register_encoding(self.pam_view(), offset),
    {
        if offset < PAM_REGISTER_FIRST || offset > PAM_REGISTER_LAST {
            return None;
        }
        let mut value: u8 = 0;
        if let Some(region) = Self::pam_region_for_register(offset, false) {
            value = self.pam[region].to_field();
        }
        if let Some(region) = Self::pam_region_for_register(offset, true) {
            value = value + 16 * self.pam[region].to_field();
        }
        Some(value)
    }

    /// Restore the PAM reset defaults: every region reads ROM, writes dropped.
    /// Shadow contents are kept.
    pub fn reset_pam(&mut self)
        requires
            old(self).wf(),
        ensures
            final(self).wf(),
            final(self).pam_view() == Seq::new(PAM_REGION_COUNT as nat, |i: int| pam_reset_attributes()),
            final(self).same_stores(old(self)),
            final(self).roms_view() == old(self).roms_view(),
            final(self).a20_view() == old(self).a20_view(),
            final(self).bios_write_protect_view() == old(self).bios_write_protect_view(),
            final(self).smram_view() == old(self).smram_view(),
            final(self).hole_view() == old(self).hole_view(),
    {
        let mut i: usize = 0;
        while i < PAM_REGION_COUNT
            invariant
                self.wf(),
                i <= PAM_REGION_COUNT,
                forall|j: int| 0 <= j < i ==> self.pam_view()[j] == pam_reset_attributes(),
                self.same_stores(old(self)),
                self.roms_view() == old(self).roms_view(),
                self.a20_view() == old(self).a20_view(),
                self.bios_write_protect_view() == old(self).bios_write_protect_view(),
                self.smram_view() == old(self).smram_view(),
                self.hole_view() == old(self).hole_view(),
            decreases PAM_REGION_COUNT - i,
        {
            self.pam.set(i, PamAttributes { read: PamRead::Rom, write: PamWrite::Ignored });
            i = i + 1;
        }
        assert(self.pam_view() =~= Seq::new(PAM_REGION_COUNT as nat, |i: int| pam_reset_attributes()));
    }

    fn shadow_read(&self, addr: u64) -> (r: u8)
        requires
            PAM_WINDOW_BASE <= addr,
        ensures
            r == self.shadow_read_spec(addr),
    {
        if addr < self.ram.len() as u64 {
            return self.ram[addr as usize];
        }
        let off = (addr - PAM_WINDOW_BASE) as usize;
        if (addr - PAM_WINDOW_BASE) < self.legacy_shadow.len() as u64 {
            self.legacy_shadow[off]
        } else {
            0
        }
    }

    fn shadow_write(&mut self, addr: u64, val: u8)
        requires
            old(self).wf(),
            PAM_WINDOW_BASE <= addr < PAM_WINDOW_END,
        ensures
            final(self).wf(),
            final(self).same_config(old(self)),
            final(self).smram_shadow_view() == old(self).smram_shadow_view(),
            addr < old(self).ram_view().len() ==> final(self).ram_view() == old(self).ram_view().update(addr as int, val)
                && final(self).legacy_view() == old(self).legacy_view(),
            addr >= old(self).ram_view().len() ==> final(self).ram_view() == old(self).ram_view() && {
                let base = if old(self).legacy_view().len() == 0 {
                    Seq::new(LEGACY_SHADOW_LEN as nat, |i: int| 0u8)
                } else {
                    old(self).legacy_view()
                };
                final(self).legacy_view() == base.update(addr - PAM_WINDOW_BASE, val)
            },
    {
        if addr < self.ram.len() as u64 {
            self.ram.set(addr as usize, val);
            return ;
        }
        if self.legacy_shadow.len() == 0 {
            self.legacy_shadow = vec![0u8; LEGACY_SHADOW_LEN];
            assert(self.legacy_shadow@ =~= Seq::new(LEGACY_SHADOW_LEN as nat, |i: int| 0u8));
        }
        self.legacy_shadow.set((addr - PAM_WINDOW_BASE) as usize, val);
    }

    /// Whether an address decodes to RAM, a ROM window, or shadow DRAM for
    /// reads or for writes; every other address is open bus (reads `0xFF`,
    /// writes dropped).
    pub fn is_mapped(&self, addr: u64) -> (r: bool)
        requires
            self.wf(),
        ensures
            r == self.mapped_spec(addr),
    {
        let addr = self.apply_a20(addr);
        if self.in_fdhc_hole(addr) {
            return false;
        }
        if self.smram_steers_read_to_dram(addr) {
            return true;
        }
        if let Some(region) = Self::pam_region_index(addr) {
            if self.pam[region].read == PamRead::ShadowRam || self.pam[region].write == PamWrite::ShadowRam {
                return true;
            }
        }
        self.rom_read(addr).is_some() || addr < self.ram.len() as u64
    }

    /// Read a byte. Never fails: open bus reads `0xFF`.
    pub fn read_u8(&self, addr: u64) -> (r: Result<u8, MemError>)
        requires
            self.wf(),
        ensures
            r == Ok::<u8, MemError>(self.read_spec(addr)),
    {
        let addr = self.apply_a20(addr);
        if self.in_fdhc_hole(addr) {
            return Ok(0xFF);
        }
        if self.smram_steers_read_to_dram(addr) {
            return Ok(self.smram_read(addr));
        }
        if let Some(region) = Self::pam_region_index(addr) {
            if self.pam[region].read == PamRead::ShadowRam {
                return Ok(self.shadow_read(addr));
            }
        }
        if let Some(b) = self.rom_read(addr) {
            return Ok(b);
        }
        if addr < self.ram.len() as u64 {
            Ok(self.ram[addr as usize])
        } else {
            Ok(0xFF)
        }
    }

    /// Write a byte, never failing, and report where it went. A write the
    /// platform cannot store (ROM window, PAM region with WE clear, unclaimed
    /// space) is dropped.
    pub fn write_u8_classified(&mut self, addr: u64, val: u8) -> (r: WriteDisposition)
        requires
            old(self).wf(),
        ensures
            final(self).wf(),
            r == old(self).write_disposition(addr),
            final(self).same_config(old(self)),
            final(self).ram_view() == old(self).ram_after_write(addr, val),
            final(self).legacy_view() == old(self).legacy_after_write(addr, val),
            final(self).smram_shadow_view() == old(self).smram_shadow_after_write(addr, val),
    {
        let addr = self.apply_a20(addr);
        if self.in_fdhc_hole(addr) {
            return WriteDisposition::DroppedUnclaimed;
        }
        if self.smram_steers_write_to_dram(addr) {
            self.smram_write(addr, val);
            return WriteDisposition::Accepted;
        }
        if let Some(region) = Self::pam_region_index(addr) {
            if self.pam[region].write == PamWrite::ShadowRam {
                self.shadow_write(addr, val);
                return WriteDisposition::Accepted;
            }
            return WriteDisposition::DroppedPamWriteDisabled;
        }
        if self.rom_read(addr).is_some() {
            return WriteDisposition::DroppedRom;
        }
        if addr < self.ram.len() as u64 {
            self.ram.set(addr as usize, val);
            WriteDisposition::Accepted
        } else {
            WriteDisposition::DroppedUnclaimed
        }
    }

    /// [`Self::write_u8_classified`] without the disposition; always `Ok`.
    pub fn write_u8(&mut self, addr: u64, val: u8) -> (r: Result<(), MemError>)
        requires
            old(self).wf(),
        ensures
            final(self).wf(),
            r is Ok,
            final(self).same_config(old(self)),
            final(self).ram_view() == old(self).ram_after_write(addr, val),
            final(self).legacy_view() == old(self).legacy_after_write(addr, val),
            final(self).smram_shadow_view() == old(self).smram_shadow_after_write(addr, val),
    {
        self.write_u8_classified(addr, val);
        Ok(())
    }
}


impl PhysMem {
    /// At the A20-masked address `a`, reads take the same route as writes: the
    /// SMRAM window steers both or neither, and a PAM region reads from the
    /// shadow it is written to.
    pub open spec fn coherent_at(&self, a: u64) -> bool {
        &&& self.smram_read_steer(a) == self.smram_write_steer(a)
        &&& (pam_index_spec(a) is Some ==> self.pam_reads_shadow(a))
    }

    /// `after` is the state a write of `val` to `addr` leaves behind.
    pub open spec fn is_write_of(&self, after: &PhysMem, addr: u64, val: u8) -> bool {
        &&& after.same_config(self)
        &&& after.ram_view() == self.ram_after_write(addr, val)
        &&& after.legacy_view() == self.legacy_after_write(addr, val)
        &&& after.smram_shadow_view() == self.smram_shadow_after_write(addr, val)
    }
}

/// A write that the memory accepts is read back: where reads and writes of
/// the address take the same route, reading the address after an accepted
/// write returns the byte written.
pub proof fn law_accepted_write_reads_back(m: PhysMem, after: PhysMem, addr: u64, val: u8)
    requires
        m.wf(),
        m.is_write_of(&after, addr, val),
        m.write_disposition(addr) == WriteDisposition::Accepted,
        m.coherent_at(m.masked(addr)),
    ensures
        after.read_spec(addr) == val,
{
    let a = m.masked(addr);
    assert(after.masked(addr) == a);
    if m.smram_write_steer(a) {
        let s = m.smram_view().unwrap();
        if a >= m.ram_view().len() {
            assert(0 <= m.smram_offset(a) <= s.end - s.start);
        }
    }
}

/// A write the platform drops changes nothing a later read can observe.
pub proof fn law_dropped_write_is_invisible(m: PhysMem, after: PhysMem, addr: u64, val: u8, probe: u64)
    requires
        m.wf(),
        m.is_write_of(&after, addr, val),
        m.write_disposition(addr) != WriteDisposition::Accepted,
    ensures
        after.same_stores(&m),
        after.read_spec(probe) == m.read_spec(probe),
        after.mapped_spec(probe) == m.mapped_spec(probe),
{
    assert(after.ram_view() =~= m.ram_view());
    assert(after.legacy_view() =~= m.legacy_view());
    assert(after.smram_shadow_view() =~= m.smram_shadow_view());
}

/// An address the memory does not report as mapped is open bus: a read
/// returns `0xFF` and a write is not stored.
pub proof fn law_unmapped_is_open_bus(m: PhysMem, addr: u64)
    requires
        !m.mapped_spec(addr),
    ensures
        m.read_spec(addr) == 0xFF,
        m.write_disposition(addr) != WriteDisposition::Accepted,
{
}

/// Appending a window to the ROM list leaves earlier windows in front.
pub proof fn lemma_rom_lookup_push(roms: Seq<RomWindow>, w: RomWindow, b: u64)
    ensures
        rom_lookup(roms.push(w), b) == (if rom_lookup(roms, b) is Some {
            rom_lookup(roms, b)
        } else if w.base <= b && (b - w.base) < w.data@.len() {
            Some(w.data@[b - w.base])
        } else {
            None
        }),
    decreases roms.len(),
{
    let pushed = roms.push(w);
    if roms.len() > 0 {
        assert(pushed[0] == roms[0]);
        assert(pushed.drop_first() =~= roms.drop_first().push(w));
        lemma_rom_lookup_push(roms.drop_first(), w, b);
    } else {
        assert(pushed[0] == w);
        assert(pushed.drop_first() =~= Seq::<RomWindow>::empty());
        assert(rom_lookup(pushed.drop_first(), b) is None);
        assert(rom_lookup(roms, b) is None);
    }
}

/// After a ROM window of `data` is added at `base`, a read shows the new
/// bytes where the address reaches the ROM windows (no DRAM hole, SMRAM or
/// PAM shadow in front) and no earlier window covers it; every other read is
/// unchanged.
pub proof fn law_add_rom_reads(m: PhysMem, m2: PhysMem, base: u64, data: Seq<u8>, addr: u64)
    requires
        m2.roms_view().len() == m.roms_view().len() + 1,
        m2.roms_view().take(m.roms_view().len() as int) == m.roms_view(),
        m2.roms_view().last().base == base,
        m2.roms_view().last().data@ == data,
        m2.same_stores(&m),
        m2.a20_view() == m.a20_view(),
        m2.pam_view() == m.pam_view(),
        m2.smram_view() == m.smram_view(),
        m2.hole_view() == m.hole_view(),
    ensures
        m2.read_spec(addr) == ({
            let b = m.masked(addr);
            if !m.in_hole(b) && !m.smram_read_steer(b) && !m.pam_reads_shadow(b) && rom_lookup(
                m.roms_view(),
                b,
            ) is None && base <= b && b - base < data.len() {
                data[b - base]
            } else {
                m.read_spec(addr)
            }
        }),
{
    let b = m.masked(addr);
    assert(m2.roms_view() =~= m.roms_view().push(m2.roms_view().last()));
    lemma_rom_lookup_push(m.roms_view(), m2.roms_view().last(), b);
}

/// With the A20 gate disabled an address and its bit-20-clear alias read the
/// same byte and take the same write route.
pub proof fn law_a20_disabled_aliases(m: PhysMem, addr: u64)
    requires
        !m.a20_view(),
    ensures
        m.read_spec(addr) == m.read_spec(addr & A20_CLEAR_MASK),
        m.write_disposition(addr) == m.write_disposition(addr & A20_CLEAR_MASK),
        m.mapped_spec(addr) == m.mapped_spec(addr & A20_CLEAR_MASK),
{
    assert((addr & A20_CLEAR_MASK) & A20_CLEAR_MASK == addr & A20_CLEAR_MASK) by (bit_vector);
}

/// Decoding a PAM attribute field and encoding it again keeps the two
/// meaningful bits and drops the reserved ones; encoding then decoding an
/// attribute pair is the identity.
pub proof fn law_pam_field_round_trip(field: u8, attrs: PamAttributes)
    ensures
        pam_attributes_field(pam_field_attributes(field)) == field & PAM_FIELD_MASK,
        pam_field_attributes(pam_attributes_field(attrs)) == attrs,
{
    assert(field & 3 == (if field & 1 != 0 { 1u8 } else { 0u8 }) + (if field & 2 != 0 { 2u8 } else { 0u8 })) by (bit_vector);
    let f = pam_attributes_field(attrs);
    assert(f == 0 || f == 1 || f == 2 || f == 3);
    assert((0u8 & 1u8) == 0 && (0u8 & 2u8) == 0 && (1u8 & 1u8) != 0 && (1u8 & 2u8) == 0 && (2u8 & 1u8) == 0
        && (2u8 & 2u8) != 0 && (3u8 & 1u8) != 0 && (3u8 & 2u8) != 0) by (bit_vector);
}

/// A PAM configuration register reads back the byte last written to it,
/// with the reserved bits (and PAM0's reserved low nibble) cleared.
pub proof fn law_pam_register_round_trip(pam: Seq<PamAttributes>, offset: u8, value: u8)
    requires
        pam.len() == PAM_REGION_COUNT,
        PAM_REGISTER_FIRST <= offset <= PAM_REGISTER_LAST,
    ensures
        pam_register_encoding(pam_after_register(pam, offset, value), offset) == Some(
            if offset == PAM_REGISTER_FIRST {
                value & 0x30u8
            } else {
                value & 0x33u8
            },
        ),
{
    let lo = value & PAM_FIELD_MASK;
    let hi = (value >> 4u8) & PAM_FIELD_MASK;
    let dummy = PamAttributes { read: PamRead::Rom, write: PamWrite::Ignored };
    law_pam_field_round_trip(lo, dummy);
    law_pam_field_round_trip(hi, dummy);
    let after = pam_after_register(pam, offset, value);
    assert(value & 0x33u8 == (value & 3u8) + 16 * ((value >> 4u8) & 3u8)) by (bit_vector);
    assert(value & 0x30u8 == 16 * ((value >> 4u8) & 3u8)) by (bit_vector);
    assert((value & 3u8) & 3u8 == value & 3u8 && ((value >> 4u8) & 3u8) & 3u8 == (value >> 4u8) & 3u8
        && value & 3u8 <= 3 && (value >> 4u8) & 3u8 <= 3) by (bit_vector);
    assert(pam_attributes_field(pam_field_attributes(lo)) == lo);
    assert(pam_attributes_field(pam_field_attributes(hi)) == hi);
    match pam_register_region(offset, true) {
        Some(i) => {
            assert(after[i] == pam_field_attributes(hi));
        },
        None => {},
    }
    match pam_register_region(offset, false) {
        Some(i) => {
            assert(after[i] == pam_field_attributes(lo));
        },
        None => {},
    }
    let enc = pam_register_encoding(after, offset).unwrap();
    if offset == PAM_REGISTER_FIRST {
        assert(enc as int == (16 * hi as int) as u8);
    } else {
        assert(enc as int == (lo as int + 16 * hi as int) as u8);
    }
}

/// PAM regions partition the legacy window: every address in
/// `0xC0000`-`0xFFFFF` lies in exactly the region the index names, and no
/// address outside it lies in any region.
pub proof fn law_pam_regions_partition_window(a: u64, i: int)
    ensures
        (PAM_WINDOW_BASE <= a < PAM_WINDOW_END) == (pam_index_spec(a) is Some),
        pam_index_spec(a) is Some ==> in_pam_region(a as int, pam_index_spec(a).unwrap()),
        in_pam_region(a as int, i) ==> pam_index_spec(a) == Some(i),
{
}


/// `states` steps through `writes` in order: each state is the one before
/// with the next write applied.
pub open spec fn write_chain(states: Seq<PhysMem>, writes: Seq<(u64, u8)>) -> bool {
    &&& states.len() == writes.len() + 1
    &&& forall|i: int|
        0 <= i < writes.len() ==> #[trigger] states[i].is_write_of(&states[i + 1], writes[i].0, writes[i].1)
}

/// `after` is `before` with `writes` applied in order.
pub open spec fn writes_to(before: PhysMem, after: PhysMem, writes: Seq<(u64, u8)>) -> bool {
    exists|states: Seq<PhysMem>|
        #[trigger] write_chain(states, writes) && states[0] == before && states.last() == after
}

/// Byte writes of `data` to `dest`, `dest + 1`, ...
pub open spec fn byte_writes(dest: u64, data: Seq<u8>) -> Seq<(u64, u8)> {
    Seq::new(data.len(), |i: int| ((dest + i) as u64, data[i]))
}

/// Write `data` byte by byte starting at `dest`.
pub fn write_all(mem: &mut PhysMem, dest: u64, data: &[u8])
    requires
        old(mem).wf(),
        dest + data@.len() <= u64::MAX,
    ensures
        final(mem).wf(),
        final(mem).same_config(old(mem)),
        writes_to(*old(mem), *final(mem), byte_writes(dest, data@)),
{
    write_range(mem, dest, data, 0, data.len());
    assert(data@.subrange(0, data@.len() as int) =~= data@);
}

/// Write the `n` bytes of `data` from `off` on, byte by byte, starting at
/// `dest`.
pub fn write_range(mem: &mut PhysMem, dest: u64, data: &[u8], off: usize, n: usize)
    requires
        old(mem).wf(),
        off + n <= data@.len(),
        dest + n <= u64::MAX,
    ensures
        final(mem).wf(),
        final(mem).same_config(old(mem)),
        writes_to(*old(mem), *final(mem), byte_writes(dest, data@.subrange(off as int, off + n))),
{
    let ghost mut states: Seq<PhysMem> = seq![*mem];
    let ghost w = byte_writes(dest, data@.subrange(off as int, off + n));
    let len = data.len();
    let mut i: usize = 0;
    while i < n
        invariant
            i <= n,
            len == data@.len(),
            off + n <= data@.len(),
            dest + n <= u64::MAX,
            mem.wf(),
            mem.same_config(old(mem)),
            w == byte_writes(dest, data@.subrange(off as int, off + n)),
            write_chain(states, w.take(i as int)),
            states[0] == *old(mem),
            states.last() == *mem,
        decreases n - i,
    {
        let ghost prev = *mem;
        let _ = mem.write_u8(dest + i as u64, data[off + i]);
        proof {
            let ns = states.push(*mem);
            assert(prev.is_write_of(&*mem, w[i as int].0, w[i as int].1));
            assert(w.take(i + 1) =~= w.take(i as int).push(w[i as int]));
            assert forall|k: int| 0 <= k < i + 1 implies #[trigger] ns[k].is_write_of(
                &ns[k + 1],
                w.take(i + 1)[k].0,
                w.take(i + 1)[k].1,
            ) by {
                if k < i {
                    assert(ns[k] == states[k] && ns[k + 1] == states[k + 1]);
                    assert(states[k].is_write_of(&states[k + 1], w.take(i as int)[k].0, w.take(i as int)[k].1));
                }
            }
            states = ns;
        }
        i = i + 1;
    }
    assert(w.take(n as int) =~= w);
    assert(write_chain(states, w));
}


impl PhysMem {
    /// Address `a` decodes straight to RAM: the A20 gate leaves it alone, and
    /// no DRAM hole, SMRAM window, PAM region or ROM window covers it.
    pub open spec fn plain_ram_at(&self, a: u64) -> bool {
        &&& self.masked(a) == a
        &&& !self.in_hole(a)
        &&& !self.smram_contains_spec(a)
        &&& pam_index_spec(a) is None
        &&& rom_lookup(self.roms_view(), a) is None
        &&& a < self.ram_view().len()
    }

    /// Every address in `lo..hi` is plain RAM.
    pub open spec fn plain_ram_range(&self, lo: u64, hi: u64) -> bool {
        forall|a: u64| lo <= a < hi ==> #[trigger] self.plain_ram_at(a)
    }
}

/// A write to a plain-RAM address reads back, leaves every other plain-RAM
/// address as it was, and keeps the plain-RAM map unchanged.
pub proof fn lemma_plain_ram_write(m: PhysMem, after: PhysMem, addr: u64, val: u8)
    requires
        m.wf(),
        m.is_write_of(&after, addr, val),
        m.plain_ram_at(addr),
    ensures
        after.wf(),
        after.read_spec(addr) == val,
        forall|b: u64| #[trigger] after.plain_ram_at(b) == m.plain_ram_at(b),
        forall|b: u64| m.plain_ram_at(b) && b != addr ==> #[trigger] after.read_spec(b) == m.read_spec(b),
{
    assert(m.write_disposition(addr) == WriteDisposition::Accepted);
    assert(after.ram_view() == m.ram_view().update(addr as int, val));
    assert(after.ram_view().len() == m.ram_view().len());
    assert forall|b: u64| #[trigger] after.plain_ram_at(b) == m.plain_ram_at(b) by {
        assert(after.masked(b) == m.masked(b));
    }
    assert forall|b: u64| m.plain_ram_at(b) && b != addr implies #[trigger] after.read_spec(b)
        == m.read_spec(b) by {
        assert(after.masked(b) == b);
    }
}

/// Addresses below 1 MiB are left alone by the A20 gate.
pub proof fn lemma_below_1m_unmasked(m: PhysMem, a: u64)
    requires
        a < A20_ADDR_BIT,
    ensures
        m.masked(a) == a,
{
    assert(a < 0x0010_0000u64 ==> a & 0xFFFF_FFFF_FFEF_FFFFu64 == a) by (bit_vector);
}


/// What a read of `b` returns after `m` takes `w`, when every address is
/// plain RAM: the last value written to `b`, else the byte `m` held.
pub open spec fn read_after(m: PhysMem, w: Seq<(u64, u8)>, b: u64) -> u8
    decreases w.len(),
{
    if w.len() == 0 {
        m.read_spec(b)
    } else if w.last().0 == b {
        w.last().1
    } else {
        read_after(m, w.drop_last(), b)
    }
}

/// After byte writes of `data` from `dest` on, the last value written to
/// `dest + k` is `data[k]`.
pub proof fn lemma_read_after_byte_writes(m: PhysMem, dest: u64, data: Seq<u8>, k: int)
    requires
        0 <= k < data.len(),
        dest + data.len() <= u64::MAX,
    ensures
        read_after(m, byte_writes(dest, data), (dest + k) as u64) == data[k],
    decreases data.len(),
{
    let w = byte_writes(dest, data);
    if k < data.len() - 1 {
        assert(w.drop_last() =~= byte_writes(dest, data.drop_last()));
        lemma_read_after_byte_writes(m, dest, data.drop_last(), k);
    }
}

/// Byte writes from `dest` on leave every address outside their range with
/// the value it had.
pub proof fn lemma_read_after_byte_writes_outside(m: PhysMem, dest: u64, data: Seq<u8>, b: u64)
    requires
        dest + data.len() <= u64::MAX,
        !(dest <= b < dest + data.len()),
    ensures
        read_after(m, byte_writes(dest, data), b) == m.read_spec(b),
    decreases data.len(),
{
    let w = byte_writes(dest, data);
    if data.len() > 0 {
        assert(w.drop_last() =~= byte_writes(dest, data.drop_last()));
        lemma_read_after_byte_writes_outside(m, dest, data.drop_last(), b);
    }
}

/// After writes `pre` and then byte writes of `data` from `dest` on, the
/// last value written to `dest + k` is `data[k]`.
pub proof fn lemma_read_after_prefixed_writes(m: PhysMem, pre: Seq<(u64, u8)>, dest: u64, data: Seq<u8>, k: int)
    requires
        0 <= k < data.len(),
        dest + data.len() <= u64::MAX,
    ensures
        read_after(m, pre + byte_writes(dest, data), (dest + k) as u64) == data[k],
    decreases data.len(),
{
    let w = pre + byte_writes(dest, data);
    if k < data.len() - 1 {
        assert(w.drop_last() =~= pre + byte_writes(dest, data.drop_last()));
        lemma_read_after_prefixed_writes(m, pre, dest, data.drop_last(), k);
    }
}

/// Byte writes after `pre` leave every address outside their range with
/// the value `pre` left there.
pub proof fn lemma_read_after_prefixed_outside(m: PhysMem, pre: Seq<(u64, u8)>, dest: u64, data: Seq<u8>, b: u64)
    requires
        dest + data.len() <= u64::MAX,
        !(dest <= b < dest + data.len()),
    ensures
        read_after(m, pre + byte_writes(dest, data), b) == read_after(m, pre, b),
    decreases data.len(),
{
    let w = pre + byte_writes(dest, data);
    if data.len() == 0 {
        assert(w =~= pre);
    } else {
        assert(w.drop_last() =~= pre + byte_writes(dest, data.drop_last()));
        lemma_read_after_prefixed_outside(m, pre, dest, data.drop_last(), b);
    }
}

proof fn lemma_plain_chain(st: Seq<PhysMem>, w: Seq<(u64, u8)>, k: int)
    requires
        write_chain(st, w),
        st[0].wf(),
        forall|i: int| 0 <= i < w.len() ==> st[0].plain_ram_at(#[trigger] w[i].0),
        0 <= k <= w.len(),
    ensures
        st[k].wf(),
        forall|b: u64| #[trigger] st[k].plain_ram_at(b) == st[0].plain_ram_at(b),
        forall|b: u64|
            st[0].plain_ram_at(b) ==> #[trigger] st[k].read_spec(b) == read_after(st[0], w.take(k), b),
    decreases k,
{
    if k == 0 {
        assert(w.take(0).len() == 0);
    } else {
        lemma_plain_chain(st, w, k - 1);
        let j = k - 1;
        let prev = st[j];
        assert(st[j].is_write_of(&st[j + 1], w[j].0, w[j].1));
        assert(st[j + 1] == st[k]);
        assert(st[0].plain_ram_at(w[k - 1].0));
        lemma_plain_ram_write(prev, st[k], w[k - 1].0, w[k - 1].1);
        assert(w.take(k).drop_last() =~= w.take(k - 1));
        assert forall|b: u64| st[0].plain_ram_at(b) implies #[trigger] st[k].read_spec(b) == read_after(
            st[0],
            w.take(k),
            b,
        ) by {
            if b != w[k - 1].0 {
                assert(st[k].read_spec(b) == prev.read_spec(b));
            }
        }
    }
}

/// After writes to plain-RAM addresses only, memory is still well formed,
/// has the same plain-RAM map, and every plain-RAM address reads the last
/// value written to it (or what it held).
pub proof fn lemma_plain_writes(before: PhysMem, after: PhysMem, w: Seq<(u64, u8)>)
    requires
        before.wf(),
        writes_to(before, after, w),
        forall|i: int| 0 <= i < w.len() ==> before.plain_ram_at(#[trigger] w[i].0),
    ensures
        after.wf(),
        forall|b: u64| #[trigger] after.plain_ram_at(b) == before.plain_ram_at(b),
        forall|b: u64| before.plain_ram_at(b) ==> #[trigger] after.read_spec(b) == read_after(before, w, b),
{
    let st = choose|st: Seq<PhysMem>| #[trigger] write_chain(st, w) && st[0] == before && st.last() == after;
    lemma_plain_chain(st, w, w.len() as int);
    assert(w.take(w.len() as int) =~= w);
}

/// No writes leave memory as it is.
pub proof fn lemma_writes_none(m: PhysMem)
    ensures
        writes_to(m, m, Seq::empty()),
{
    let st = seq![m];
    assert(write_chain(st, Seq::empty()));
}

/// Writes `w1` then writes `w2` are writes `w1 + w2`.
pub proof fn lemma_writes_concat(a: PhysMem, b: PhysMem, c: PhysMem, w1: Seq<(u64, u8)>, w2: Seq<(u64, u8)>)
    requires
        writes_to(a, b, w1),
        writes_to(b, c, w2),
    ensures
        writes_to(a, c, w1 + w2),
{
    let s1 = choose|st: Seq<PhysMem>| #[trigger] write_chain(st, w1) && st[0] == a && st.last() == b;
    let s2 = choose|st: Seq<PhysMem>| #[trigger] write_chain(st, w2) && st[0] == b && st.last() == c;
    let st = s1 + s2.drop_first();
    let w = w1 + w2;
    assert forall|i: int| 0 <= i < w.len() implies #[trigger] st[i].is_write_of(&st[i + 1], w[i].0, w[i].1) by {
        if i < w1.len() {
            assert(st[i] == s1[i] && st[i + 1] == s1[i + 1]);
            assert(s1[i].is_write_of(&s1[i + 1], w1[i].0, w1[i].1));
        } else {
            let j = i - w1.len();
            assert(st[i] == s2[j]);
            assert(st[i + 1] == s2[j + 1]);
            assert(s2[j].is_write_of(&s2[j + 1], w2[j].0, w2[j].1));
        }
    }
    assert(write_chain(st, w));
    assert(st[0] == a);
    assert(st.last() == c);
}

} // verus!
