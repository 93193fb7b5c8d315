//! Guest boot measurement triage: the first-stop class of a probe report,
//! its coarse bucket, and the next actionable gap on the FreeDOS-like and
//! Linux paths. None of these classes claims that an OS booted.
use vstd::prelude::*;

use crate::boot_media::{classify_int19_boot_image, int19_class_spec, Int19BootMediaClass};
use crate::fat12::{
    lemma_locate_found_determined, locate_freedos_kernel_on_image, locate_matches, locate_names_found,
    Fat12KernelLocate,
};
use crate::linux_boot::BzImageEarlyClass;
use crate::mbr::{MBR_SECTOR_SIZE, MBR_SIGNATURE_HI, MBR_SIGNATURE_LO};
use crate::mem::PhysMem;
use crate::text::{
    alt_hex, debug_str, debug_text, dec_digits, hex_min, push_alt_hex, push_dec, push_hex,
};
use crate::post_report::{PostFailureKind, PostReport, PostStopReason};

verus! {

/// Harness schema version of [`GuestBootMeasure`].
pub const GUEST_BOOT_MEASURE_VERSION: u32 = 2;

/// Schema version of [`GuestOsMeasure`].
pub const GUEST_OS_MEASURE_VERSION: u32 = 8;

/// BDA equipment list word (`0040:0010`).
pub const BDA_EQUIPMENT: u64 = 0x410;

/// BDA number of hard disk drives (`0040:0075`).
pub const BDA_HD_COUNT: u64 = 0x475;

/// Which host boot helper prepares the guest before measuring.
#[derive(Clone, Copy, Debug, PartialEq, Eq, Structural)]
pub enum GuestBootMedia {
    /// IDE LBA0 preferred, else floppy.
    IdePrefer,
    /// Floppy CHS `(0,0,1)` only.
    FloppyFirst,
    /// No-emulation El Torito CD boot image.
    ElTorito,
    /// Active partition VBR at `0x7C00`.
    ActiveVbr,
    /// Linux real-mode setup with the entry armed at `+0x200`.
    BzImageSetup,
}

/// Host handoff used for the FreeDOS next-gap classify.
#[derive(Clone, Copy, Debug, PartialEq, Eq, Structural, Default)]
pub enum FreedosHandoff {
    /// LBA0 / MBR sector at `0x7C00`.
    #[default]
    MbrSector,
    /// Active-partition VBR at `0x7C00`.
    ActiveVbr,
}

/// Ordered progress markers recorded during a measure.
#[derive(Clone, Copy, Debug, PartialEq, Eq, Structural)]
pub enum GuestBootCheckpoint {
    MediaLoaded,
    CsIpArmed,
    ProbeStarted,
    SerialObserved,
    VgaObserved,
    StopRecorded,
}

/// Which OS-path measure was requested.
#[derive(Clone, Copy, Debug, PartialEq, Eq, Structural)]
pub enum GuestOsMeasureKind {
    /// Synthetic FreeDOS-like MBR + payload fixture.
    FreeDosLike,
    /// Serial-path stub toward a Linux console.
    LinuxSerialPath,
}

/// Result of preparing media and measuring the first stop.
#[derive(Clone, Debug, PartialEq, Eq)]
pub struct GuestBootMeasure {
    /// Schema version ([`GUEST_BOOT_MEASURE_VERSION`]).
    pub version: u32,
    /// How the boot image was selected.
    pub media: GuestBootMedia,
    /// Checkpoints reached before and during the probe.
    pub checkpoints: Vec<GuestBootCheckpoint>,
    /// COM1 bytes captured at the stop.
    pub com1: String,
    /// Port `0x402` debug bytes captured at the stop.
    pub debug: String,
    /// Compact VGA text summary; empty when the screen is blank.
    pub vga_summary: String,
    /// The probe report.
    pub report: PostReport,
}

impl GuestBootMeasure {
    pub open spec fn spec_stop_class(&self) -> Seq<char> {
        match self.report.stop {
            PostStopReason::Halted => "halted"@,
            PostStopReason::StepBudgetExhausted => "step-budget"@,
            PostStopReason::Failure(_) => "first-failure"@,
        }
    }

    /// True when any serial or debug byte was captured.
    pub fn serial_captured(&self) -> (r: bool)
        ensures
            r == (self.com1@.len() > 0 || self.debug@.len() > 0),
    {
        !self.com1.as_str().is_empty() || !self.debug.as_str().is_empty()
    }

    /// True when the VGA text summary is not empty.
    pub fn vga_captured(&self) -> (r: bool)
        ensures
            r == (self.vga_summary@.len() > 0),
    {
        !self.vga_summary.as_str().is_empty()
    }

    /// Stop class: `halted`, `step-budget` or `first-failure`.
    pub fn stop_class(&self) -> (r: &'static str)
        ensures
            r@ == self.spec_stop_class(),
    {
        match self.report.stop {
            PostStopReason::Halted => "halted",
            PostStopReason::StepBudgetExhausted => "step-budget",
            PostStopReason::Failure(_) => "first-failure",
        }
    }
}

/// Structured first-stop / first-failure class of a measure.
#[derive(Clone, Copy, Debug, PartialEq, Eq, Structural)]
pub enum GuestFirstFailureClass {
    /// Intentional synthetic `HLT` after a banner.
    SyntheticHalt,
    /// Instruction budget exhausted before a halt or failure.
    StepBudget,
    /// Decode tables lack the primary opcode.
    UnsupportedOpcode { opcode: u8 },
    /// Encoding/form unimplemented.
    UnsupportedEncoding { opcode: u8 },
    /// Truncated fetch.
    TruncatedInstruction,
    /// Over the 15-byte limit.
    InstructionTooLong,
    /// Memory / bus fault.
    MemoryFault { addr: u64 },
    /// Architectural exception surfaced to the host.
    ArchFault { vector: u8 },
    /// Protected-mode delivery failed.
    ProtectedModeDelivery { vector: u8 },
    /// Machine-level error recorded by the probe.
    MachineError,
    /// Unclaimed I/O was the only actionable signal.
    UnclaimedIo { port: u16 },
    /// Unmapped MMIO was the only actionable signal.
    UnmappedMmio { page: u64 },
    /// The host INT 13h probe returned CF set.
    Int13Cf { ah: u8 },
}

impl GuestFirstFailureClass {
    pub open spec fn spec_tag(self) -> Seq<char> {
        match self {
            GuestFirstFailureClass::SyntheticHalt => "synthetic-halt"@,
            GuestFirstFailureClass::StepBudget => "step-budget"@,
            GuestFirstFailureClass::UnsupportedOpcode { .. } => "unsupported-opcode"@,
            GuestFirstFailureClass::UnsupportedEncoding { .. } => "unsupported-encoding"@,
            GuestFirstFailureClass::TruncatedInstruction => "truncated-instruction"@,
            GuestFirstFailureClass::InstructionTooLong => "instruction-too-long"@,
            GuestFirstFailureClass::MemoryFault { .. } => "memory-fault"@,
            GuestFirstFailureClass::ArchFault { .. } => "arch-fault"@,
            GuestFirstFailureClass::ProtectedModeDelivery { .. } => "pm-delivery"@,
            GuestFirstFailureClass::MachineError => "machine-error"@,
            GuestFirstFailureClass::UnclaimedIo { .. } => "unclaimed-io"@,
            GuestFirstFailureClass::UnmappedMmio { .. } => "unmapped-mmio"@,
            GuestFirstFailureClass::Int13Cf { .. } => "int13-cf"@,
        }
    }

    pub open spec fn spec_bucket(self) -> Seq<char> {
        match self {
            GuestFirstFailureClass::UnsupportedOpcode { .. }
            | GuestFirstFailureClass::UnsupportedEncoding { .. }
            | GuestFirstFailureClass::TruncatedInstruction
            | GuestFirstFailureClass::InstructionTooLong => "decode-ud"@,
            GuestFirstFailureClass::ArchFault { vector } => if vector == 6 {
                "decode-ud"@
            } else {
                "other"@
            },
            GuestFirstFailureClass::UnclaimedIo { .. }
            | GuestFirstFailureClass::UnmappedMmio { .. } => "device"@,
            GuestFirstFailureClass::Int13Cf { .. } => "int13-cf"@,
            GuestFirstFailureClass::StepBudget => "hang"@,
            GuestFirstFailureClass::SyntheticHalt => "halted"@,
            GuestFirstFailureClass::ProtectedModeDelivery { .. }
            | GuestFirstFailureClass::MemoryFault { .. }
            | GuestFirstFailureClass::MachineError => "other"@,
        }
    }

    pub open spec fn spec_gap_note(self) -> Seq<char> {
        match self {
            GuestFirstFailureClass::SyntheticHalt =>
                "Synthetic fixture halted after banner — not FreeDOS/Linux progress"@,
            GuestFirstFailureClass::StepBudget =>
                "Step budget exhausted before a terminal halt/failure (hang location in report)"@,
            GuestFirstFailureClass::UnsupportedOpcode { .. } =>
                "First failure: unsupported opcode (CPU decode gap)"@,
            GuestFirstFailureClass::UnsupportedEncoding { .. } =>
                "First failure: unsupported encoding (CPU form gap)"@,
            GuestFirstFailureClass::TruncatedInstruction =>
                "First failure: truncated instruction fetch"@,
            GuestFirstFailureClass::InstructionTooLong => "First failure: instruction too long"@,
            GuestFirstFailureClass::MemoryFault { .. } => "First failure: memory/bus fault"@,
            GuestFirstFailureClass::ArchFault { .. } =>
                "First failure: architectural fault (exception delivery)"@,
            GuestFirstFailureClass::ProtectedModeDelivery { .. } =>
                "First failure: protected-mode exception delivery"@,
            GuestFirstFailureClass::MachineError =>
                "First failure: machine/runtime error in probe"@,
            GuestFirstFailureClass::UnclaimedIo { .. } =>
                "First actionable signal: unclaimed I/O port (device)"@,
            GuestFirstFailureClass::UnmappedMmio { .. } =>
                "First actionable signal: unmapped MMIO page (device)"@,
            GuestFirstFailureClass::Int13Cf { .. } =>
                "Host INT 13h probe returned CF (disk service failure)"@,
        }
    }

    /// Stable triage tag.
    pub fn tag(&self) -> (r: &'static str)
        ensures
            r@ == self.spec_tag(),
    {
        match self {
            GuestFirstFailureClass::SyntheticHalt => "synthetic-halt",
            GuestFirstFailureClass::StepBudget => "step-budget",
            GuestFirstFailureClass::UnsupportedOpcode { .. } => "unsupported-opcode",
            GuestFirstFailureClass::UnsupportedEncoding { .. } => "unsupported-encoding",
            GuestFirstFailureClass::TruncatedInstruction => "truncated-instruction",
            GuestFirstFailureClass::InstructionTooLong => "instruction-too-long",
            GuestFirstFailureClass::MemoryFault { .. } => "memory-fault",
            GuestFirstFailureClass::ArchFault { .. } => "arch-fault",
            GuestFirstFailureClass::ProtectedModeDelivery { .. } => "pm-delivery",
            GuestFirstFailureClass::MachineError => "machine-error",
            GuestFirstFailureClass::UnclaimedIo { .. } => "unclaimed-io",
            GuestFirstFailureClass::UnmappedMmio { .. } => "unmapped-mmio",
            GuestFirstFailureClass::Int13Cf { .. } => "int13-cf",
        }
    }

    /// Coarse triage bucket (decode/#UD, device, INT 13h CF, hang).
    pub fn bucket(&self) -> (r: &'static str)
        ensures
            r@ == self.spec_bucket(),
    {
        match self {
            GuestFirstFailureClass::UnsupportedOpcode { .. }
            | GuestFirstFailureClass::UnsupportedEncoding { .. }
            | GuestFirstFailureClass::TruncatedInstruction
            | GuestFirstFailureClass::InstructionTooLong => "decode-ud",
            GuestFirstFailureClass::ArchFault { vector } => {
                if *vector == 6 {
                    "decode-ud"
                } else {
                    "other"
                }
            },
            GuestFirstFailureClass::UnclaimedIo { .. }
            | GuestFirstFailureClass::UnmappedMmio { .. } => "device",
            GuestFirstFailureClass::Int13Cf { .. } => "int13-cf",
            GuestFirstFailureClass::StepBudget => "hang",
            GuestFirstFailureClass::SyntheticHalt => "halted",
            GuestFirstFailureClass::ProtectedModeDelivery { .. }
            | GuestFirstFailureClass::MemoryFault { .. }
            | GuestFirstFailureClass::MachineError => "other",
        }
    }

    /// Gap sentence this class contributes to a report.
    pub fn gap_note(&self) -> (r: &'static str)
        ensures
            r@ == self.spec_gap_note(),
    {
        match self {
            GuestFirstFailureClass::SyntheticHalt =>
                "Synthetic fixture halted after banner — not FreeDOS/Linux progress",
            GuestFirstFailureClass::StepBudget =>
                "Step budget exhausted before a terminal halt/failure (hang location in report)",
            GuestFirstFailureClass::UnsupportedOpcode { .. } =>
                "First failure: unsupported opcode (CPU decode gap)",
            GuestFirstFailureClass::UnsupportedEncoding { .. } =>
                "First failure: unsupported encoding (CPU form gap)",
            GuestFirstFailureClass::TruncatedInstruction =>
                "First failure: truncated instruction fetch",
            GuestFirstFailureClass::InstructionTooLong => "First failure: instruction too long",
            GuestFirstFailureClass::MemoryFault { .. } => "First failure: memory/bus fault",
            GuestFirstFailureClass::ArchFault { .. } =>
                "First failure: architectural fault (exception delivery)",
            GuestFirstFailureClass::ProtectedModeDelivery { .. } =>
                "First failure: protected-mode exception delivery",
            GuestFirstFailureClass::MachineError =>
                "First failure: machine/runtime error in probe",
            GuestFirstFailureClass::UnclaimedIo { .. } =>
                "First actionable signal: unclaimed I/O port (device)",
            GuestFirstFailureClass::UnmappedMmio { .. } =>
                "First actionable signal: unmapped MMIO page (device)",
            GuestFirstFailureClass::Int13Cf { .. } =>
                "Host INT 13h probe returned CF (disk service failure)",
        }
    }
}

/// Snapshot of a host INT 13h register probe.
#[derive(Clone, Copy, Debug, PartialEq, Eq, Structural)]
pub struct Int13ProbeSnapshot {
    pub dl: u8,
    pub ah: u8,
    pub cf: bool,
}

impl Int13ProbeSnapshot {
    /// True when the probe returned CF set.
    pub fn failed(&self) -> (r: bool)
        ensures
            r == self.cf,
    {
        self.cf
    }
}

/// Guest stop location (`CS:EIP`).
#[derive(Clone, Copy, Debug, PartialEq, Eq, Structural)]
pub struct GuestFailureSite {
    pub cs: u16,
    pub eip: u32,
}

/// Class of a report's stop alone, before the INT 13h probe is considered.
pub open spec fn stop_class_spec(report: PostReport) -> GuestFirstFailureClass {
    match report.stop {
        PostStopReason::Halted => GuestFirstFailureClass::SyntheticHalt,
        PostStopReason::StepBudgetExhausted => {
            if report.unclaimed_ports@.len() > 0 {
                GuestFirstFailureClass::UnclaimedIo { port: report.unclaimed_ports@[0].port }
            } else if report.unmapped_mmio@.len() > 0 {
                GuestFirstFailureClass::UnmappedMmio { page: report.unmapped_mmio@[0].page }
            } else {
                GuestFirstFailureClass::StepBudget
            }
        },
        PostStopReason::Failure(f) => match f.kind {
            PostFailureKind::UnsupportedOpcode(op) => GuestFirstFailureClass::UnsupportedOpcode {
                opcode: op,
            },
            PostFailureKind::UnsupportedEncoding(op) =>
                GuestFirstFailureClass::UnsupportedEncoding { opcode: op },
            PostFailureKind::TruncatedInstruction => GuestFirstFailureClass::TruncatedInstruction,
            PostFailureKind::InstructionTooLong => GuestFirstFailureClass::InstructionTooLong,
            PostFailureKind::MemoryFault(addr) => GuestFirstFailureClass::MemoryFault { addr },
            PostFailureKind::ArchFault { vector } => GuestFirstFailureClass::ArchFault { vector },
            PostFailureKind::ProtectedModeDelivery { vector } =>
                GuestFirstFailureClass::ProtectedModeDelivery { vector },
            PostFailureKind::Machine => GuestFirstFailureClass::MachineError,
        },
    }
}

/// The first-failure class of a report: a soft stop (halt or bare budget)
/// becomes [`GuestFirstFailureClass::Int13Cf`] when the INT 13h probe set CF;
/// every other class stands.
pub open spec fn first_failure_spec(report: PostReport, probe: Option<Int13ProbeSnapshot>) -> GuestFirstFailureClass {
    let class = stop_class_spec(report);
    if (class == GuestFirstFailureClass::SyntheticHalt || class == GuestFirstFailureClass::StepBudget)
        && probe is Some && probe.unwrap().cf {
        GuestFirstFailureClass::Int13Cf { ah: probe.unwrap().ah }
    } else {
        class
    }
}

/// Classify the first stop / first failure of a measure report.
pub fn classify_guest_first_failure(report: &PostReport, int13_probe: Option<&Int13ProbeSnapshot>) -> (r: GuestFirstFailureClass)
    ensures
        r == first_failure_spec(
            *report,
            match int13_probe {
                Some(p) => Some(*p),
                None => None,
            },
        ),
{
    let class = match report.stop {
        PostStopReason::Halted => GuestFirstFailureClass::SyntheticHalt,
        PostStopReason::StepBudgetExhausted => {
            if report.unclaimed_ports.len() > 0 {
                GuestFirstFailureClass::UnclaimedIo { port: report.unclaimed_ports[0].port }
            } else if report.unmapped_mmio.len() > 0 {
                GuestFirstFailureClass::UnmappedMmio { page: report.unmapped_mmio[0].page }
            } else {
                GuestFirstFailureClass::StepBudget
            }
        },
        PostStopReason::Failure(f) => match f.kind {
            PostFailureKind::UnsupportedOpcode(op) => GuestFirstFailureClass::UnsupportedOpcode {
                opcode: op,
            },
            PostFailureKind::UnsupportedEncoding(op) =>
                GuestFirstFailureClass::UnsupportedEncoding { opcode: op },
            PostFailureKind::TruncatedInstruction => GuestFirstFailureClass::TruncatedInstruction,
            PostFailureKind::InstructionTooLong => GuestFirstFailureClass::InstructionTooLong,
            PostFailureKind::MemoryFault(addr) => GuestFirstFailureClass::MemoryFault { addr },
            PostFailureKind::ArchFault { vector } => GuestFirstFailureClass::ArchFault { vector },
            PostFailureKind::ProtectedModeDelivery { vector } =>
                GuestFirstFailureClass::ProtectedModeDelivery { vector },
            PostFailureKind::Machine => GuestFirstFailureClass::MachineError,
        },
    };
    let soft = match class {
        GuestFirstFailureClass::SyntheticHalt => true,
        GuestFirstFailureClass::StepBudget => true,
        _ => false,
    };
    if soft {
        if let Some(probe) = int13_probe {
            if probe.cf {
                return GuestFirstFailureClass::Int13Cf { ah: probe.ah };
            }
        }
    }
    class
}

/// Whether attached media would leave the POST no-media reboot loop.
#[derive(Clone, Copy, Debug, PartialEq, Eq, Structural)]
pub enum MediaBootReadiness {
    /// No usable sector attached.
    NoMedia,
    /// Media present but not an INT 19h candidate.
    AttachedNotCandidate,
    /// INT 19h-candidate HD or floppy attached.
    Int19Candidate,
}

impl MediaBootReadiness {
    pub open spec fn spec_tag(self) -> Seq<char> {
        match self {
            MediaBootReadiness::NoMedia => "no-media"@,
            MediaBootReadiness::AttachedNotCandidate => "attached-not-candidate"@,
            MediaBootReadiness::Int19Candidate => "int19-candidate"@,
        }
    }

    pub open spec fn spec_from_int19_class(class: Int19BootMediaClass) -> MediaBootReadiness {
        match class {
            Int19BootMediaClass::TooShort => MediaBootReadiness::NoMedia,
            Int19BootMediaClass::MissingSignature | Int19BootMediaClass::HdSignatureOnly =>
                MediaBootReadiness::AttachedNotCandidate,
            Int19BootMediaClass::HdActivePartition { .. }
            | Int19BootMediaClass::FloppyBootSector => MediaBootReadiness::Int19Candidate,
        }
    }

    /// Stable triage tag.
    pub fn tag(&self) -> (r: &'static str)
        ensures
            r@ == self.spec_tag(),
    {
        match self {
            MediaBootReadiness::NoMedia => "no-media",
            MediaBootReadiness::AttachedNotCandidate => "attached-not-candidate",
            MediaBootReadiness::Int19Candidate => "int19-candidate",
        }
    }

    /// Readiness of media with the given INT 19h class.
    pub fn from_int19_class(class: Int19BootMediaClass) -> (r: Self)
        ensures
            r == Self::spec_from_int19_class(class),
            (r == MediaBootReadiness::Int19Candidate) == class.spec_is_int19_candidate(),
    {
        match class {
            Int19BootMediaClass::TooShort => MediaBootReadiness::NoMedia,
            Int19BootMediaClass::MissingSignature | Int19BootMediaClass::HdSignatureOnly =>
                MediaBootReadiness::AttachedNotCandidate,
            Int19BootMediaClass::HdActivePartition { .. }
            | Int19BootMediaClass::FloppyBootSector => MediaBootReadiness::Int19Candidate,
        }
    }
}

/// Next actionable gap on the FreeDOS-like path.
#[derive(Clone, Copy, Debug, PartialEq, Eq, Structural)]
pub enum FreedosNextGap {
    /// The host INT 13h probe returned CF.
    HostInt13Cf { ah: u8 },
    /// BDA equipment / HD-count fields disagree with attached media.
    BdaDiskMismatch,
    /// IVT vector `0x13` is null.
    GuestInt13IvtMissing,
    /// INT 19h-candidate media attached; MBR-only handoff.
    MediaAttachedBeyondRebootLoop,
    /// Active-partition VBR executed and halted; no kernel found.
    ExecutedVbrMissingCommand,
    /// FAT12 root names `KERNEL.SYS` / `COMMAND.COM`; the file is not loaded.
    KernelNameLocatedMissingLoad,
    /// Fixture halted cleanly without INT 19h-candidate media.
    RealImageAndFirmware,
    /// A non-halt first failure already names the gap.
    SeeFirstFailure,
}

impl FreedosNextGap {
    pub open spec fn spec_tag(self) -> Seq<char> {
        match self {
            FreedosNextGap::HostInt13Cf { .. } => "host-int13-cf"@,
            FreedosNextGap::BdaDiskMismatch => "bda-disk-mismatch"@,
            FreedosNextGap::GuestInt13IvtMissing => "guest-int13-ivt-missing"@,
            FreedosNextGap::MediaAttachedBeyondRebootLoop => "media-attached-beyond-reboot-loop"@,
            FreedosNextGap::ExecutedVbrMissingCommand => "executed-vbr-missing-command"@,
            FreedosNextGap::KernelNameLocatedMissingLoad => "kernel-name-located-missing-load"@,
            FreedosNextGap::RealImageAndFirmware => "real-image-and-firmware"@,
            FreedosNextGap::SeeFirstFailure => "see-first-failure"@,
        }
    }

    pub open spec fn spec_host_note(self) -> Seq<char> {
        match self {
            FreedosNextGap::HostInt13Cf { .. } =>
                "Next gap: host INT 13h probe CF — disk/extensions service failure"@,
            FreedosNextGap::BdaDiskMismatch =>
                "Next gap: BDA 0040:0010/0075 mismatch vs attached media"@,
            FreedosNextGap::GuestInt13IvtMissing =>
                "Next gap: IVT INT 13h null — need SeaBIOS (or install host stub); not FreeDOS prompt"@,
            FreedosNextGap::MediaAttachedBeyondRebootLoop =>
                "Next gap: INT19-candidate media attached (past no-media reboot loop); still need SeaBIOS guest INT13 + real FreeDOS — NOT a prompt"@,
            FreedosNextGap::ExecutedVbrMissingCommand =>
                "Next gap: VBR executed (host MBR→VBR chain) then synthetic halt — missing COMMAND.COM / FreeDOS kernel; NOT a FreeDOS prompt"@,
            FreedosNextGap::KernelNameLocatedMissingLoad =>
                "Next gap: FAT12 root has KERNEL.SYS/COMMAND.COM name — missing cluster load/exec via INT13; NOT a FreeDOS prompt"@,
            FreedosNextGap::RealImageAndFirmware =>
                "Next gap: real FreeDOS image + SeaBIOS POST (fixture halt is not progress)"@,
            FreedosNextGap::SeeFirstFailure => "Next gap: see first-failure class (non-halt stop)"@,
        }
    }

    /// Stable triage tag.
    pub fn tag(&self) -> (r: &'static str)
        ensures
            r@ == self.spec_tag(),
    {
        match self {
            FreedosNextGap::HostInt13Cf { .. } => "host-int13-cf",
            FreedosNextGap::BdaDiskMismatch => "bda-disk-mismatch",
            FreedosNextGap::GuestInt13IvtMissing => "guest-int13-ivt-missing",
            FreedosNextGap::MediaAttachedBeyondRebootLoop => "media-attached-beyond-reboot-loop",
            FreedosNextGap::ExecutedVbrMissingCommand => "executed-vbr-missing-command",
            FreedosNextGap::KernelNameLocatedMissingLoad => "kernel-name-located-missing-load",
            FreedosNextGap::RealImageAndFirmware => "real-image-and-firmware",
            FreedosNextGap::SeeFirstFailure => "see-first-failure",
        }
    }

    /// Report sentence for this gap.
    pub fn host_note(&self) -> (r: &'static str)
        ensures
            r@ == self.spec_host_note(),
    {
        match self {
            FreedosNextGap::HostInt13Cf { .. } =>
                "Next gap: host INT 13h probe CF — disk/extensions service failure",
            FreedosNextGap::BdaDiskMismatch =>
                "Next gap: BDA 0040:0010/0075 mismatch vs attached media",
            FreedosNextGap::GuestInt13IvtMissing =>
                "Next gap: IVT INT 13h null — need SeaBIOS (or install host stub); not FreeDOS prompt",
            FreedosNextGap::MediaAttachedBeyondRebootLoop =>
                "Next gap: INT19-candidate media attached (past no-media reboot loop); still need SeaBIOS guest INT13 + real FreeDOS — NOT a prompt",
            FreedosNextGap::ExecutedVbrMissingCommand =>
                "Next gap: VBR executed (host MBR→VBR chain) then synthetic halt — missing COMMAND.COM / FreeDOS kernel; NOT a FreeDOS prompt",
            FreedosNextGap::KernelNameLocatedMissingLoad =>
                "Next gap: FAT12 root has KERNEL.SYS/COMMAND.COM name — missing cluster load/exec via INT13; NOT a FreeDOS prompt",
            FreedosNextGap::RealImageAndFirmware =>
                "Next gap: real FreeDOS image + SeaBIOS POST (fixture halt is not progress)",
            FreedosNextGap::SeeFirstFailure => "Next gap: see first-failure class (non-halt stop)",
        }
    }
}


/// IVT far pointer of interrupt `vector`: (offset, segment), little-endian.
pub open spec fn ivt_far_spec(mem: PhysMem, vector: u8) -> (u16, u16) {
    let base = (vector as u64 * 4) as u64;
    (
        (mem.read_spec(base) as int + 256 * (mem.read_spec((base + 1) as u64) as int)) as u16,
        (mem.read_spec((base + 2) as u64) as int + 256 * (mem.read_spec((base + 3) as u64) as int)) as u16,
    )
}

/// Read the IVT far pointer of interrupt `vector` (offset, then segment).
pub fn read_ivt_far(mem: &PhysMem, vector: u8) -> (r: (u16, u16))
    requires
        mem.wf(),
    ensures
        r == ivt_far_spec(*mem, vector),
{
    let base = (vector as u64) * 4;
    let b0 = match mem.read_u8(base) {
        Ok(b) => b,
        Err(_) => 0,
    };
    let b1 = match mem.read_u8(base + 1) {
        Ok(b) => b,
        Err(_) => 0,
    };
    let b2 = match mem.read_u8(base + 2) {
        Ok(b) => b,
        Err(_) => 0,
    };
    let b3 = match mem.read_u8(base + 3) {
        Ok(b) => b,
        Err(_) => 0,
    };
    ((b0 as u16) + (b1 as u16) * 256, (b2 as u16) + (b3 as u16) * 256)
}

/// INT 19h class of an attached floppy image: its CHS `(0,0,1)` sector must
/// carry `55 AA`.
pub open spec fn floppy_int19_spec(floppy: Option<Seq<u8>>) -> Int19BootMediaClass {
    match floppy {
        None => Int19BootMediaClass::TooShort,
        Some(img) => if img.len() < MBR_SECTOR_SIZE {
            Int19BootMediaClass::TooShort
        } else if img[510] != MBR_SIGNATURE_LO || img[511] != MBR_SIGNATURE_HI {
            Int19BootMediaClass::MissingSignature
        } else {
            Int19BootMediaClass::FloppyBootSector
        },
    }
}

/// INT 19h class of the attached media: the IDE image's class unless it is
/// absent or shorter than a sector, else the floppy's.
pub open spec fn machine_int19_spec(ide_image: Seq<u8>, floppy: Option<Seq<u8>>) -> Int19BootMediaClass {
    let ide = int19_class_spec(ide_image);
    if ide != Int19BootMediaClass::TooShort {
        ide
    } else {
        floppy_int19_spec(floppy)
    }
}

/// View of an optional byte slice.
pub open spec fn opt_view(o: Option<&[u8]>) -> Option<Seq<u8>> {
    match o {
        Some(s) => Some(s@),
        None => None,
    }
}

/// Classify attached media for INT 19h: IDE first (an empty slice means no
/// IDE disk), else the floppy image.
pub fn classify_machine_int19_media(ide_image: &[u8], floppy_image: Option<&[u8]>) -> (r: Int19BootMediaClass)
    ensures
        r == machine_int19_spec(ide_image@, opt_view(floppy_image)),
{
    let ide = classify_int19_boot_image(ide_image);
    if ide.is_int19_candidate() || !matches!(ide, Int19BootMediaClass::TooShort) {
        return ide;
    }
    match floppy_image {
        None => Int19BootMediaClass::TooShort,
        Some(img) => {
            if img.len() < MBR_SECTOR_SIZE {
                Int19BootMediaClass::TooShort
            } else if img[510] != MBR_SIGNATURE_LO || img[511] != MBR_SIGNATURE_HI {
                Int19BootMediaClass::MissingSignature
            } else {
                Int19BootMediaClass::FloppyBootSector
            }
        },
    }
}

/// Locate the FreeDOS kernel names on the attached IDE disk (an empty slice
/// means no disk).
pub fn locate_freedos_kernel_on_machine(ide_image: &[u8]) -> (r: Fat12KernelLocate)
    ensures
        locate_matches(ide_image@, r),
        ide_image@.len() == 0 ==> r == Fat12KernelLocate::NoMedia,
{
    if ide_image.len() == 0 {
        proof {
            assert(int19_class_spec(ide_image@) == Int19BootMediaClass::TooShort);
        }
        return Fat12KernelLocate::NoMedia;
    }
    locate_freedos_kernel_on_image(ide_image)
}

/// The FreeDOS next gap: a non-halt first failure names itself; then a CF
/// probe, a BDA disk field that disagrees with the media, a null INT 13h
/// vector, INT 19h-candidate media (split by handoff and, for the VBR chain,
/// by whether the kernel name was found), else a real image is needed.
pub open spec fn freedos_next_gap_spec(
    mem: PhysMem,
    ide_image: Seq<u8>,
    floppy: Option<Seq<u8>>,
    equipment_byte: u8,
    first_failure: GuestFirstFailureClass,
    probe: Int13ProbeSnapshot,
    handoff: FreedosHandoff,
    kernel_name_found: bool,
) -> FreedosNextGap {
    let expect_hd: u8 = if ide_image.len() > 0 { 1 } else { 0 };
    if first_failure != GuestFirstFailureClass::SyntheticHalt {
        FreedosNextGap::SeeFirstFailure
    } else if probe.cf {
        FreedosNextGap::HostInt13Cf { ah: probe.ah }
    } else if mem.read_spec(BDA_HD_COUNT) != expect_hd || mem.read_spec(BDA_EQUIPMENT)
        != equipment_byte {
        FreedosNextGap::BdaDiskMismatch
    } else if ivt_far_spec(mem, 0x13) == (0u16, 0u16) {
        FreedosNextGap::GuestInt13IvtMissing
    } else if machine_int19_spec(ide_image, floppy).spec_is_int19_candidate() {
        match handoff {
            FreedosHandoff::ActiveVbr => if kernel_name_found {
                FreedosNextGap::KernelNameLocatedMissingLoad
            } else {
                FreedosNextGap::ExecutedVbrMissingCommand
            },
            FreedosHandoff::MbrSector => FreedosNextGap::MediaAttachedBeyondRebootLoop,
        }
    } else {
        FreedosNextGap::RealImageAndFirmware
    }
}

/// Classify the next FreeDOS-path gap after a measure with an MBR handoff.
/// `mem` is guest memory, `ide_image` the attached IDE disk (empty when
/// none), `floppy_image` the attached floppy, `equipment_byte` the machine's
/// equipment byte.
pub fn classify_freedos_next_gap(
    mem: &PhysMem,
    ide_image: &[u8],
    floppy_image: Option<&[u8]>,
    equipment_byte: u8,
    first_failure: &GuestFirstFailureClass,
    int13_probe: &Int13ProbeSnapshot,
) -> (r: FreedosNextGap)
    requires
        mem.wf(),
    ensures
        r == freedos_next_gap_spec(
            *mem,
            ide_image@,
            opt_view(floppy_image),
            equipment_byte,
            *first_failure,
            *int13_probe,
            FreedosHandoff::MbrSector,
            false,
        ),
{
    classify_freedos_next_gap_with_handoff(
        mem,
        ide_image,
        floppy_image,
        equipment_byte,
        first_failure,
        int13_probe,
        FreedosHandoff::MbrSector,
    )
}

/// Classify the next FreeDOS-path gap, distinguishing the MBR-only and the
/// VBR-chain handoff.
pub fn classify_freedos_next_gap_with_handoff(
    mem: &PhysMem,
    ide_image: &[u8],
    floppy_image: Option<&[u8]>,
    equipment_byte: u8,
    first_failure: &GuestFirstFailureClass,
    int13_probe: &Int13ProbeSnapshot,
    handoff: FreedosHandoff,
) -> (r: FreedosNextGap)
    requires
        mem.wf(),
    ensures
        r == freedos_next_gap_spec(
            *mem,
            ide_image@,
            opt_view(floppy_image),
            equipment_byte,
            *first_failure,
            *int13_probe,
            handoff,
            locate_names_found(ide_image@),
        ),
{
    let loc = locate_freedos_kernel_on_machine(ide_image);
    let found = loc.name_found();
    proof {
        lemma_locate_found_determined(ide_image@, loc);
    }
    let ghost spec = freedos_next_gap_spec(
        *mem,
        ide_image@,
        opt_view(floppy_image),
        equipment_byte,
        *first_failure,
        *int13_probe,
        handoff,
        found,
    );
    let r = if !matches!(first_failure, GuestFirstFailureClass::SyntheticHalt) {
        FreedosNextGap::SeeFirstFailure
    } else if int13_probe.failed() {
        FreedosNextGap::HostInt13Cf { ah: int13_probe.ah }
    } else {
        let expect_hd: u8 = if ide_image.len() > 0 {
            1
        } else {
            0
        };
        let bda_hd = match mem.read_u8(BDA_HD_COUNT) {
            Ok(b) => b,
            Err(_) => 0xFF,
        };
        let bda_equip = match mem.read_u8(BDA_EQUIPMENT) {
            Ok(b) => b,
            Err(_) => 0xFF,
        };
        if bda_hd != expect_hd || bda_equip != equipment_byte {
            FreedosNextGap::BdaDiskMismatch
        } else {
            let (off, seg) = read_ivt_far(mem, 0x13);
            if off == 0 && seg == 0 {
                FreedosNextGap::GuestInt13IvtMissing
            } else if classify_machine_int19_media(ide_image, floppy_image).is_int19_candidate() {
                match handoff {
                    FreedosHandoff::ActiveVbr => {
                        if found {
                            FreedosNextGap::KernelNameLocatedMissingLoad
                        } else {
                            FreedosNextGap::ExecutedVbrMissingCommand
                        }
                    },
                    FreedosHandoff::MbrSector => FreedosNextGap::MediaAttachedBeyondRebootLoop,
                }
            } else {
                FreedosNextGap::RealImageAndFirmware
            }
        }
    };
    assert(r == spec);
    r
}


/// Checkpoints of a measure whose probe ran: media loaded, entry armed,
/// probe started, then serial and VGA when observed, then the stop.
pub open spec fn checkpoints_spec(serial: bool, vga: bool) -> Seq<GuestBootCheckpoint> {
    seq![
        GuestBootCheckpoint::MediaLoaded,
        GuestBootCheckpoint::CsIpArmed,
        GuestBootCheckpoint::ProbeStarted,
    ] + (if serial {
        seq![GuestBootCheckpoint::SerialObserved]
    } else {
        Seq::empty()
    }) + (if vga {
        seq![GuestBootCheckpoint::VgaObserved]
    } else {
        Seq::empty()
    }) + seq![GuestBootCheckpoint::StopRecorded]
}

/// Assemble the measure of a probe run on prepared `media`: the serial text
/// of the report, the VGA summary, and the checkpoints they imply.
pub fn measure_from_report(media: GuestBootMedia, report: PostReport, vga_summary: String) -> (r: GuestBootMeasure)
    ensures
        r.version == GUEST_BOOT_MEASURE_VERSION,
        r.media == media,
        r.com1 == report.com1,
        r.debug == report.debug,
        r.vga_summary == vga_summary,
        r.report == report,
        r.checkpoints@ == checkpoints_spec(
            report.com1@.len() > 0 || report.debug@.len() > 0,
            vga_summary@.len() > 0,
        ),
{
    let mut checkpoints: Vec<GuestBootCheckpoint> = Vec::new();
    checkpoints.push(GuestBootCheckpoint::MediaLoaded);
    checkpoints.push(GuestBootCheckpoint::CsIpArmed);
    checkpoints.push(GuestBootCheckpoint::ProbeStarted);
    let com1 = report.com1.clone();
    let debug = report.debug.clone();
    let serial = !com1.as_str().is_empty() || !debug.as_str().is_empty();
    if serial {
        checkpoints.push(GuestBootCheckpoint::SerialObserved);
    }
    let vga = !vga_summary.as_str().is_empty();
    if vga {
        checkpoints.push(GuestBootCheckpoint::VgaObserved);
    }
    checkpoints.push(GuestBootCheckpoint::StopRecorded);
    assert(checkpoints@ =~= checkpoints_spec(serial, vga));
    GuestBootMeasure {
        version: GUEST_BOOT_MEASURE_VERSION,
        media,
        checkpoints,
        com1,
        debug,
        vga_summary,
        report,
    }
}

/// OS-path measure: a probe measure plus its first-failure class, next gap,
/// media readiness and the report's gap / note sentences.
#[derive(Clone, Debug, PartialEq, Eq)]
pub struct GuestOsMeasure {
    /// Schema version ([`GUEST_OS_MEASURE_VERSION`]).
    pub version: u32,
    /// Path kind.
    pub kind: GuestOsMeasureKind,
    /// Underlying probe measure.
    pub measure: GuestBootMeasure,
    /// First-stop / first-failure class.
    pub first_failure: GuestFirstFailureClass,
    /// Coarse bucket of `first_failure`.
    pub failure_bucket: &'static str,
    /// Stop location.
    pub failure_site: GuestFailureSite,
    /// Host INT 13h probe after the guest stop.
    pub int13_probe: Int13ProbeSnapshot,
    /// FreeDOS-path next gap.
    pub next_gap: FreedosNextGap,
    /// Whether the attached media is an INT 19h candidate.
    pub media_readiness: MediaBootReadiness,
    /// Non-claim sentence for reports.
    pub honesty: &'static str,
    /// Remaining gaps, ending with the first-failure note.
    pub gaps: Vec<&'static str>,
    /// Host notes.
    pub host_notes: Vec<&'static str>,
}

/// Texts of a list of static strings.
pub open spec fn texts(v: Seq<&'static str>) -> Seq<Seq<char>> {
    v.map_values(|s: &'static str| s@)
}

/// The next gap of an OS measure: the FreeDOS classify on the FreeDOS-like
/// path; on the Linux path, by first failure and media readiness alone.
pub open spec fn os_next_gap_spec(kind: GuestOsMeasureKind, first_failure: GuestFirstFailureClass, readiness: MediaBootReadiness, freedos_gap: FreedosNextGap) -> FreedosNextGap {
    if kind == GuestOsMeasureKind::FreeDosLike {
        freedos_gap
    } else if first_failure == GuestFirstFailureClass::SyntheticHalt {
        if readiness == MediaBootReadiness::Int19Candidate {
            FreedosNextGap::MediaAttachedBeyondRebootLoop
        } else {
            FreedosNextGap::RealImageAndFirmware
        }
    } else {
        FreedosNextGap::SeeFirstFailure
    }
}

/// Host notes an OS measure appends after the caller's.
pub open spec fn os_extra_notes_spec(kind: GuestOsMeasureKind, first_failure: GuestFirstFailureClass, next_gap: FreedosNextGap) -> Seq<Seq<char>> {
    if first_failure == GuestFirstFailureClass::SyntheticHalt {
        seq!["Synthetic-halt reached — next gap is real guest image / firmware POST, not fixture polish"@]
            + if kind == GuestOsMeasureKind::FreeDosLike {
            seq![
                "BDA 0040:0010/0075 seeded from host media; still not SeaBIOS equipment init"@,
                next_gap.spec_host_note(),
            ]
        } else {
            seq![
                "Use classify_bzimage_early / classify_bzimage_setup_deeper / classify_linux_media_boot / load_bzimage_realmode_setup on a host bzImage; no kernel exec here"@,
            ]
        }
    } else if kind == GuestOsMeasureKind::FreeDosLike {
        seq![next_gap.spec_host_note()]
    } else {
        Seq::empty()
    }
}

/// Finish an OS-path measure from the probe measure and the host INT 13h
/// probe taken after the stop: classify the first failure, its bucket and
/// site, the media readiness, the next gap (FreeDOS classify with `handoff`
/// on the FreeDOS-like path), and append the gap and host notes.
pub fn finish_os_measure(
    kind: GuestOsMeasureKind,
    measure: GuestBootMeasure,
    honesty: &'static str,
    gaps: Vec<&'static str>,
    host_notes: Vec<&'static str>,
    handoff: FreedosHandoff,
    int13_probe: Int13ProbeSnapshot,
    mem: &PhysMem,
    ide_image: &[u8],
    floppy_image: Option<&[u8]>,
    equipment_byte: u8,
) -> (r: GuestOsMeasure)
    requires
        mem.wf(),
    ensures
        r.version == GUEST_OS_MEASURE_VERSION,
        r.kind == kind,
        r.measure == measure,
        r.honesty == honesty,
        r.int13_probe == int13_probe,
        r.first_failure == first_failure_spec(measure.report, Some(int13_probe)),
        r.failure_bucket@ == r.first_failure.spec_bucket(),
        r.failure_site == (GuestFailureSite {
            cs: measure.report.stop_site.cs,
            eip: measure.report.stop_site.eip,
        }),
        r.media_readiness == MediaBootReadiness::spec_from_int19_class(
            machine_int19_spec(ide_image@, opt_view(floppy_image)),
        ),
        r.next_gap == os_next_gap_spec(
            kind,
            r.first_failure,
            r.media_readiness,
            freedos_next_gap_spec(
                *mem,
                ide_image@,
                opt_view(floppy_image),
                equipment_byte,
                r.first_failure,
                int13_probe,
                handoff,
                locate_names_found(ide_image@),
            ),
        ),
        texts(r.gaps@) == texts(gaps@).push(r.first_failure.spec_gap_note()),
        texts(r.host_notes@) == texts(host_notes@) + os_extra_notes_spec(
            kind,
            r.first_failure,
            r.next_gap,
        ),
{
    let mut gaps = gaps;
    let mut host_notes = host_notes;
    let ghost gaps0 = gaps@;
    let ghost notes0 = host_notes@;
    let first_failure = classify_guest_first_failure(&measure.report, Some(&int13_probe));
    let failure_bucket = first_failure.bucket();
    let failure_site = GuestFailureSite {
        cs: measure.report.stop_site.cs,
        eip: measure.report.stop_site.eip,
    };
    let note = first_failure.gap_note();
    gaps.push(note);
    assert(texts(gaps@) =~= texts(gaps0).push(first_failure.spec_gap_note()));
    let media_readiness = MediaBootReadiness::from_int19_class(
        classify_machine_int19_media(ide_image, floppy_image),
    );
    let freedos_gap = classify_freedos_next_gap_with_handoff(
        mem,
        ide_image,
        floppy_image,
        equipment_byte,
        &first_failure,
        &int13_probe,
        handoff,
    );
    let halted = matches!(first_failure, GuestFirstFailureClass::SyntheticHalt);
    let freedos = matches!(kind, GuestOsMeasureKind::FreeDosLike);
    let next_gap = if freedos {
        freedos_gap
    } else if halted {
        if matches!(media_readiness, MediaBootReadiness::Int19Candidate) {
            FreedosNextGap::MediaAttachedBeyondRebootLoop
        } else {
            FreedosNextGap::RealImageAndFirmware
        }
    } else {
        FreedosNextGap::SeeFirstFailure
    };
    if halted {
        host_notes.push(
            "Synthetic-halt reached — next gap is real guest image / firmware POST, not fixture polish",
        );
        if freedos {
            host_notes.push(
                "BDA 0040:0010/0075 seeded from host media; still not SeaBIOS equipment init",
            );
            host_notes.push(next_gap.host_note());
        } else {
            host_notes.push(
                "Use classify_bzimage_early / classify_bzimage_setup_deeper / classify_linux_media_boot / load_bzimage_realmode_setup on a host bzImage; no kernel exec here",
            );
        }
    } else if freedos {
        host_notes.push(next_gap.host_note());
    }
    assert(texts(host_notes@) =~= texts(notes0) + os_extra_notes_spec(kind, first_failure, next_gap));
    GuestOsMeasure {
        version: GUEST_OS_MEASURE_VERSION,
        kind,
        measure,
        first_failure,
        failure_bucket,
        failure_site,
        int13_probe,
        next_gap,
        media_readiness,
        honesty,
        gaps,
        host_notes,
    }
}


impl GuestFirstFailureClass {
    /// The displayed class: the tag, with the opcode, address, vector, port,
    /// page or `AH` status the class carries.
    pub open spec fn spec_display(self) -> Seq<char> {
        match self {
            GuestFirstFailureClass::UnsupportedOpcode { opcode } => "unsupported-opcode:0x"@ + hex_min(
                opcode as nat,
                2,
            ),
            GuestFirstFailureClass::UnsupportedEncoding { opcode } => "unsupported-encoding:0x"@ + hex_min(
                opcode as nat,
                2,
            ),
            GuestFirstFailureClass::MemoryFault { addr } => "memory-fault:"@ + alt_hex(addr as nat, 0),
            GuestFirstFailureClass::ArchFault { vector } => "arch-fault:vec="@ + dec_digits(vector as nat),
            GuestFirstFailureClass::ProtectedModeDelivery { vector } => "pm-delivery:vec="@ + dec_digits(
                vector as nat,
            ),
            GuestFirstFailureClass::UnclaimedIo { port } => "unclaimed-io:0x"@ + hex_min(port as nat, 4),
            GuestFirstFailureClass::UnmappedMmio { page } => "unmapped-mmio:"@ + alt_hex(page as nat, 0),
            GuestFirstFailureClass::Int13Cf { ah } => "int13-cf:AH="@ + hex_min(ah as nat, 2),
            _ => self.spec_tag(),
        }
    }

    /// Render the class as [`Self::spec_display`] describes.
    pub fn to_string(&self) -> (r: String)
        ensures
            r@ == self.spec_display(),
    {
        match self {
            GuestFirstFailureClass::UnsupportedOpcode { opcode } => {
                let mut s = String::from_str("unsupported-opcode:0x");
                push_hex(&mut s, *opcode as u64, 2);
                s
            },
            GuestFirstFailureClass::UnsupportedEncoding { opcode } => {
                let mut s = String::from_str("unsupported-encoding:0x");
                push_hex(&mut s, *opcode as u64, 2);
                s
            },
            GuestFirstFailureClass::MemoryFault { addr } => {
                let mut s = String::from_str("memory-fault:");
                push_alt_hex(&mut s, *addr, 0);
                s
            },
            GuestFirstFailureClass::ArchFault { vector } => {
                let mut s = String::from_str("arch-fault:vec=");
                push_dec(&mut s, *vector as u64);
                s
            },
            GuestFirstFailureClass::ProtectedModeDelivery { vector } => {
                let mut s = String::from_str("pm-delivery:vec=");
                push_dec(&mut s, *vector as u64);
                s
            },
            GuestFirstFailureClass::UnclaimedIo { port } => {
                let mut s = String::from_str("unclaimed-io:0x");
                push_hex(&mut s, *port as u64, 4);
                s
            },
            GuestFirstFailureClass::UnmappedMmio { page } => {
                let mut s = String::from_str("unmapped-mmio:");
                push_alt_hex(&mut s, *page, 0);
                s
            },
            GuestFirstFailureClass::Int13Cf { ah } => {
                let mut s = String::from_str("int13-cf:AH=");
                push_hex(&mut s, *ah as u64, 2);
                s
            },
            _ => String::from_str(self.tag()),
        }
    }
}

impl GuestFailureSite {
    /// `CCCC:EEEEEEEE`: upper-case hexadecimal `CS` and `EIP`.
    pub open spec fn spec_display(self) -> Seq<char> {
        hex_min(self.cs as nat, 4) + ":"@ + hex_min(self.eip as nat, 8)
    }

    /// Render the site as [`Self::spec_display`] describes.
    pub fn to_string(&self) -> (r: String)
        ensures
            r@ == self.spec_display(),
    {
        let mut s = String::new();
        push_hex(&mut s, self.cs as u64, 4);
        s.append(":");
        push_hex(&mut s, self.eip as u64, 8);
        proof {
            assert(s@ =~= self.spec_display());
        }
        s
    }
}


impl GuestBootMedia {
    /// Report name of the media policy.
    pub open spec fn spec_name(self) -> Seq<char> {
        match self {
            GuestBootMedia::IdePrefer => "ide-prefer"@,
            GuestBootMedia::FloppyFirst => "floppy-first"@,
            GuestBootMedia::ElTorito => "eltorito"@,
            GuestBootMedia::ActiveVbr => "active-vbr"@,
            GuestBootMedia::BzImageSetup => "bzimage-setup"@,
        }
    }

    /// Report name of the media policy.
    pub fn name(&self) -> (r: &'static str)
        ensures
            r@ == self.spec_name(),
    {
        match self {
            GuestBootMedia::IdePrefer => "ide-prefer",
            GuestBootMedia::FloppyFirst => "floppy-first",
            GuestBootMedia::ElTorito => "eltorito",
            GuestBootMedia::ActiveVbr => "active-vbr",
            GuestBootMedia::BzImageSetup => "bzimage-setup",
        }
    }
}

impl GuestBootCheckpoint {
    /// Report name of the checkpoint.
    pub open spec fn spec_name(self) -> Seq<char> {
        match self {
            GuestBootCheckpoint::MediaLoaded => "media-loaded"@,
            GuestBootCheckpoint::CsIpArmed => "cs-ip-armed"@,
            GuestBootCheckpoint::ProbeStarted => "probe-started"@,
            GuestBootCheckpoint::SerialObserved => "serial-observed"@,
            GuestBootCheckpoint::VgaObserved => "vga-observed"@,
            GuestBootCheckpoint::StopRecorded => "stop-recorded"@,
        }
    }

    /// Report name of the checkpoint.
    pub fn name(&self) -> (r: &'static str)
        ensures
            r@ == self.spec_name(),
    {
        match self {
            GuestBootCheckpoint::MediaLoaded => "media-loaded",
            GuestBootCheckpoint::CsIpArmed => "cs-ip-armed",
            GuestBootCheckpoint::ProbeStarted => "probe-started",
            GuestBootCheckpoint::SerialObserved => "serial-observed",
            GuestBootCheckpoint::VgaObserved => "vga-observed",
            GuestBootCheckpoint::StopRecorded => "stop-recorded",
        }
    }
}

/// `items` joined by `sep`.
pub open spec fn join_with(items: Seq<Seq<char>>, sep: Seq<char>) -> Seq<char>
    decreases items.len(),
{
    if items.len() == 0 {
        Seq::empty()
    } else if items.len() == 1 {
        items[0]
    } else {
        join_with(items.drop_last(), sep) + sep + items.last()
    }
}

/// The checkpoint names.
pub open spec fn checkpoint_names(cps: Seq<GuestBootCheckpoint>) -> Seq<Seq<char>> {
    cps.map_values(|c: GuestBootCheckpoint| c.spec_name())
}

/// The text of a boot measure, ending with `report_text` (the rendering of
/// its probe report):
/// a header line with the version, media and stop class, the checkpoints,
/// the serial captures in `Debug` quoting, and the VGA summary when there is
/// one.
pub open spec fn boot_measure_text(m: GuestBootMeasure, report_text: Seq<char>) -> Seq<char> {
    "guest-measure-v"@ + dec_digits(m.version as nat) + ": media="@ + m.media.spec_name() + " stop-class="@
        + m.spec_stop_class() + " (measure-first; not a boot-success claim)\n"@ + "  checkpoints=["@
        + join_with(checkpoint_names(m.checkpoints@), ", "@) + "]\n"@ + "  serial: com1="@ + debug_text(
        m.com1@,
    ) + " debug="@ + debug_text(m.debug@) + "\n"@ + (if m.vga_summary@.len() > 0 {
        "  vga: "@ + m.vga_summary@ + "\n"@
    } else {
        Seq::empty()
    }) + report_text
}

impl GuestBootMeasure {
    /// Render the measure as [`boot_measure_text`] describes, with
    /// `report_text` the rendering of its probe report.
    pub fn render(&self, report_text: &str) -> (r: String)
        ensures
            r@ == boot_measure_text(*self, report_text@),
    {
        let mut s = String::from_str("guest-measure-v");
        push_dec(&mut s, self.version as u64);
        s.append(": media=");
        s.append(self.media.name());
        s.append(" stop-class=");
        s.append(self.stop_class());
        s.append(" (measure-first; not a boot-success claim)\n");
        s.append("  checkpoints=[");
        let ghost head = s@;
        let mut i: usize = 0;
        while i < self.checkpoints.len()
            invariant
                i <= self.checkpoints@.len(),
                s@ == head + join_with(checkpoint_names(self.checkpoints@.take(i as int)), ", "@),
            decreases self.checkpoints@.len() - i,
        {
            let ghost before = s@;
            if i != 0 {
                s.append(", ");
            }
            s.append(self.checkpoints[i].name());
            proof {
                let names = checkpoint_names(self.checkpoints@.take(i + 1));
                assert(names.drop_last() =~= checkpoint_names(self.checkpoints@.take(i as int)));
                assert(names.last() == self.checkpoints@[i as int].spec_name());
                if i == 0 {
                    assert(s@ =~= head + join_with(names, ", "@));
                } else {
                    assert(s@ =~= head + join_with(names, ", "@));
                }
            }
            i = i + 1;
        }
        assert(self.checkpoints@.take(self.checkpoints@.len() as int) =~= self.checkpoints@);
        s.append("]\n");
        s.append("  serial: com1=");
        let c = debug_str(self.com1.as_str());
        s.append(c.as_str());
        s.append(" debug=");
        let d = debug_str(self.debug.as_str());
        s.append(d.as_str());
        s.append("\n");
        if !self.vga_summary.as_str().is_empty() {
            s.append("  vga: ");
            s.append(self.vga_summary.as_str());
            s.append("\n");
        }
        s.append(report_text);
        proof {
            assert(s@ =~= boot_measure_text(*self, report_text@));
        }
        s
    }
}


impl GuestOsMeasureKind {
    /// Report name of the path kind.
    pub open spec fn spec_name(self) -> Seq<char> {
        match self {
            GuestOsMeasureKind::FreeDosLike => "freedos-like"@,
            GuestOsMeasureKind::LinuxSerialPath => "linux-serial-path"@,
        }
    }

    /// Report name of the path kind.
    pub fn name(&self) -> (r: &'static str)
        ensures
            r@ == self.spec_name(),
    {
        match self {
            GuestOsMeasureKind::FreeDosLike => "freedos-like",
            GuestOsMeasureKind::LinuxSerialPath => "linux-serial-path",
        }
    }
}

/// Append `items` joined by `; `.
fn push_joined(s: &mut String, items: &Vec<&'static str>)
    ensures
        final(s)@ == old(s)@ + join_with(texts(items@), "; "@),
{
    let mut i: usize = 0;
    while i < items.len()
        invariant
            i <= items@.len(),
            s@ == old(s)@ + join_with(texts(items@.take(i as int)), "; "@),
        decreases items@.len() - i,
    {
        if i != 0 {
            s.append("; ");
        }
        s.append(items[i]);
        proof {
            let t = texts(items@.take(i + 1));
            assert(t.drop_last() =~= texts(items@.take(i as int)));
            assert(t.last() == items@[i as int]@);
            assert(s@ =~= old(s)@ + join_with(t, "; "@));
        }
        i = i + 1;
    }
    assert(items@.take(items@.len() as int) =~= items@);
}

/// The text of an OS-path measure, ending with its boot measure's text
/// (whose probe report renders as `report_text`): the header with kind,
/// first failure, bucket, site, next gap and media readiness; the honesty
/// sentence; the INT 13h probe (`DL`, `AH` in hexadecimal, `CF` as 0/1);
/// the gaps; and the host notes when there are any.
pub open spec fn os_measure_text(m: GuestOsMeasure, report_text: Seq<char>) -> Seq<char> {
    "guest-os-measure-v"@ + dec_digits(m.version as nat) + ": kind="@ + m.kind.spec_name()
        + " first-failure="@ + m.first_failure.spec_display() + " bucket="@ + m.failure_bucket@ + " site="@
        + m.failure_site.spec_display() + " next-gap="@ + m.next_gap.spec_tag() + " media="@
        + m.media_readiness.spec_tag() + " (NOT an OS boot / NOT Milestone 2 exit)\n"@ + "  honesty: "@
        + m.honesty@ + "\n"@ + "  int13-probe: DL="@ + hex_min(m.int13_probe.dl as nat, 2) + "h AH="@
        + hex_min(m.int13_probe.ah as nat, 2) + "h CF="@ + (if m.int13_probe.cf {
        "1"@
    } else {
        "0"@
    }) + "\n"@ + "  gaps=["@ + join_with(texts(m.gaps@), "; "@) + "]\n"@ + (if m.host_notes@.len() > 0 {
        "  host-notes=["@ + join_with(texts(m.host_notes@), "; "@) + "]\n"@
    } else {
        Seq::empty()
    }) + boot_measure_text(m.measure, report_text)
}

impl GuestOsMeasure {
    /// Render the measure as [`os_measure_text`] describes, with
    /// `report_text` the rendering of the probe report.
    pub fn render(&self, report_text: &str) -> (r: String)
        ensures
            r@ == os_measure_text(*self, report_text@),
    {
        let mut s = String::from_str("guest-os-measure-v");
        push_dec(&mut s, self.version as u64);
        s.append(": kind=");
        s.append(self.kind.name());
        s.append(" first-failure=");
        let ff = self.first_failure.to_string();
        s.append(ff.as_str());
        s.append(" bucket=");
        s.append(self.failure_bucket);
        s.append(" site=");
        let site = self.failure_site.to_string();
        s.append(site.as_str());
        s.append(" next-gap=");
        s.append(self.next_gap.tag());
        s.append(" media=");
        s.append(self.media_readiness.tag());
        s.append(" (NOT an OS boot / NOT Milestone 2 exit)\n");
        s.append("  honesty: ");
        s.append(self.honesty);
        s.append("\n");
        s.append("  int13-probe: DL=");
        push_hex(&mut s, self.int13_probe.dl as u64, 2);
        s.append("h AH=");
        push_hex(&mut s, self.int13_probe.ah as u64, 2);
        s.append("h CF=");
        s.append(if self.int13_probe.cf {
            "1"
        } else {
            "0"
        });
        s.append("\n");
        s.append("  gaps=[");
        push_joined(&mut s, &self.gaps);
        s.append("]\n");
        if self.host_notes.len() > 0 {
            s.append("  host-notes=[");
            push_joined(&mut s, &self.host_notes);
            s.append("]\n");
        }
        let tail = self.measure.render(report_text);
        s.append(tail.as_str());
        proof {
            assert(s@ =~= os_measure_text(*self, report_text@));
        }
        s
    }
}

} // verus!
