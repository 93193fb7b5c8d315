//! What a POST probe run reports: the stop reason, the first unclaimed port
//! and unmapped MMIO accesses, the stop site and the serial text captured,
//! plus the trace and spin-window settings the probe is armed with.
use vstd::prelude::*;

verus! {

/// Default capacity of the bounded POST event trace.
pub const DEFAULT_POST_TRACE_CAPACITY: usize = 256;

/// Default trailing program-counter window for the POST spin summary.
pub const DEFAULT_POST_SPIN_WINDOW: usize = 64;

/// Bounded POST event trace settings.
#[derive(Clone, Copy, Debug, PartialEq, Eq, Structural)]
pub struct PostTraceConfig {
    pub capacity: usize,
}

impl PostTraceConfig {
    /// A trace that keeps the last `capacity` events.
    pub fn with_capacity(capacity: usize) -> (r: Self)
        ensures
            r.capacity == capacity,
    {
        PostTraceConfig { capacity }
    }
}

/// Trailing program-counter window for the spin summary.
#[derive(Clone, Copy, Debug, PartialEq, Eq, Structural)]
pub struct PostSpinConfig {
    pub window: usize,
}

impl PostSpinConfig {
    /// A spin summary over the last `window` program counters.
    pub fn with_window(window: usize) -> (r: Self)
        ensures
            r.window == window,
    {
        PostSpinConfig { window }
    }
}

impl Default for PostSpinConfig {
    fn default() -> (r: Self)
        ensures
            r.window == DEFAULT_POST_SPIN_WINDOW,
    {
        PostSpinConfig { window: DEFAULT_POST_SPIN_WINDOW }
    }
}

/// Why the first failing instruction stopped the probe.
#[derive(Clone, Copy, Debug, PartialEq, Eq, Structural)]
pub enum PostFailureKind {
    /// Decode tables lack the primary opcode.
    UnsupportedOpcode(u8),
    /// The encoding/form is unimplemented.
    UnsupportedEncoding(u8),
    /// Instruction fetch ran past the mapped bytes.
    TruncatedInstruction,
    /// Over the 15-byte instruction limit.
    InstructionTooLong,
    /// Memory / bus fault at an address.
    MemoryFault(u64),
    /// Architectural exception surfaced to the host.
    ArchFault { vector: u8 },
    /// Protected-mode exception delivery failed.
    ProtectedModeDelivery { vector: u8 },
    /// Machine-level setup/runtime error.
    Machine,
}

/// The first failure of a probe run.
#[derive(Clone, Copy, Debug, PartialEq, Eq, Structural)]
pub struct PostFailure {
    pub kind: PostFailureKind,
}

/// Terminal stop of a probe run.
#[derive(Clone, Copy, Debug, PartialEq, Eq, Structural)]
pub enum PostStopReason {
    /// The guest executed `HLT`.
    Halted,
    /// The step budget ran out.
    StepBudgetExhausted,
    /// An instruction failed.
    Failure(PostFailure),
}

/// An I/O port access no device claimed.
#[derive(Clone, Copy, Debug, PartialEq, Eq, Structural)]
pub struct UnclaimedPortAccess {
    pub port: u16,
}

/// An access to an MMIO page nothing maps.
#[derive(Clone, Copy, Debug, PartialEq, Eq, Structural)]
pub struct UnmappedMmioAccess {
    pub page: u64,
}

/// Guest `CS:EIP` at the stop.
#[derive(Clone, Copy, Debug, PartialEq, Eq, Structural)]
pub struct PostStopSite {
    pub cs: u16,
    pub eip: u32,
}

/// A probe run's report.
#[derive(Clone, Debug, PartialEq, Eq)]
pub struct PostReport {
    /// Terminal stop reason.
    pub stop: PostStopReason,
    /// Instructions executed.
    pub steps: u64,
    /// Unclaimed port accesses, first first.
    pub unclaimed_ports: Vec<UnclaimedPortAccess>,
    /// Unmapped MMIO accesses, first first.
    pub unmapped_mmio: Vec<UnmappedMmioAccess>,
    /// Where the guest stopped.
    pub stop_site: PostStopSite,
    /// COM1 text captured at the stop.
    pub com1: String,
    /// Port `0x402` debug text captured at the stop.
    pub debug: String,
}

} // verus!
