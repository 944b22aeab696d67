//! What the hypervisor reports to the layer that emulates instructions.
use vstd::prelude::*;

verus! {

/// Where the guest continues once an intercepted instruction was emulated.
#[derive(Clone, Copy, Debug, PartialEq, Eq, Structural)]
pub struct InstructionInfo {
    /// The address of the instruction after the intercepted one.
    pub next_rip: u64,
}

/// Why the guest stopped running.
#[derive(Clone, Copy, Debug, PartialEq, Eq, Structural)]
pub enum VmExitReason {
    /// The processor received an INIT signal; the guest was reset.
    InitSignal,
    /// The processor received a startup IPI; the guest was started.
    StartupIpi,
    /// The guest executed CPUID.
    Cpuid(InstructionInfo),
    /// The guest executed RDMSR.
    Rdmsr(InstructionInfo),
    /// The guest executed WRMSR.
    Wrmsr(InstructionInfo),
    /// The guest executed XSETBV.
    XSetBv(InstructionInfo),
}

} // verus!
