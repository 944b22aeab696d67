//! VM exits: what the processor reports of one, and what becomes of the
//! guest once it is handled.
use vstd::prelude::*;
use crate::bits::bit;
use crate::host::{InstructionInfo, VmExitReason};
use crate::intel::reset::{
    init_signal_field,
    init_signal_writes,
    reset_registers,
    sipi_signal_field,
    sipi_signal_writes,
    Processor,
};
use crate::intel::vmcs::{control, guest, written_or};
use crate::registers::Registers;

verus! {

/// Exit reason of an INIT signal.
pub const VMX_EXIT_REASON_INIT: u16 = 3;

/// Exit reason of a startup IPI.
pub const VMX_EXIT_REASON_SIPI: u16 = 4;

/// Exit reason of the CPUID instruction.
pub const VMX_EXIT_REASON_CPUID: u16 = 10;

/// Exit reason of the RDMSR instruction.
pub const VMX_EXIT_REASON_RDMSR: u16 = 31;

/// Exit reason of the WRMSR instruction.
pub const VMX_EXIT_REASON_WRMSR: u16 = 32;

/// Exit reason of the XSETBV instruction.
pub const VMX_EXIT_REASON_XSETBV: u16 = 55;

/// The carry flag of RFLAGS.
pub const RFLAGS_CF: u64 = 0x1;

/// The zero flag of RFLAGS.
pub const RFLAGS_ZF: u64 = 0x40;

/// How a VMX instruction failed.
#[derive(Clone, Copy, Debug, PartialEq, Eq, Structural)]
pub enum VmxFailure {
    /// The instruction failed with a current VMCS, whose VM-instruction
    /// error field holds the number carried here.
    VmFailValid(u64),
    /// The instruction failed without a current VMCS.
    VmFailInvalid,
}

/// What the processor reports when a guest stops running.
#[derive(Clone, Copy, Debug)]
pub struct VmExit {
    /// RFLAGS as the instruction that entered the guest left them.
    pub flags: u64,
    /// The VM-instruction error field.
    pub instruction_error: u64,
    /// The exit reason field.
    pub exit_reason: u64,
    /// The exit qualification field.
    pub exit_qualification: u64,
    /// The VM-exit instruction length field.
    pub instruction_len: u64,
    /// The guest RIP field.
    pub guest_rip: u64,
    /// The guest RSP field.
    pub guest_rsp: u64,
    /// The guest RFLAGS field.
    pub guest_rflags: u64,
}

/// Why a VM exit cannot be handled.
#[derive(Clone, Copy, Debug, PartialEq, Eq, Structural)]
pub enum RunError {
    /// The guest was not entered: the instruction failed.
    EntryFailed(VmxFailure),
    /// The exit reason, carried here, is none that the hypervisor handles.
    UnhandledExit(u16),
    /// The instruction that caused the exit would end beyond the address
    /// space.
    InstructionBeyondAddressSpace,
}

/// The outcome that RFLAGS report of the VMX instruction that set them: the
/// zero flag stands for a failure with an error number, the carry flag for
/// one without.
pub open spec fn spec_vmx_succeed(flags: u64, instruction_error: u64) -> Result<(), VmxFailure> {
    if bit(flags, RFLAGS_ZF) {
        Err(VmxFailure::VmFailValid(instruction_error))
    } else if bit(flags, RFLAGS_CF) {
        Err(VmxFailure::VmFailInvalid)
    } else {
        Ok(())
    }
}

/// Checks that the latest VMX instruction succeeded.
#[verifier::when_used_as_spec(spec_vmx_succeed)]
pub fn vmx_succeed(flags: u64, instruction_error: u64) -> (outcome: Result<(), VmxFailure>)
    ensures
        outcome == spec_vmx_succeed(flags, instruction_error),
{
    if bit(flags, RFLAGS_ZF) {
        Err(VmxFailure::VmFailValid(instruction_error))
    } else if bit(flags, RFLAGS_CF) {
        Err(VmxFailure::VmFailInvalid)
    } else {
        Ok(())
    }
}

/// The basic exit reason: bits 15:0 of the exit reason field.
pub open spec fn spec_basic_exit_reason(exit_reason: u64) -> u16 {
    (exit_reason % 0x1_0000) as u16
}

/// The basic exit reason: bits 15:0 of the exit reason field.
#[verifier::when_used_as_spec(spec_basic_exit_reason)]
pub fn basic_exit_reason(exit_reason: u64) -> (basic: u16)
    ensures
        basic == spec_basic_exit_reason(exit_reason),
{
    assert(exit_reason & 0xffff == exit_reason % 0x1_0000) by (bit_vector);
    (exit_reason & 0xffff) as u16
}

/// Whether the exit reason is that of an instruction which the layer above
/// emulates.
pub open spec fn is_instruction_exit(basic: u16) -> bool {
    ||| basic == VMX_EXIT_REASON_CPUID
    ||| basic == VMX_EXIT_REASON_RDMSR
    ||| basic == VMX_EXIT_REASON_WRMSR
    ||| basic == VMX_EXIT_REASON_XSETBV
}

/// Whether the hypervisor handles the exit reason.
pub open spec fn is_handled_exit(basic: u16) -> bool {
    ||| basic == VMX_EXIT_REASON_INIT
    ||| basic == VMX_EXIT_REASON_SIPI
    ||| is_instruction_exit(basic)
}

impl VmExit {
    /// The basic exit reason.
    pub open spec fn reason(&self) -> u16 {
        spec_basic_exit_reason(self.exit_reason)
    }

    /// What stands in the way of handling the exit, if anything: a failed
    /// entry first, then an exit reason that is not handled, then an
    /// intercepted instruction whose end does not fit an address.
    pub open spec fn error(&self) -> Option<RunError> {
        match spec_vmx_succeed(self.flags, self.instruction_error) {
            Err(failure) => Some(RunError::EntryFailed(failure)),
            Ok(_) => if !is_handled_exit(self.reason()) {
                Some(RunError::UnhandledExit(self.reason()))
            } else if is_instruction_exit(self.reason()) && self.guest_rip + self.instruction_len
                > u64::MAX {
                Some(RunError::InstructionBeyondAddressSpace)
            } else {
                None
            },
        }
    }

    /// What is reported for the exit once it was handled.
    pub open spec fn reported(&self) -> VmExitReason {
        let info = InstructionInfo { next_rip: (self.guest_rip + self.instruction_len) as u64 };
        if self.reason() == VMX_EXIT_REASON_INIT {
            VmExitReason::InitSignal
        } else if self.reason() == VMX_EXIT_REASON_SIPI {
            VmExitReason::StartupIpi
        } else if self.reason() == VMX_EXIT_REASON_CPUID {
            VmExitReason::Cpuid(info)
        } else if self.reason() == VMX_EXIT_REASON_RDMSR {
            VmExitReason::Rdmsr(info)
        } else if self.reason() == VMX_EXIT_REASON_WRMSR {
            VmExitReason::Wrmsr(info)
        } else {
            VmExitReason::XSetBv(info)
        }
    }

    /// The registers of the guest after the exit, given those before it:
    /// RIP, RSP and RFLAGS are as the processor saved them.
    pub open spec fn saved(&self, before: Registers) -> Registers {
        Registers { rip: self.guest_rip, rsp: self.guest_rsp, rflags: self.guest_rflags, ..before }
    }

    /// The registers of the guest once the exit was handled, given those
    /// before it: reset by an INIT signal, at offset zero after a startup IPI,
    /// as the processor saved them otherwise.
    pub open spec fn registers_after(&self, processor: Processor, before: Registers) -> Registers {
        if self.reason() == VMX_EXIT_REASON_INIT {
            reset_registers(processor.extended_model_id)
        } else if self.reason() == VMX_EXIT_REASON_SIPI {
            Registers { rip: 0, ..self.saved(before) }
        } else {
            self.saved(before)
        }
    }

    /// The value of the field `encoding` once the exit was handled, given the
    /// fields before it: what the handler of the signal wrote, or else what
    /// the processor saved, or else what the field held.
    pub open spec fn field_after(
        &self,
        processor: Processor,
        before: Map<u32, u64>,
        encoding: u32,
    ) -> u64 {
        written_or(
            if self.reason() == VMX_EXIT_REASON_INIT {
                init_signal_field(
                    processor,
                    before[control::SECONDARY_PROCBASED_EXEC_CONTROLS],
                    before[control::VMENTRY_CONTROLS],
                    encoding,
                )
            } else if self.reason() == VMX_EXIT_REASON_SIPI {
                sipi_signal_field(self.exit_qualification, encoding)
            } else {
                None
            },
            written_or(self.saved_field(encoding), before[encoding]),
        )
    }

    /// The writes that handling the exit makes, in their order, given the
    /// fields before it: those of the handler of the signal, and none for an
    /// intercepted instruction.
    pub open spec fn writes_after(&self, processor: Processor, before: Map<u32, u64>) -> Seq<
        (u32, u64),
    > {
        if self.reason() == VMX_EXIT_REASON_INIT {
            init_signal_writes(
                processor,
                before[control::SECONDARY_PROCBASED_EXEC_CONTROLS],
                before[control::VMENTRY_CONTROLS],
            )
        } else if self.reason() == VMX_EXIT_REASON_SIPI {
            sipi_signal_writes(self.exit_qualification)
        } else {
            Seq::empty()
        }
    }

    /// What the exit itself leaves in the guest-state field `encoding`, if it
    /// touches it.
    pub open spec fn saved_field(&self, encoding: u32) -> Option<u64> {
        if encoding == guest::RIP {
            Some(self.guest_rip)
        } else if encoding == guest::RSP {
            Some(self.guest_rsp)
        } else if encoding == guest::RFLAGS {
            Some(self.guest_rflags)
        } else {
            None
        }
    }
}

} // verus!
