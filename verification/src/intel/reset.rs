//! The state of a guest after an INIT signal and after a startup IPI.
use vstd::prelude::*;
use crate::bits::bit;
use crate::intel::controls::{adjusted_cr, adjusted_guest_cr0, CR0_EXTENSION_TYPE};
use crate::intel::vmcs::{control, guest};
use crate::registers::Registers;

verus! {

/// The activity state of a logical processor in VMX non-root operation.
#[derive(Clone, Copy, Debug, PartialEq, Eq, Structural)]
pub enum GuestActivityState {
    /// The logical processor is executing instructions normally.
    Active,
    /// The logical processor is inactive because it executed the HLT instruction.
    Hlt,
    /// The logical processor is inactive because it incurred a triple fault
    /// or some other serious error.
    Shutdown,
    /// The logical processor is inactive because it is waiting for a startup IPI.
    WaitForSipi,
}

impl GuestActivityState {
    /// The value of the activity-state field.
    pub open spec fn spec_value(self) -> u64 {
        match self {
            GuestActivityState::Active => 0,
            GuestActivityState::Hlt => 1,
            GuestActivityState::Shutdown => 2,
            GuestActivityState::WaitForSipi => 3,
        }
    }

    /// The value of the activity-state field.
    #[verifier::when_used_as_spec(spec_value)]
    pub fn value(self) -> (value: u64)
        ensures
            value == self.spec_value(),
    {
        match self {
            GuestActivityState::Active => 0,
            GuestActivityState::Hlt => 1,
            GuestActivityState::Shutdown => 2,
            GuestActivityState::WaitForSipi => 3,
        }
    }
}

/// Descriptor type of a code segment that is readable and was accessed.
pub const CODE_SEGMENT_EXECUTE_READ_ACCESSED: u32 = 0b1011;

/// Descriptor type of a data segment that is writable and was accessed.
pub const DATA_SEGMENT_READ_WRITE_ACCESSED: u32 = 0b0011;

/// Descriptor type of a local descriptor table.
pub const SYSTEM_DESCRIPTOR_LDT: u32 = 0b0010;

/// Descriptor type of a busy task state segment.
pub const SYSTEM_DESCRIPTOR_TSS_BUSY: u32 = 0b1011;

/// Access rights of a segment in the format of the VMCS: the segment type
/// in bits 3:0, the descriptor type in bit 4, the privilege level in bits
/// 6:5, the present flag in bit 7, then, from bit 12 on, the flags
/// "available", "long mode", "default size", "granularity" and "unusable".
#[derive(Clone, Copy, Debug)]
pub struct VmxSegmentAccessRights(pub u32);

impl VmxSegmentAccessRights {
    /// `bits` with `segment_type` in bits 3:0.
    pub open spec fn with_segment_type(bits: u32, segment_type: u32) -> u32 {
        (bits & !0xfu32) | (segment_type & 0xfu32)
    }

    /// `bits` with bit `index` set or cleared.
    pub open spec fn with_flag(bits: u32, index: u32, value: bool) -> u32 {
        if value {
            bits | (1u32 << index)
        } else {
            bits & !(1u32 << index)
        }
    }

    /// Access rights that hold a segment type, a descriptor type and a
    /// present flag, and nothing else.
    pub open spec fn composed(segment_type: u32, descriptor_type: bool, present: bool) -> u32 {
        (segment_type % 0x10 + (if descriptor_type {
            0x10int
        } else {
            0int
        }) + (if present {
            0x80int
        } else {
            0int
        })) as u32
    }

    /// The segment type, bits 3:0.
    pub fn segment_type(&self) -> (segment_type: u32)
        ensures
            segment_type == self.0 & 0xf,
    {
        self.0 & 0xf
    }

    /// Sets the segment type, bits 3:0, to the low four bits of `value`.
    pub fn set_segment_type(&mut self, value: u32)
        ensures
            final(self).0 == Self::with_segment_type(old(self).0, value),
    {
        self.0 = (self.0 & !0xfu32) | (value & 0xfu32);
    }

    /// Whether the descriptor is one of a code or data segment, bit 4.
    pub fn descriptor_type(&self) -> (descriptor_type: bool)
        ensures
            descriptor_type == (self.0 & (1u32 << 4u32) != 0),
    {
        self.0 & (1u32 << 4u32) != 0
    }

    /// Sets the descriptor type, bit 4: code or data if `value`, system if not.
    pub fn set_descriptor_type(&mut self, value: bool)
        ensures
            final(self).0 == Self::with_flag(old(self).0, 4, value),
    {
        if value {
            self.0 = self.0 | (1u32 << 4u32);
        } else {
            self.0 = self.0 & !(1u32 << 4u32);
        }
    }

    /// Whether the segment is present, bit 7.
    pub fn present(&self) -> (present: bool)
        ensures
            present == (self.0 & (1u32 << 7u32) != 0),
    {
        self.0 & (1u32 << 7u32) != 0
    }

    /// Sets the present flag, bit 7.
    pub fn set_present(&mut self, value: bool)
        ensures
            final(self).0 == Self::with_flag(old(self).0, 7, value),
    {
        if value {
            self.0 = self.0 | (1u32 << 7u32);
        } else {
            self.0 = self.0 & !(1u32 << 7u32);
        }
    }

    /// The access rights that a reset gives to the code segment, to the data
    /// segments, to LDTR and to TR, each reached from the one before by the
    /// setters, are 0x9b, 0x93, 0x82 and 0x8b.
    pub proof fn lemma_reset_access_rights()
        by (bit_vector)
        ensures
            Self::with_flag(
                Self::with_flag(Self::with_segment_type(0, 0b1011), 4, true),
                7,
                true,
            ) == 0x9b,
            Self::with_segment_type(0x9b, 0b0011) == 0x93,
            Self::with_flag(Self::with_segment_type(0x93, 0b0010), 4, false) == 0x82,
            Self::with_segment_type(0x82, 0b1011) == 0x8b,
            Self::composed(0b1011, true, true) == 0x9b,
            Self::composed(0b0011, true, true) == 0x93,
            Self::composed(0b0010, false, true) == 0x82,
            Self::composed(0b1011, false, true) == 0x8b,
    {
    }
}

/// What the hypervisor knows of the processor when it resets a guest: the
/// VMX-fixed bits of CR0 and CR4 and the extended model of the processor.
#[derive(Clone, Copy, Debug)]
pub struct Processor {
    /// `IA32_VMX_CR0_FIXED0`.
    pub cr0_fixed0: u64,
    /// `IA32_VMX_CR0_FIXED1`.
    pub cr0_fixed1: u64,
    /// `IA32_VMX_CR4_FIXED0`.
    pub cr4_fixed0: u64,
    /// `IA32_VMX_CR4_FIXED1`.
    pub cr4_fixed1: u64,
    /// Bits 19:16 of what CPUID returns in EAX for leaf 1.
    pub extended_model_id: u8,
}

/// The extended model of the processor that executes the call, through
/// `CpuId::get_feature_info` and `FeatureInfo::extended_model_id` of the
/// `x86` crate: none where CPUID has no leaf 1, else bits 19:16 of EAX, which
/// are at most 15. Which value comes back depends on the processor.
#[verifier::external_body]
fn feature_info_extended_model_id() -> (extended_model_id: Option<u8>)
    ensures
        extended_model_id matches Some(id) ==> id <= 0xf,
{
    x86::cpuid::CpuId::new().get_feature_info().map(|info| info.extended_model_id())
}

impl Processor {
    /// The processor that executes the call, with the VMX-fixed bits that
    /// the caller read from its MSRs; none where the processor does not
    /// tell its model.
    pub fn current(
        cr0_fixed0: u64,
        cr0_fixed1: u64,
        cr4_fixed0: u64,
        cr4_fixed1: u64,
    ) -> (processor:
        Option<Processor>)
        ensures
            processor matches Some(processor) ==> {
                &&& processor.cr0_fixed0 == cr0_fixed0
                &&& processor.cr0_fixed1 == cr0_fixed1
                &&& processor.cr4_fixed0 == cr4_fixed0
                &&& processor.cr4_fixed1 == cr4_fixed1
                &&& processor.extended_model_id <= 0xf
            },
    {
        Self::with_extended_model(
            cr0_fixed0,
            cr0_fixed1,
            cr4_fixed0,
            cr4_fixed1,
            feature_info_extended_model_id(),
        )
    }

    /// The processor with the given VMX-fixed bits and with the extended
    /// model that CPUID reported; none where CPUID reported none.
    pub open spec fn spec_with_extended_model(
        cr0_fixed0: u64,
        cr0_fixed1: u64,
        cr4_fixed0: u64,
        cr4_fixed1: u64,
        extended_model_id: Option<u8>,
    ) -> Option<Processor> {
        match extended_model_id {
            Some(extended_model_id) => Some(
                Processor { cr0_fixed0, cr0_fixed1, cr4_fixed0, cr4_fixed1, extended_model_id },
            ),
            None => None,
        }
    }

    /// The processor with the given VMX-fixed bits and with the extended
    /// model that CPUID reported; none where CPUID reported none.
    #[verifier::when_used_as_spec(spec_with_extended_model)]
    pub fn with_extended_model(
        cr0_fixed0: u64,
        cr0_fixed1: u64,
        cr4_fixed0: u64,
        cr4_fixed1: u64,
        extended_model_id: Option<u8>,
    ) -> (processor: Option<Processor>)
        ensures
            processor == Self::spec_with_extended_model(
                cr0_fixed0,
                cr0_fixed1,
                cr4_fixed0,
                cr4_fixed1,
                extended_model_id,
            ),
    {
        match extended_model_id {
            Some(extended_model_id) => Some(
                Processor { cr0_fixed0, cr0_fixed1, cr4_fixed0, cr4_fixed1, extended_model_id },
            ),
            None => None,
        }
    }
}

/// The registers that an INIT signal resets and that live neither in the
/// VMCS nor in the snapshot: CR2 and the debug registers.
#[derive(Clone, Copy, Debug, PartialEq, Eq, Structural)]
pub struct ResetState {
    pub cr2: u64,
    pub dr0: u64,
    pub dr1: u64,
    pub dr2: u64,
    pub dr3: u64,
    pub dr6: u64,
    pub dr7: u64,
}

impl ResetState {
    /// The values after INIT: everything zero, but for the bits of DR6 and
    /// DR7 that always read as one.
    pub open spec fn spec_after_init() -> ResetState {
        ResetState { cr2: 0, dr0: 0, dr1: 0, dr2: 0, dr3: 0, dr6: 0xffff_0ff0, dr7: 0x400 }
    }

    /// The values after INIT, for the caller to load when it is told of an
    /// INIT signal.
    #[verifier::when_used_as_spec(spec_after_init)]
    pub fn after_init() -> (state: ResetState)
        ensures
            state == Self::spec_after_init(),
    {
        ResetState { cr2: 0, dr0: 0, dr1: 0, dr2: 0, dr3: 0, dr6: 0xffff_0ff0, dr7: 0x400 }
    }
}

/// The value of RFLAGS in which no flag is set: bit 1 always reads as one.
pub const RFLAGS_RESERVED_ONE: u64 = 0x2;

/// The address at which a processor starts after a reset, within its code
/// segment.
pub const RESET_RIP: u64 = 0xfff0;

/// The limit of every segment and descriptor table after a reset.
pub const RESET_LIMIT: u64 = 0xffff;

/// RDX after a reset: the processor's signature, as far as it is kept.
pub open spec fn reset_rdx(extended_model_id: u8) -> u64 {
    (0x600 + extended_model_id * 0x1_0000) as u64
}

/// The registers of a processor that received INIT.
pub open spec fn reset_registers(extended_model_id: u8) -> Registers {
    Registers {
        rax: 0,
        rbx: 0,
        rcx: 0,
        rdx: reset_rdx(extended_model_id),
        rdi: 0,
        rsi: 0,
        rbp: 0,
        r8: 0,
        r9: 0,
        r10: 0,
        r11: 0,
        r12: 0,
        r13: 0,
        r14: 0,
        r15: 0,
        rflags: RFLAGS_RESERVED_ONE,
        rsp: 0,
        rip: RESET_RIP,
    }
}

/// VM-entry controls with "IA-32e mode guest" cleared, so that the guest
/// enters in real mode.
pub open spec fn without_ia32e_mode_guest(entry_controls: u64) -> u64 {
    if bit(entry_controls, control::ENTRY_IA32E_MODE_GUEST) {
        (entry_controls - control::ENTRY_IA32E_MODE_GUEST) as u64
    } else {
        entry_controls
    }
}

/// The instruction pointer, the flags and the control registers after INIT:
/// what the handler of the signal writes to `encoding` if it is one of them.
pub open spec fn init_register_field(
    processor: Processor,
    secondary_controls: u64,
    encoding: u32,
) -> Option<u64> {
    if encoding == guest::RFLAGS {
        Some(RFLAGS_RESERVED_ONE)
    } else if encoding == guest::RIP {
        Some(RESET_RIP)
    } else if encoding == guest::CR3 || encoding == control::CR0_READ_SHADOW || encoding
        == control::CR4_READ_SHADOW {
        Some(0)
    } else if encoding == guest::CR0 {
        Some(
            adjusted_guest_cr0(
                CR0_EXTENSION_TYPE,
                processor.cr0_fixed0,
                processor.cr0_fixed1,
                secondary_controls,
            ),
        )
    } else if encoding == guest::CR4 {
        Some(adjusted_cr(0, processor.cr4_fixed0, processor.cr4_fixed1))
    } else {
        None
    }
}

/// The code segment and the five data segments after INIT: what the handler
/// of the signal writes to `encoding` if it is a field of one of them.
pub open spec fn init_segment_field(encoding: u32) -> Option<u64> {
    if encoding == guest::CS_SELECTOR {
        Some(0xf000)
    } else if encoding == guest::CS_BASE {
        Some(0xffff_0000)
    } else if encoding == guest::CS_ACCESS_RIGHTS {
        Some(
            VmxSegmentAccessRights::composed(CODE_SEGMENT_EXECUTE_READ_ACCESSED, true, true) as u64,
        )
    } else if encoding == guest::SS_SELECTOR || encoding == guest::DS_SELECTOR || encoding
        == guest::ES_SELECTOR || encoding == guest::FS_SELECTOR || encoding == guest::GS_SELECTOR {
        Some(0)
    } else if encoding == guest::SS_BASE || encoding == guest::DS_BASE || encoding
        == guest::ES_BASE || encoding == guest::FS_BASE || encoding == guest::GS_BASE {
        Some(0)
    } else if encoding == guest::CS_LIMIT || encoding == guest::SS_LIMIT || encoding
        == guest::DS_LIMIT || encoding == guest::ES_LIMIT || encoding == guest::FS_LIMIT
        || encoding == guest::GS_LIMIT {
        Some(RESET_LIMIT)
    } else if encoding == guest::SS_ACCESS_RIGHTS || encoding == guest::DS_ACCESS_RIGHTS
        || encoding == guest::ES_ACCESS_RIGHTS || encoding == guest::FS_ACCESS_RIGHTS || encoding
        == guest::GS_ACCESS_RIGHTS {
        Some(VmxSegmentAccessRights::composed(DATA_SEGMENT_READ_WRITE_ACCESSED, true, true) as u64)
    } else {
        None
    }
}

/// The stack pointer, the descriptor tables, LDTR and TR after INIT: what
/// the handler of the signal writes to `encoding` if it is one of them.
pub open spec fn init_table_field(encoding: u32) -> Option<u64> {
    if encoding == guest::RSP || encoding == guest::GDTR_BASE || encoding == guest::IDTR_BASE
        || encoding == guest::LDTR_SELECTOR || encoding == guest::LDTR_BASE || encoding
        == guest::TR_SELECTOR || encoding == guest::TR_BASE {
        Some(0)
    } else if encoding == guest::GDTR_LIMIT || encoding == guest::IDTR_LIMIT || encoding
        == guest::LDTR_LIMIT || encoding == guest::TR_LIMIT {
        Some(RESET_LIMIT)
    } else if encoding == guest::LDTR_ACCESS_RIGHTS {
        Some(VmxSegmentAccessRights::composed(SYSTEM_DESCRIPTOR_LDT, false, true) as u64)
    } else if encoding == guest::TR_ACCESS_RIGHTS {
        Some(VmxSegmentAccessRights::composed(SYSTEM_DESCRIPTOR_TSS_BUSY, false, true) as u64)
    } else {
        None
    }
}

/// The mode of the guest after INIT: what the handler of the signal writes
/// to `encoding` if it is one of the fields that take the guest out of
/// IA-32e mode and leave it waiting for a startup IPI.
pub open spec fn init_mode_field(entry_controls: u64, encoding: u32) -> Option<u64> {
    if encoding == guest::IA32_EFER_FULL || encoding == guest::FS_BASE || encoding
        == guest::GS_BASE {
        Some(0)
    } else if encoding == control::VMENTRY_CONTROLS {
        Some(without_ia32e_mode_guest(entry_controls))
    } else if encoding == guest::ACTIVITY_STATE {
        Some(GuestActivityState::WaitForSipi.value())
    } else {
        None
    }
}

/// What the handler of the INIT signal writes to `encoding`, if anything.
/// `secondary_controls` and `entry_controls` are the values that the two
/// control fields hold when the signal arrives.
pub open spec fn init_signal_field(
    processor: Processor,
    secondary_controls: u64,
    entry_controls: u64,
    encoding: u32,
) -> Option<u64> {
    if init_register_field(processor, secondary_controls, encoding) is Some {
        init_register_field(processor, secondary_controls, encoding)
    } else if init_segment_field(encoding) is Some {
        init_segment_field(encoding)
    } else if init_table_field(encoding) is Some {
        init_table_field(encoding)
    } else {
        init_mode_field(entry_controls, encoding)
    }
}

/// The vector of a startup IPI: bits 7:0 of the exit qualification.
pub open spec fn sipi_vector(exit_qualification: u64) -> u64 {
    exit_qualification % 0x100
}

/// What the handler of a startup IPI writes to `encoding`, if anything: the
/// guest starts in real mode at the page that the vector names.
pub open spec fn sipi_signal_field(exit_qualification: u64, encoding: u32) -> Option<u64> {
    if encoding == guest::CS_SELECTOR {
        Some((sipi_vector(exit_qualification) * 0x100) as u64)
    } else if encoding == guest::CS_BASE {
        Some((sipi_vector(exit_qualification) * 0x1000) as u64)
    } else if encoding == guest::RIP {
        Some(0)
    } else if encoding == guest::ACTIVITY_STATE {
        Some(GuestActivityState::Active.value())
    } else {
        None
    }
}

/// The first writes of the handler of the INIT signal: the instruction
/// pointer, the flags and the control registers.
pub open spec fn init_register_writes(processor: Processor, secondary_controls: u64) -> Seq<
    (u32, u64),
> {
    seq![
        (guest::RFLAGS, RFLAGS_RESERVED_ONE),
        (guest::RIP, RESET_RIP),
        (guest::CR3, 0u64),
        (control::CR0_READ_SHADOW, 0u64),
        (control::CR4_READ_SHADOW, 0u64),
        (
            guest::CR0,
            adjusted_guest_cr0(
                CR0_EXTENSION_TYPE,
                processor.cr0_fixed0,
                processor.cr0_fixed1,
                secondary_controls,
            ),
        ),
        (guest::CR4, adjusted_cr(0, processor.cr4_fixed0, processor.cr4_fixed1)),
    ]
}

/// The next writes of the handler of the INIT signal: the code segment and
/// the five data segments.
pub open spec fn init_segment_writes() -> Seq<(u32, u64)> {
    let code = VmxSegmentAccessRights::composed(CODE_SEGMENT_EXECUTE_READ_ACCESSED, true, true);
    let data = VmxSegmentAccessRights::composed(DATA_SEGMENT_READ_WRITE_ACCESSED, true, true);
    seq![
        (guest::CS_SELECTOR, 0xf000u64),
        (guest::CS_BASE, 0xffff_0000u64),
        (guest::CS_LIMIT, RESET_LIMIT),
        (guest::CS_ACCESS_RIGHTS, code as u64),
        (guest::SS_SELECTOR, 0u64),
        (guest::SS_BASE, 0u64),
        (guest::SS_LIMIT, RESET_LIMIT),
        (guest::SS_ACCESS_RIGHTS, data as u64),
        (guest::DS_SELECTOR, 0u64),
        (guest::DS_BASE, 0u64),
        (guest::DS_LIMIT, RESET_LIMIT),
        (guest::DS_ACCESS_RIGHTS, data as u64),
        (guest::ES_SELECTOR, 0u64),
        (guest::ES_BASE, 0u64),
        (guest::ES_LIMIT, RESET_LIMIT),
        (guest::ES_ACCESS_RIGHTS, data as u64),
        (guest::FS_SELECTOR, 0u64),
        (guest::FS_BASE, 0u64),
        (guest::FS_LIMIT, RESET_LIMIT),
        (guest::FS_ACCESS_RIGHTS, data as u64),
        (guest::GS_SELECTOR, 0u64),
        (guest::GS_BASE, 0u64),
        (guest::GS_LIMIT, RESET_LIMIT),
        (guest::GS_ACCESS_RIGHTS, data as u64),
    ]
}

/// The next writes of the handler of the INIT signal: the stack pointer, the
/// descriptor tables, LDTR and TR.
pub open spec fn init_table_writes() -> Seq<(u32, u64)> {
    let ldt = VmxSegmentAccessRights::composed(SYSTEM_DESCRIPTOR_LDT, false, true);
    let tss = VmxSegmentAccessRights::composed(SYSTEM_DESCRIPTOR_TSS_BUSY, false, true);
    seq![
        (guest::RSP, 0u64),
        (guest::GDTR_BASE, 0u64),
        (guest::GDTR_LIMIT, RESET_LIMIT),
        (guest::IDTR_BASE, 0u64),
        (guest::IDTR_LIMIT, RESET_LIMIT),
        (guest::LDTR_SELECTOR, 0u64),
        (guest::LDTR_BASE, 0u64),
        (guest::LDTR_LIMIT, RESET_LIMIT),
        (guest::LDTR_ACCESS_RIGHTS, ldt as u64),
        (guest::TR_SELECTOR, 0u64),
        (guest::TR_BASE, 0u64),
        (guest::TR_LIMIT, RESET_LIMIT),
        (guest::TR_ACCESS_RIGHTS, tss as u64),
    ]
}

/// The last writes of the handler of the INIT signal: the guest leaves
/// IA-32e mode and waits for a startup IPI.
pub open spec fn init_mode_writes(entry_controls: u64) -> Seq<(u32, u64)> {
    seq![
        (guest::IA32_EFER_FULL, 0u64),
        (guest::FS_BASE, 0u64),
        (guest::GS_BASE, 0u64),
        (control::VMENTRY_CONTROLS, without_ia32e_mode_guest(entry_controls)),
        (guest::ACTIVITY_STATE, GuestActivityState::WaitForSipi.value()),
    ]
}

/// The writes of the handler of the INIT signal, in their order.
/// `secondary_controls` and `entry_controls` are the values that the two
/// control fields hold when the signal arrives.
pub open spec fn init_signal_writes(
    processor: Processor,
    secondary_controls: u64,
    entry_controls: u64,
) -> Seq<(u32, u64)> {
    init_register_writes(processor, secondary_controls) + init_segment_writes()
        + init_table_writes() + init_mode_writes(entry_controls)
}

/// The writes of the handler of a startup IPI, in their order.
pub open spec fn sipi_signal_writes(exit_qualification: u64) -> Seq<(u32, u64)> {
    seq![
        (guest::CS_SELECTOR, (sipi_vector(exit_qualification) * 0x100) as u64),
        (guest::CS_BASE, (sipi_vector(exit_qualification) * 0x1000) as u64),
        (guest::RIP, 0u64),
        (guest::ACTIVITY_STATE, GuestActivityState::Active.value()),
    ]
}

} // verus!
