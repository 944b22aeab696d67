//! Management of one guest: its VMCS and its register state.
use vstd::prelude::*;
use crate::bits::{high32, lemma_bits, low32};
use crate::host::{InstructionInfo, VmExitReason};
use crate::intel::controls::{
    adjusted_control,
    allowed0,
    allowed1,
    control_supported,
    get_adjusted_guest_cr0,
    get_adjusted_guest_cr4,
    lemma_access_rights_by_mask,
    lemma_adjusted_control_is_permitted,
    requested_controls,
    spec_access_rights,
    VmxControl,
    CR0_EXTENSION_TYPE,
    VMX_SEGMENT_ACCESS_RIGHTS_MASK,
    VMX_SEGMENT_ACCESS_RIGHTS_UNUSABLE_FLAG,
};
use crate::intel::exit::{
    basic_exit_reason,
    vmx_succeed,
    RunError,
    VmExit,
    VMX_EXIT_REASON_CPUID,
    VMX_EXIT_REASON_INIT,
    VMX_EXIT_REASON_RDMSR,
    VMX_EXIT_REASON_SIPI,
    VMX_EXIT_REASON_WRMSR,
    VMX_EXIT_REASON_XSETBV,
};
use crate::intel::reset::{
    init_mode_field,
    init_mode_writes,
    init_register_field,
    init_register_writes,
    init_segment_field,
    init_segment_writes,
    init_signal_field,
    init_signal_writes,
    init_table_field,
    init_table_writes,
    reset_registers,
    sipi_signal_field,
    sipi_signal_writes,
    GuestActivityState,
    Processor,
    VmxSegmentAccessRights,
    CODE_SEGMENT_EXECUTE_READ_ACCESSED,
    DATA_SEGMENT_READ_WRITE_ACCESSED,
    RESET_LIMIT,
    RESET_RIP,
    RFLAGS_RESERVED_ONE,
    SYSTEM_DESCRIPTOR_LDT,
    SYSTEM_DESCRIPTOR_TSS_BUSY,
};
use crate::intel::state::{
    guest_register_field,
    guest_register_writes,
    guest_segment_attribute_writes,
    guest_segment_writes,
    guest_state_writes,
    host_state_writes,
    guest_segment_attribute_field,
    guest_segment_field,
    guest_state_field,
    host_selector,
    host_state_field,
    is_host_selector_field,
    ProcessorState,
    SharedHostData,
};
use crate::intel::vmcs::{control, guest, host, written_or, Vmcs};
use crate::registers::Registers;

verus! {

/// The values of the capability MSRs, one for each group of controls that
/// the hypervisor programs. Each is read from the MSR that
/// [`capability_msr`](crate::intel::controls::capability_msr) names.
#[derive(Clone, Copy, Debug)]
pub struct ControlCapabilities {
    pub pin_based: u64,
    pub processor_based: u64,
    pub processor_based2: u64,
    pub vm_exit: u64,
    pub vm_entry: u64,
}

impl ControlCapabilities {
    /// The processor can grant every setting that the hypervisor asks for.
    pub open spec fn spec_supports_requested(&self) -> bool {
        &&& control_supported(
            VmxControl::VmExit,
            self.vm_exit,
            requested_controls(VmxControl::VmExit),
        )
        &&& control_supported(
            VmxControl::VmEntry,
            self.vm_entry,
            requested_controls(VmxControl::VmEntry),
        )
        &&& control_supported(
            VmxControl::PinBased,
            self.pin_based,
            requested_controls(VmxControl::PinBased),
        )
        &&& control_supported(
            VmxControl::ProcessorBased,
            self.processor_based,
            requested_controls(VmxControl::ProcessorBased),
        )
        &&& control_supported(
            VmxControl::ProcessorBased2,
            self.processor_based2,
            requested_controls(VmxControl::ProcessorBased2),
        )
    }

    /// Tells whether the processor can grant every setting that the
    /// hypervisor asks for.
    #[verifier::when_used_as_spec(spec_supports_requested)]
    pub fn supports_requested(&self) -> (supported: bool)
        ensures
            supported == self.spec_supports_requested(),
    {
        let vm_exit = VmxGuest::try_adjust_vmx_control(
            VmxControl::VmExit,
            self.vm_exit,
            control::EXIT_HOST_ADDRESS_SPACE_SIZE,
        );
        let vm_entry = VmxGuest::try_adjust_vmx_control(
            VmxControl::VmEntry,
            self.vm_entry,
            control::ENTRY_IA32E_MODE_GUEST,
        );
        let pin_based = VmxGuest::try_adjust_vmx_control(VmxControl::PinBased, self.pin_based, 0);
        let processor_based = VmxGuest::try_adjust_vmx_control(
            VmxControl::ProcessorBased,
            self.processor_based,
            control::PRIMARY_USE_MSR_BITMAPS | control::PRIMARY_SECONDARY_CONTROLS,
        );
        let processor_based2 = VmxGuest::try_adjust_vmx_control(
            VmxControl::ProcessorBased2,
            self.processor_based2,
            control::SECONDARY_ENABLE_EPT | control::SECONDARY_UNRESTRICTED_GUEST
                | control::SECONDARY_ENABLE_RDTSCP | control::SECONDARY_ENABLE_INVPCID
                | control::SECONDARY_ENABLE_XSAVES_XRSTORS,
        );
        vm_exit.is_some() && vm_entry.is_some() && pin_based.is_some() && processor_based.is_some()
            && processor_based2.is_some()
    }
}

/// What entering the guest writes to `encoding`, if anything: RIP, RSP and
/// RFLAGS of the snapshot.
pub open spec fn entry_field(registers: Registers, encoding: u32) -> Option<u64> {
    if encoding == guest::RIP {
        Some(registers.rip)
    } else if encoding == guest::RSP {
        Some(registers.rsp)
    } else if encoding == guest::RFLAGS {
        Some(registers.rflags)
    } else {
        None
    }
}

/// What initializing the control fields writes to `encoding`, if anything.
pub open spec fn control_field(
    capabilities: ControlCapabilities,
    msr_bitmaps_pa: u64,
    eptp: u64,
    encoding: u32,
) -> Option<u64> {
    if encoding == control::VMEXIT_CONTROLS {
        Some(
            adjusted_control(
                VmxControl::VmExit,
                capabilities.vm_exit,
                requested_controls(VmxControl::VmExit),
            ),
        )
    } else if encoding == control::VMENTRY_CONTROLS {
        Some(
            adjusted_control(
                VmxControl::VmEntry,
                capabilities.vm_entry,
                requested_controls(VmxControl::VmEntry),
            ),
        )
    } else if encoding == control::PINBASED_EXEC_CONTROLS {
        Some(
            adjusted_control(
                VmxControl::PinBased,
                capabilities.pin_based,
                requested_controls(VmxControl::PinBased),
            ),
        )
    } else if encoding == control::PRIMARY_PROCBASED_EXEC_CONTROLS {
        Some(
            adjusted_control(
                VmxControl::ProcessorBased,
                capabilities.processor_based,
                requested_controls(VmxControl::ProcessorBased),
            ),
        )
    } else if encoding == control::SECONDARY_PROCBASED_EXEC_CONTROLS {
        Some(
            adjusted_control(
                VmxControl::ProcessorBased2,
                capabilities.processor_based2,
                requested_controls(VmxControl::ProcessorBased2),
            ),
        )
    } else if encoding == control::MSR_BITMAPS_ADDR_FULL {
        Some(msr_bitmaps_pa)
    } else if encoding == control::EPTP_FULL {
        Some(eptp)
    } else {
        None
    }
}

/// The writes that initialize the control fields, in their order.
pub open spec fn control_writes(
    capabilities: ControlCapabilities,
    msr_bitmaps_pa: u64,
    eptp: u64,
) -> Seq<(u32, u64)> {
    seq![
        (
            control::VMEXIT_CONTROLS,
            adjusted_control(
                VmxControl::VmExit,
                capabilities.vm_exit,
                requested_controls(VmxControl::VmExit),
            ),
        ),
        (
            control::VMENTRY_CONTROLS,
            adjusted_control(
                VmxControl::VmEntry,
                capabilities.vm_entry,
                requested_controls(VmxControl::VmEntry),
            ),
        ),
        (
            control::PINBASED_EXEC_CONTROLS,
            adjusted_control(
                VmxControl::PinBased,
                capabilities.pin_based,
                requested_controls(VmxControl::PinBased),
            ),
        ),
        (
            control::PRIMARY_PROCBASED_EXEC_CONTROLS,
            adjusted_control(
                VmxControl::ProcessorBased,
                capabilities.processor_based,
                requested_controls(VmxControl::ProcessorBased),
            ),
        ),
        (
            control::SECONDARY_PROCBASED_EXEC_CONTROLS,
            adjusted_control(
                VmxControl::ProcessorBased2,
                capabilities.processor_based2,
                requested_controls(VmxControl::ProcessorBased2),
            ),
        ),
        (control::MSR_BITMAPS_ADDR_FULL, msr_bitmaps_pa),
        (control::EPTP_FULL, eptp),
    ]
}

/// The writes that prepare a VM entry, in their order.
pub open spec fn entry_writes(registers: Registers) -> Seq<(u32, u64)> {
    seq![
        (guest::RIP, registers.rip),
        (guest::RSP, registers.rsp),
        (guest::RFLAGS, registers.rflags),
    ]
}

/// The group of controls that the field `encoding` holds, if it holds one.
pub open spec fn control_of(encoding: u32) -> Option<VmxControl> {
    if encoding == control::VMEXIT_CONTROLS {
        Some(VmxControl::VmExit)
    } else if encoding == control::VMENTRY_CONTROLS {
        Some(VmxControl::VmEntry)
    } else if encoding == control::PINBASED_EXEC_CONTROLS {
        Some(VmxControl::PinBased)
    } else if encoding == control::PRIMARY_PROCBASED_EXEC_CONTROLS {
        Some(VmxControl::ProcessorBased)
    } else if encoding == control::SECONDARY_PROCBASED_EXEC_CONTROLS {
        Some(VmxControl::ProcessorBased2)
    } else {
        None
    }
}

impl ControlCapabilities {
    /// The value of the capability MSR for a group of controls.
    pub open spec fn of(&self, control: VmxControl) -> u64 {
        match control {
            VmxControl::PinBased => self.pin_based,
            VmxControl::ProcessorBased => self.processor_based,
            VmxControl::ProcessorBased2 => self.processor_based2,
            VmxControl::ProcessorBased3 => 0,
            VmxControl::VmExit => self.vm_exit,
            VmxControl::VmEntry => self.vm_entry,
        }
    }
}

/// Every control field is written with a value that holds each bit which
/// the processor demands and none which it forbids. A capability MSR that
/// demands a bit and forbids it at once describes no processor and is left
/// out.
pub proof fn lemma_control_fields_are_permitted(
    capabilities: ControlCapabilities,
    msr_bitmaps_pa: u64,
    eptp: u64,
    encoding: u32,
)
    requires
        capabilities.supports_requested(),
        control_of(encoding) is Some,
        allowed0(capabilities.of(control_of(encoding)->0)) & !allowed1(
            capabilities.of(control_of(encoding)->0),
        ) == 0,
    ensures
        control_field(capabilities, msr_bitmaps_pa, eptp, encoding) is Some,
        ({
            let value = control_field(capabilities, msr_bitmaps_pa, eptp, encoding)->0;
            let capability = capabilities.of(control_of(encoding)->0);
            &&& value <= u32::MAX
            &&& low32(value) | allowed0(capability) == low32(value)
            &&& low32(value) & allowed1(capability) == low32(value)
        }),
{
    let group = control_of(encoding)->0;
    lemma_adjusted_control_is_permitted(group, capabilities.of(group), requested_controls(group));
}

/// Representation of a guest.
pub struct VmxGuest {
    id: usize,
    registers: Registers,
    vmcs: Vmcs,
}

impl VmxGuest {
    /// The guest is well formed: its VMCS is.
    pub closed spec fn wf(&self) -> bool {
        self.vmcs.wf()
    }

    /// The index of the processor that runs the guest.
    pub closed spec fn spec_id(&self) -> usize {
        self.id
    }

    /// The register snapshot.
    pub closed spec fn spec_regs(&self) -> Registers {
        self.registers
    }

    /// The shadow of the guest's VMCS.
    pub closed spec fn spec_vmcs(&self) -> Vmcs {
        self.vmcs
    }

    /// The fields of the guest's VMCS.
    pub open spec fn fields(&self) -> Map<u32, u64> {
        self.spec_vmcs()@
    }

    /// The VMCS was loaded, so that its fields can be programmed.
    pub open spec fn is_active(&self) -> bool {
        self.spec_vmcs().is_current()
    }

    /// The writes to the VMCS that the processor has yet to be told of, in
    /// the order in which they were made.
    pub open spec fn pending(&self) -> Seq<(u32, u64)> {
        self.spec_vmcs().pending()
    }

    /// A guest for the processor with index `id`, on which `IA32_VMX_BASIC`
    /// reads `vmx_basic`. Its VMCS is clear and its registers are zero.
    pub fn new(id: usize, vmx_basic: u64) -> (new_guest: Self)
        ensures
            new_guest.wf(),
            new_guest.spec_id() == id,
            new_guest.spec_regs() == Registers::zeroed(),
            new_guest.spec_vmcs().revision_id() == low32(vmx_basic),
            !new_guest.is_active(),
            new_guest.spec_vmcs().spec_len() == 0,
            new_guest.pending().len() == 0,
            forall|encoding: u32| #[trigger] new_guest.fields()[encoding] == 0,
    {
        Self { id, registers: Registers::default(), vmcs: Vmcs::new(vmx_basic) }
    }

    /// The index of the processor that runs the guest.
    #[verifier::when_used_as_spec(spec_id)]
    pub fn id(&self) -> (id: usize)
        ensures
            id == self.spec_id(),
    {
        self.id
    }

    /// The shadow of the guest's VMCS.
    pub fn vmcs(&self) -> (vmcs: &Vmcs)
        ensures
            *vmcs == self.spec_vmcs(),
    {
        &self.vmcs
    }

    /// Marks the VMCS as active and current, which the caller brings about
    /// with VMPTRLD. Nothing else changes.
    pub fn activate(&mut self)
        requires
            old(self).wf(),
        ensures
            final(self).wf(),
            final(self).is_active(),
            final(self).fields() == old(self).fields(),
            final(self).spec_vmcs().written() == old(self).spec_vmcs().written(),
            final(self).spec_vmcs().revision_id() == old(self).spec_vmcs().revision_id(),
            final(self).pending() == old(self).pending(),
            final(self).spec_regs() == old(self).spec_regs(),
            final(self).spec_id() == old(self).spec_id(),
    {
        self.vmcs.load();
    }

    /// Hands over the pending writes to the VMCS, in their order, for the
    /// caller to carry out with VMWRITE. None is pending after that, and
    /// nothing else changes.
    pub fn take_pending(&mut self) -> (writes: Vec<(u32, u64)>)
        requires
            old(self).wf(),
        ensures
            final(self).wf(),
            writes@ == old(self).pending(),
            final(self).pending().len() == 0,
            final(self).fields() == old(self).fields(),
            final(self).is_active() == old(self).is_active(),
            final(self).spec_vmcs().written() == old(self).spec_vmcs().written(),
            final(self).spec_vmcs().revision_id() == old(self).spec_vmcs().revision_id(),
            final(self).spec_regs() == old(self).spec_regs(),
            final(self).spec_id() == old(self).spec_id(),
    {
        self.vmcs.take_pending()
    }

    /// The register snapshot, for the layer that emulates instructions.
    pub fn regs(&mut self) -> (registers: &mut Registers)
        ensures
            *registers == old(self).spec_regs(),
            final(self).spec_regs() == *final(registers),
            final(self).spec_vmcs() == old(self).spec_vmcs(),
            final(self).spec_id() == old(self).spec_id(),
            final(self).wf() == old(self).wf(),
    {
        &mut self.registers
    }

    /// Reconciles `requested_value` with `capabilities`, the value of the MSR
    /// that [`capability_msr`](crate::intel::controls::capability_msr) names for
    /// `control`, or returns `None` where the
    /// processor cannot grant the request.
    pub fn try_adjust_vmx_control(
        control: VmxControl, capabilities: u64, requested_value: u64) -> (effective: Option<u64>)
        ensures
            control_supported(control, capabilities, requested_value) ==> effective == Some(
                adjusted_control(control, capabilities, requested_value),
            ),
            !control_supported(control, capabilities, requested_value) ==> effective is None,
    {
        match control {
            VmxControl::ProcessorBased3 => {
                let effective_value = requested_value & capabilities;
                if effective_value | requested_value == effective_value {
                    Some(effective_value)
                } else {
                    None
                }
            },
            _ => {
                if requested_value > 0xffff_ffff {
                    return None;
                }
                let allowed0 = low32(capabilities);
                let allowed1 = high32(capabilities);
                let requested = low32(requested_value);
                let effective_value = (requested | allowed0) & allowed1;
                if effective_value | requested == effective_value {
                    Some(effective_value as u64)
                } else {
                    None
                }
            },
        }
    }

    /// Reconciles `requested_value` with `capabilities`, the value of the MSR
    /// that [`capability_msr`](crate::intel::controls::capability_msr) names for
    /// `control`.
    pub fn adjust_vmx_control(
        control: VmxControl,
        capabilities: u64,
        requested_value: u64,
    ) -> (effective: u64)
        requires
            control_supported(control, capabilities, requested_value),
        ensures
            effective == adjusted_control(control, capabilities, requested_value),
    {
        match control {
            VmxControl::ProcessorBased3 => requested_value & capabilities,
            _ => {
                let allowed0 = low32(capabilities);
                let allowed1 = high32(capabilities);
                let requested = low32(requested_value);
                let effective_value = (requested | allowed0) & allowed1;
                effective_value as u64
            },
        }
    }

    /// Returns access rights in the format that the VMCS expects.
    pub fn access_rights(native: u32) -> (vmx: u32)
        ensures
            vmx == spec_access_rights(native),
            vmx == if native == 0 {
                VMX_SEGMENT_ACCESS_RIGHTS_UNUSABLE_FLAG as int
            } else {
                (native / 0x100) % 0x100 + ((native / 0x10_0000) % 0x10) * 0x1000
            },
    {
        proof {
            reveal(spec_access_rights);
        }
        if native == 0 {
            return VMX_SEGMENT_ACCESS_RIGHTS_UNUSABLE_FLAG;
        }
        proof {
            lemma_access_rights_by_mask(native);
        }
        (native >> 8) & VMX_SEGMENT_ACCESS_RIGHTS_MASK

    }

    /// Initializes the control fields of the VMCS: each group of controls with
    /// what the hypervisor asks for, adjusted to the processor's
    /// capabilities, then the addresses of the MSR bitmaps and of the
    /// extended page tables. No other field changes.
    pub fn initialize_control(
        &mut self,
        capabilities: &ControlCapabilities,
        msr_bitmaps_pa: u64,
        eptp: u64,
    )
        requires
            old(self).wf(),
            old(self).is_active(),
            capabilities.supports_requested(),
        ensures
            final(self).wf(),
            final(self).is_active(),
            final(self).spec_regs() == old(self).spec_regs(),
            final(self).spec_id() == old(self).spec_id(),
            final(self).spec_vmcs().revision_id() == old(self).spec_vmcs().revision_id(),
            final(self).pending() == old(self).pending() + control_writes(
                *capabilities,
                msr_bitmaps_pa,
                eptp,
            ),
            forall|encoding: u32|
                #[trigger] final(self).fields()[encoding] == written_or(
                    control_field(*capabilities, msr_bitmaps_pa, eptp, encoding),
                    old(self).fields()[encoding],
                ),
    {
        self.vmcs.write(
            control::VMEXIT_CONTROLS,
            Self::adjust_vmx_control(
                VmxControl::VmExit,
                capabilities.vm_exit,
                control::EXIT_HOST_ADDRESS_SPACE_SIZE,
            ),
        );
        self.vmcs.write(
            control::VMENTRY_CONTROLS,
            Self::adjust_vmx_control(
                VmxControl::VmEntry,
                capabilities.vm_entry,
                control::ENTRY_IA32E_MODE_GUEST,
            ),
        );
        self.vmcs.write(
            control::PINBASED_EXEC_CONTROLS,
            Self::adjust_vmx_control(VmxControl::PinBased, capabilities.pin_based, 0),
        );
        self.vmcs.write(
            control::PRIMARY_PROCBASED_EXEC_CONTROLS,
            Self::adjust_vmx_control(
                VmxControl::ProcessorBased,
                capabilities.processor_based,
                control::PRIMARY_USE_MSR_BITMAPS | control::PRIMARY_SECONDARY_CONTROLS,
            ),
        );
        self.vmcs.write(
            control::SECONDARY_PROCBASED_EXEC_CONTROLS,
            Self::adjust_vmx_control(
                VmxControl::ProcessorBased2,
                capabilities.processor_based2,
                control::SECONDARY_ENABLE_EPT | control::SECONDARY_UNRESTRICTED_GUEST
                    | control::SECONDARY_ENABLE_RDTSCP | control::SECONDARY_ENABLE_INVPCID
                    | control::SECONDARY_ENABLE_XSAVES_XRSTORS,
            ),
        );
        self.vmcs.write(control::MSR_BITMAPS_ADDR_FULL, msr_bitmaps_pa);
        self.vmcs.write(control::EPTP_FULL, eptp);
    }
    /// Writes the selectors and limits of the guest's segment registers.
    fn initialize_guest_segments(&mut self, state: &ProcessorState)
        requires
            old(self).wf(),
        ensures
            final(self).wf(),
            final(self).is_active() == old(self).is_active(),
            final(self).spec_regs() == old(self).spec_regs(),
            final(self).spec_id() == old(self).spec_id(),
            final(self).spec_vmcs().revision_id() == old(self).spec_vmcs().revision_id(),
            final(self).pending() == old(self).pending() + guest_segment_writes(*state),
            forall|encoding: u32|
                #[trigger] final(self).fields()[encoding] == written_or(
                    guest_segment_field(*state, encoding),
                    old(self).fields()[encoding],
                ),
    {
        self.vmcs.write(guest::ES_SELECTOR, state.es.selector as u64);
        self.vmcs.write(guest::CS_SELECTOR, state.cs.selector as u64);
        self.vmcs.write(guest::SS_SELECTOR, state.ss.selector as u64);
        self.vmcs.write(guest::DS_SELECTOR, state.ds.selector as u64);
        self.vmcs.write(guest::FS_SELECTOR, state.fs.selector as u64);
        self.vmcs.write(guest::GS_SELECTOR, state.gs.selector as u64);
        self.vmcs.write(guest::TR_SELECTOR, state.tr.selector as u64);
        self.vmcs.write(guest::LDTR_SELECTOR, state.ldtr.selector as u64);

        self.vmcs.write(guest::ES_LIMIT, state.es.limit as u64);
        self.vmcs.write(guest::CS_LIMIT, state.cs.limit as u64);
        self.vmcs.write(guest::SS_LIMIT, state.ss.limit as u64);
        self.vmcs.write(guest::DS_LIMIT, state.ds.limit as u64);
        self.vmcs.write(guest::FS_LIMIT, state.fs.limit as u64);
        self.vmcs.write(guest::GS_LIMIT, state.gs.limit as u64);
        self.vmcs.write(guest::TR_LIMIT, state.tr.limit as u64);
        self.vmcs.write(guest::LDTR_LIMIT, state.ldtr.limit as u64);
    }

    /// Writes the access rights and bases of the guest's segment registers.
    fn initialize_guest_segment_attributes(&mut self, state: &ProcessorState)
        requires
            old(self).wf(),
        ensures
            final(self).wf(),
            final(self).is_active() == old(self).is_active(),
            final(self).spec_regs() == old(self).spec_regs(),
            final(self).spec_id() == old(self).spec_id(),
            final(self).spec_vmcs().revision_id() == old(self).spec_vmcs().revision_id(),
            final(self).pending() == old(self).pending() + guest_segment_attribute_writes(*state),
            forall|encoding: u32|
                #[trigger] final(self).fields()[encoding] == written_or(
                    guest_segment_attribute_field(*state, encoding),
                    old(self).fields()[encoding],
                ),
    {
        self.vmcs.write(
            guest::ES_ACCESS_RIGHTS,
            Self::access_rights(state.es.access_rights) as u64,
        );
        self.vmcs.write(
            guest::CS_ACCESS_RIGHTS,
            Self::access_rights(state.cs.access_rights) as u64,
        );
        self.vmcs.write(
            guest::SS_ACCESS_RIGHTS,
            Self::access_rights(state.ss.access_rights) as u64,
        );
        self.vmcs.write(
            guest::DS_ACCESS_RIGHTS,
            Self::access_rights(state.ds.access_rights) as u64,
        );
        self.vmcs.write(
            guest::FS_ACCESS_RIGHTS,
            Self::access_rights(state.fs.access_rights) as u64,
        );
        self.vmcs.write(
            guest::GS_ACCESS_RIGHTS,
            Self::access_rights(state.gs.access_rights) as u64,
        );
        self.vmcs.write(
            guest::TR_ACCESS_RIGHTS,
            Self::access_rights(state.tr.access_rights) as u64,
        );
        self.vmcs.write(
            guest::LDTR_ACCESS_RIGHTS,
            Self::access_rights(state.ldtr.access_rights) as u64,
        );

        // In 64-bit mode the bases of these four segments count as zero.
        self.vmcs.write(guest::ES_BASE, 0);
        self.vmcs.write(guest::CS_BASE, 0);
        self.vmcs.write(guest::SS_BASE, 0);
        self.vmcs.write(guest::DS_BASE, 0);
        self.vmcs.write(guest::FS_BASE, state.fs_base);
        self.vmcs.write(guest::GS_BASE, state.gs_base);
        self.vmcs.write(guest::TR_BASE, state.tr_base);
    }

    /// Writes the guest-state fields that hold no part of a segment register.
    fn initialize_guest_registers(&mut self, state: &ProcessorState)
        requires
            old(self).wf(),
        ensures
            final(self).wf(),
            final(self).is_active() == old(self).is_active(),
            final(self).spec_regs() == old(self).spec_regs(),
            final(self).spec_id() == old(self).spec_id(),
            final(self).spec_vmcs().revision_id() == old(self).spec_vmcs().revision_id(),
            final(self).pending() == old(self).pending() + guest_register_writes(
                *state,
                old(self).spec_regs(),
            ),
            forall|encoding: u32|
                #[trigger] final(self).fields()[encoding] == written_or(
                    guest_register_field(*state, old(self).spec_regs(), encoding),
                    old(self).fields()[encoding],
                ),
    {
        self.vmcs.write(guest::GDTR_BASE, state.gdtr_base);
        self.vmcs.write(guest::GDTR_LIMIT, state.gdtr_limit as u64);
        self.vmcs.write(guest::IDTR_BASE, state.idtr_base);
        self.vmcs.write(guest::IDTR_LIMIT, state.idtr_limit as u64);

        self.vmcs.write(guest::IA32_SYSENTER_CS, state.sysenter_cs);
        self.vmcs.write(guest::IA32_SYSENTER_EIP, state.sysenter_eip);
        self.vmcs.write(guest::IA32_SYSENTER_ESP, state.sysenter_esp);

        // Without VMCS shadowing the link pointer has to be all ones, or VM
        // entry fails.
        self.vmcs.write(guest::LINK_PTR_FULL, u64::MAX);

        self.vmcs.write(guest::CR0, state.cr0);
        self.vmcs.write(guest::CR3, state.cr3);
        self.vmcs.write(guest::CR4, state.cr4);
        self.vmcs.write(guest::RSP, self.registers.rsp);
        self.vmcs.write(guest::RIP, self.registers.rip);
        self.vmcs.write(guest::RFLAGS, self.registers.rflags);
    }

    /// Initializes the guest-state fields of the VMCS from the state of the
    /// processor and from the register snapshot, so that the guest continues
    /// where the running system is. The bases of ES, CS, SS and DS are zero
    /// and the VMCS link pointer is all ones. No other field changes.
    pub fn initialize_guest(&mut self, state: &ProcessorState)
        requires
            old(self).wf(),
            old(self).is_active(),
        ensures
            final(self).wf(),
            final(self).is_active(),
            final(self).spec_regs() == old(self).spec_regs(),
            final(self).spec_id() == old(self).spec_id(),
            final(self).spec_vmcs().revision_id() == old(self).spec_vmcs().revision_id(),
            final(self).pending() == old(self).pending() + guest_state_writes(
                *state,
                old(self).spec_regs(),
            ),
            forall|encoding: u32|
                #[trigger] final(self).fields()[encoding] == written_or(
                    guest_state_field(*state, old(self).spec_regs(), encoding),
                    old(self).fields()[encoding],
                ),
            final(self).fields()[guest::LINK_PTR_FULL] == u64::MAX,
    {
        self.initialize_guest_segments(state);
        self.initialize_guest_segment_attributes(state);
        self.initialize_guest_registers(state);
    }

    /// Initializes the host-state fields of the VMCS from the state of the
    /// processor, with the page tables, descriptor tables and task state
    /// segment of `shared_host` where it holds any. Every selector is written
    /// with its low three bits clear. No other field changes.
    pub fn initialize_host(&mut self, state: &ProcessorState, shared_host: &SharedHostData)
        requires
            old(self).wf(),
            old(self).is_active(),
            shared_host.serves(old(self).spec_id()),
        ensures
            final(self).wf(),
            final(self).is_active(),
            final(self).spec_regs() == old(self).spec_regs(),
            final(self).spec_id() == old(self).spec_id(),
            final(self).spec_vmcs().revision_id() == old(self).spec_vmcs().revision_id(),
            final(self).pending() == old(self).pending() + host_state_writes(
                *state,
                *shared_host,
                old(self).spec_id(),
            ),
            forall|encoding: u32|
                #[trigger] final(self).fields()[encoding] == written_or(
                    host_state_field(*state, *shared_host, old(self).spec_id(), encoding),
                    old(self).fields()[encoding],
                ),
            forall|encoding: u32|
                is_host_selector_field(encoding) ==> #[trigger] final(self).fields()[encoding]
                    & 0b111 == 0,
    {
        // Use a custom CR3 if specified. Otherwise, use the current.
        let cr3 = match shared_host.pt {
            Some(host_pt) => host_pt,
            None => state.cr3,
        };

        // Use a custom GDT, TR, and TSS if specified. Otherwise, use the current.
        let (gdt_base, tr, tss_base) = match &shared_host.gdts {
            Some(host_gdt_and_tss) => {
                let gdt_base = host_gdt_and_tss[self.id].gdt_base;
                let tr = host_gdt_and_tss[self.id].tr.unwrap();
                let tss_base = host_gdt_and_tss[self.id].tss_base.unwrap();
                (gdt_base, tr, tss_base)
            },
            None => (state.gdtr_base, state.tr.selector, state.tr_base),
        };

        // Use a custom IDT if specified. Otherwise, use the current.
        let idt_base = match shared_host.idt {
            Some(host_idt) => host_idt,
            None => state.idtr_base,
        };

        self.vmcs.write(host::ES_SELECTOR, host_selector(state.es.selector));
        self.vmcs.write(host::CS_SELECTOR, host_selector(state.cs.selector));
        self.vmcs.write(host::SS_SELECTOR, host_selector(state.ss.selector));
        self.vmcs.write(host::DS_SELECTOR, host_selector(state.ds.selector));
        self.vmcs.write(host::FS_SELECTOR, host_selector(state.fs.selector));
        self.vmcs.write(host::GS_SELECTOR, host_selector(state.gs.selector));
        self.vmcs.write(host::TR_SELECTOR, host_selector(tr));

        self.vmcs.write(host::CR0, state.cr0);
        self.vmcs.write(host::CR3, cr3);
        self.vmcs.write(host::CR4, state.cr4);

        self.vmcs.write(host::FS_BASE, state.fs_base);
        self.vmcs.write(host::GS_BASE, state.gs_base);
        self.vmcs.write(host::TR_BASE, tss_base);
        self.vmcs.write(host::GDTR_BASE, gdt_base);
        self.vmcs.write(host::IDTR_BASE, idt_base);
    }

    /// Takes `registers` as the snapshot and programs the control, guest-state
    /// and host-state fields of the VMCS, in this order.
    pub fn initialize(
        &mut self,
        registers: &Registers,
        capabilities: &ControlCapabilities,
        msr_bitmaps_pa: u64,
        eptp: u64,
        state: &ProcessorState,
        shared_host: &SharedHostData,
    )
        requires
            old(self).wf(),
            old(self).is_active(),
            capabilities.supports_requested(),
            shared_host.serves(old(self).spec_id()),
        ensures
            final(self).wf(),
            final(self).is_active(),
            final(self).spec_regs() == *registers,
            final(self).spec_id() == old(self).spec_id(),
            final(self).spec_vmcs().revision_id() == old(self).spec_vmcs().revision_id(),
            final(self).pending() == old(self).pending() + control_writes(
                *capabilities,
                msr_bitmaps_pa,
                eptp,
            ) + guest_state_writes(*state, *registers) + host_state_writes(
                *state,
                *shared_host,
                old(self).spec_id(),
            ),
            forall|encoding: u32|
                #[trigger] final(self).fields()[encoding] == written_or(
                    host_state_field(*state, *shared_host, old(self).spec_id(), encoding),
                    written_or(
                        guest_state_field(*state, *registers, encoding),
                        written_or(
                            control_field(*capabilities, msr_bitmaps_pa, eptp, encoding),
                            old(self).fields()[encoding],
                        ),
                    ),
                ),
            final(self).fields()[guest::LINK_PTR_FULL] == u64::MAX,
            forall|encoding: u32|
                is_host_selector_field(encoding) ==> #[trigger] final(self).fields()[encoding]
                    & 0b111 == 0,
    {
        self.registers = *registers;
        self.initialize_control(capabilities, msr_bitmaps_pa, eptp);
        self.initialize_guest(state);
        self.initialize_host(state, shared_host);
    }
    /// Writes the instruction pointer, the flags and the control registers
    /// of a guest that received INIT.
    fn reset_guest_registers(&mut self, processor: &Processor)
        requires
            old(self).wf(),
        ensures
            final(self).wf(),
            final(self).is_active() == old(self).is_active(),
            final(self).spec_regs() == old(self).spec_regs(),
            final(self).spec_id() == old(self).spec_id(),
            final(self).spec_vmcs().revision_id() == old(self).spec_vmcs().revision_id(),
            final(self).pending() == old(self).pending() + init_register_writes(
                *processor,
                old(self).fields()[control::SECONDARY_PROCBASED_EXEC_CONTROLS],
            ),
            forall|encoding: u32|
                #[trigger] final(self).fields()[encoding] == written_or(
                    init_register_field(
                        *processor,
                        old(self).fields()[control::SECONDARY_PROCBASED_EXEC_CONTROLS],
                        encoding,
                    ),
                    old(self).fields()[encoding],
                ),
    {
        self.vmcs.write(guest::RFLAGS, RFLAGS_RESERVED_ONE);
        self.vmcs.write(guest::RIP, RESET_RIP);

        self.vmcs.write(guest::CR3, 0);
        self.vmcs.write(control::CR0_READ_SHADOW, 0);
        self.vmcs.write(control::CR4_READ_SHADOW, 0);

        // Actual guest CR0 and CR4 must fulfill requirements for VMX. Apply those.
        let secondary_controls = self.vmcs.read(control::SECONDARY_PROCBASED_EXEC_CONTROLS);
        self.vmcs.write(
            guest::CR0,
            get_adjusted_guest_cr0(
                CR0_EXTENSION_TYPE,
                processor.cr0_fixed0,
                processor.cr0_fixed1,
                secondary_controls,
            ),
        );
        self.vmcs.write(
            guest::CR4,
            get_adjusted_guest_cr4(0, processor.cr4_fixed0, processor.cr4_fixed1),
        );
    }

    /// Writes the code segment and the five data segments of a guest that
    /// received INIT.
    fn reset_guest_segments(&mut self)
        requires
            old(self).wf(),
        ensures
            final(self).wf(),
            final(self).is_active() == old(self).is_active(),
            final(self).spec_regs() == old(self).spec_regs(),
            final(self).spec_id() == old(self).spec_id(),
            final(self).spec_vmcs().revision_id() == old(self).spec_vmcs().revision_id(),
            final(self).pending() == old(self).pending() + init_segment_writes(),
            forall|encoding: u32|
                #[trigger] final(self).fields()[encoding] == written_or(
                    init_segment_field(encoding),
                    old(self).fields()[encoding],
                ),
    {
        proof {
            VmxSegmentAccessRights::lemma_reset_access_rights();
        }
        let mut access_rights = VmxSegmentAccessRights(0);
        access_rights.set_segment_type(CODE_SEGMENT_EXECUTE_READ_ACCESSED);
        access_rights.set_descriptor_type(true);
        access_rights.set_present(true);
        assert(access_rights.0 == VmxSegmentAccessRights::composed(
            CODE_SEGMENT_EXECUTE_READ_ACCESSED,
            true,
            true,
        ));

        self.vmcs.write(guest::CS_SELECTOR, 0xf000);
        self.vmcs.write(guest::CS_BASE, 0xffff_0000);
        self.vmcs.write(guest::CS_LIMIT, RESET_LIMIT);
        self.vmcs.write(guest::CS_ACCESS_RIGHTS, access_rights.0 as u64);

        access_rights.set_segment_type(DATA_SEGMENT_READ_WRITE_ACCESSED);
        assert(access_rights.0 == VmxSegmentAccessRights::composed(
            DATA_SEGMENT_READ_WRITE_ACCESSED,
            true,
            true,
        ));
        self.vmcs.write(guest::SS_SELECTOR, 0);
        self.vmcs.write(guest::SS_BASE, 0);
        self.vmcs.write(guest::SS_LIMIT, RESET_LIMIT);
        self.vmcs.write(guest::SS_ACCESS_RIGHTS, access_rights.0 as u64);

        self.vmcs.write(guest::DS_SELECTOR, 0);
        self.vmcs.write(guest::DS_BASE, 0);
        self.vmcs.write(guest::DS_LIMIT, RESET_LIMIT);
        self.vmcs.write(guest::DS_ACCESS_RIGHTS, access_rights.0 as u64);

        self.vmcs.write(guest::ES_SELECTOR, 0);
        self.vmcs.write(guest::ES_BASE, 0);
        self.vmcs.write(guest::ES_LIMIT, RESET_LIMIT);
        self.vmcs.write(guest::ES_ACCESS_RIGHTS, access_rights.0 as u64);

        self.vmcs.write(guest::FS_SELECTOR, 0);
        self.vmcs.write(guest::FS_BASE, 0);
        self.vmcs.write(guest::FS_LIMIT, RESET_LIMIT);
        self.vmcs.write(guest::FS_ACCESS_RIGHTS, access_rights.0 as u64);

        self.vmcs.write(guest::GS_SELECTOR, 0);
        self.vmcs.write(guest::GS_BASE, 0);
        self.vmcs.write(guest::GS_LIMIT, RESET_LIMIT);
        self.vmcs.write(guest::GS_ACCESS_RIGHTS, access_rights.0 as u64);
    }

    /// Writes the stack pointer, the descriptor tables, LDTR and TR of a
    /// guest that received INIT.
    fn reset_guest_tables(&mut self)
        requires
            old(self).wf(),
        ensures
            final(self).wf(),
            final(self).is_active() == old(self).is_active(),
            final(self).spec_regs() == old(self).spec_regs(),
            final(self).spec_id() == old(self).spec_id(),
            final(self).spec_vmcs().revision_id() == old(self).spec_vmcs().revision_id(),
            final(self).pending() == old(self).pending() + init_table_writes(),
            forall|encoding: u32|
                #[trigger] final(self).fields()[encoding] == written_or(
                    init_table_field(encoding),
                    old(self).fields()[encoding],
                ),
    {
        proof {
            VmxSegmentAccessRights::lemma_reset_access_rights();
        }
        self.vmcs.write(guest::RSP, 0);

        self.vmcs.write(guest::GDTR_BASE, 0);
        self.vmcs.write(guest::GDTR_LIMIT, RESET_LIMIT);
        self.vmcs.write(guest::IDTR_BASE, 0);
        self.vmcs.write(guest::IDTR_LIMIT, RESET_LIMIT);

        let mut access_rights = VmxSegmentAccessRights(0x93);
        access_rights.set_segment_type(SYSTEM_DESCRIPTOR_LDT);
        access_rights.set_descriptor_type(false);
        assert(access_rights.0 == VmxSegmentAccessRights::composed(
            SYSTEM_DESCRIPTOR_LDT,
            false,
            true,
        ));
        self.vmcs.write(guest::LDTR_SELECTOR, 0);
        self.vmcs.write(guest::LDTR_BASE, 0);
        self.vmcs.write(guest::LDTR_LIMIT, RESET_LIMIT);
        self.vmcs.write(guest::LDTR_ACCESS_RIGHTS, access_rights.0 as u64);

        access_rights.set_segment_type(SYSTEM_DESCRIPTOR_TSS_BUSY);
        assert(access_rights.0 == VmxSegmentAccessRights::composed(
            SYSTEM_DESCRIPTOR_TSS_BUSY,
            false,
            true,
        ));
        self.vmcs.write(guest::TR_SELECTOR, 0);
        self.vmcs.write(guest::TR_BASE, 0);
        self.vmcs.write(guest::TR_LIMIT, RESET_LIMIT);
        self.vmcs.write(guest::TR_ACCESS_RIGHTS, access_rights.0 as u64);
    }

    /// Takes a guest that received INIT out of IA-32e mode and leaves it
    /// waiting for a startup IPI.
    fn reset_guest_mode(&mut self)
        requires
            old(self).wf(),
        ensures
            final(self).wf(),
            final(self).is_active() == old(self).is_active(),
            final(self).spec_regs() == old(self).spec_regs(),
            final(self).spec_id() == old(self).spec_id(),
            final(self).spec_vmcs().revision_id() == old(self).spec_vmcs().revision_id(),
            final(self).pending() == old(self).pending() + init_mode_writes(
                old(self).fields()[control::VMENTRY_CONTROLS],
            ),
            forall|encoding: u32|
                #[trigger] final(self).fields()[encoding] == written_or(
                    init_mode_field(old(self).fields()[control::VMENTRY_CONTROLS], encoding),
                    old(self).fields()[encoding],
                ),
    {
        self.vmcs.write(guest::IA32_EFER_FULL, 0);
        self.vmcs.write(guest::FS_BASE, 0);
        self.vmcs.write(guest::GS_BASE, 0);

        let mut vmentry_controls = self.vmcs.read(control::VMENTRY_CONTROLS);
        proof {
            lemma_bits(vmentry_controls);
        }
        vmentry_controls = vmentry_controls & !control::ENTRY_IA32E_MODE_GUEST;
        self.vmcs.write(control::VMENTRY_CONTROLS, vmentry_controls);

        // A processor that received INIT waits for a startup IPI.
        self.vmcs.write(guest::ACTIVITY_STATE, GuestActivityState::WaitForSipi.value());
    }

    /// Handles VM-exit due to the INIT signal: brings the guest to the state
    /// of a processor after INIT and leaves it waiting for a startup IPI.
    /// CR0 and CR4 of the guest meet the VMX-fixed bits, except that an
    /// unrestricted guest starts unpaged and in real mode; the guest leaves
    /// IA-32e mode. No field changes but those of the reset.
    pub fn handle_init_signal(&mut self, processor: &Processor)
        requires
            old(self).wf(),
            old(self).is_active(),
        ensures
            final(self).wf(),
            final(self).is_active(),
            final(self).spec_id() == old(self).spec_id(),
            final(self).spec_vmcs().revision_id() == old(self).spec_vmcs().revision_id(),
            final(self).pending() == old(self).pending() + init_signal_writes(
                *processor,
                old(self).fields()[control::SECONDARY_PROCBASED_EXEC_CONTROLS],
                old(self).fields()[control::VMENTRY_CONTROLS],
            ),
            final(self).spec_regs() == reset_registers(processor.extended_model_id),
            forall|encoding: u32|
                #[trigger] final(self).fields()[encoding] == written_or(
                    init_signal_field(
                        *processor,
                        old(self).fields()[control::SECONDARY_PROCBASED_EXEC_CONTROLS],
                        old(self).fields()[control::VMENTRY_CONTROLS],
                        encoding,
                    ),
                    old(self).fields()[encoding],
                ),
    {
        self.registers.rflags = RFLAGS_RESERVED_ONE;
        self.registers.rip = RESET_RIP;
        self.reset_guest_registers(processor);
        let ghost after_registers = self.fields();
        self.reset_guest_segments();
        let ghost after_segments = self.fields();

        let extended_model_id = processor.extended_model_id as u64;
        assert(0x600u64 | (extended_model_id << 16) == 0x600 + extended_model_id * 0x1_0000)
            by (bit_vector)
            requires
                extended_model_id <= 0xff,
        ;
        self.registers.rdx = 0x600u64 | (extended_model_id << 16);
        self.registers.rax = 0;
        self.registers.rbx = 0;
        self.registers.rcx = 0;
        self.registers.rsi = 0;
        self.registers.rdi = 0;
        self.registers.rbp = 0;
        self.registers.rsp = 0;
        self.reset_guest_tables();
        let ghost after_tables = self.fields();

        self.registers.r8 = 0;
        self.registers.r9 = 0;
        self.registers.r10 = 0;
        self.registers.r11 = 0;
        self.registers.r12 = 0;
        self.registers.r13 = 0;
        self.registers.r14 = 0;
        self.registers.r15 = 0;
        self.reset_guest_mode();
        proof {
            let before = old(self).fields();
            let secondary_controls = before[control::SECONDARY_PROCBASED_EXEC_CONTROLS];
            let entry_controls = before[control::VMENTRY_CONTROLS];
            assert(after_registers[control::VMENTRY_CONTROLS] == entry_controls);
            assert(after_segments[control::VMENTRY_CONTROLS] == entry_controls);
            assert(after_tables[control::VMENTRY_CONTROLS] == entry_controls);
            assert forall|encoding: u32| #[trigger]
                self.fields()[encoding] == written_or(
                    init_signal_field(*processor, secondary_controls, entry_controls, encoding),
                    before[encoding],
                ) by {
                assert(after_registers[encoding] == written_or(
                    init_register_field(*processor, secondary_controls, encoding),
                    before[encoding],
                ));
                assert(after_segments[encoding] == written_or(
                    init_segment_field(encoding),
                    after_registers[encoding],
                ));
                assert(after_tables[encoding] == written_or(
                    init_table_field(encoding),
                    after_segments[encoding],
                ));
            }
            assert(self.pending() =~= old(self).pending() + init_signal_writes(
                *processor,
                secondary_controls,
                entry_controls,
            ));
        }
    }

    /// Handles VM-exit due to the Startup-IPI (SIPI) signal: the guest
    /// starts at offset zero of the page that the vector in
    /// `exit_qualification` names, and is active. No other field and no other
    /// register changes.
    pub fn handle_sipi_signal(&mut self, exit_qualification: u64)
        requires
            old(self).wf(),
            old(self).is_active(),
        ensures
            final(self).wf(),
            final(self).is_active(),
            final(self).spec_id() == old(self).spec_id(),
            final(self).spec_vmcs().revision_id() == old(self).spec_vmcs().revision_id(),
            final(self).pending() == old(self).pending() + sipi_signal_writes(exit_qualification),
            final(self).spec_regs() == (Registers { rip: 0, ..old(self).spec_regs() }),
            forall|encoding: u32|
                #[trigger] final(self).fields()[encoding] == written_or(
                    sipi_signal_field(exit_qualification, encoding),
                    old(self).fields()[encoding],
                ),
    {
        let vector = exit_qualification & 0xff;
        assert(vector == exit_qualification % 0x100 && vector << 8 == vector * 0x100 && vector
            << 12 == vector * 0x1000) by (bit_vector)
            requires
                vector == exit_qualification & 0xff,
        ;
        self.vmcs.write(guest::CS_SELECTOR, vector << 8);
        self.vmcs.write(guest::CS_BASE, vector << 12);
        self.registers.rip = 0;
        self.vmcs.write(guest::RIP, self.registers.rip);

        // A second startup IPI will find the guest active and be discarded.
        self.vmcs.write(guest::ACTIVITY_STATE, GuestActivityState::Active.value());
    }
    /// Prepares a VM entry: RIP, RSP and RFLAGS of the snapshot, which the
    /// layer above may have changed, go to the guest-state fields. No other
    /// field changes.
    pub fn enter(&mut self)
        requires
            old(self).wf(),
            old(self).is_active(),
        ensures
            final(self).wf(),
            final(self).is_active(),
            final(self).spec_id() == old(self).spec_id(),
            final(self).spec_vmcs().revision_id() == old(self).spec_vmcs().revision_id(),
            final(self).pending() == old(self).pending() + entry_writes(old(self).spec_regs()),
            final(self).spec_regs() == old(self).spec_regs(),
            forall|encoding: u32|
                #[trigger] final(self).fields()[encoding] == written_or(
                    entry_field(old(self).spec_regs(), encoding),
                    old(self).fields()[encoding],
                ),
    {
        self.vmcs.write(guest::RIP, self.registers.rip);
        self.vmcs.write(guest::RSP, self.registers.rsp);
        self.vmcs.write(guest::RFLAGS, self.registers.rflags);
    }

    /// Handles the VM exit that ended a run of the guest, and reports why the
    /// guest stopped. RIP, RSP and RFLAGS of the snapshot become what the
    /// processor saved. An INIT signal resets the guest and a startup IPI
    /// starts it; for an intercepted instruction nothing else changes, and
    /// the report carries the address of the instruction after it.
    pub fn run(&mut self, exit: &VmExit, processor: &Processor) -> (reason: VmExitReason)
        requires
            old(self).wf(),
            old(self).is_active(),
            exit.error() is None,
        ensures
            final(self).wf(),
            final(self).is_active(),
            final(self).spec_id() == old(self).spec_id(),
            final(self).spec_vmcs().revision_id() == old(self).spec_vmcs().revision_id(),
            final(self).pending() == old(self).pending() + exit.writes_after(
                *processor,
                old(self).fields(),
            ),
            reason == exit.reported(),
            final(self).spec_regs() == exit.registers_after(*processor, old(self).spec_regs()),
            forall|encoding: u32|
                #[trigger] final(self).fields()[encoding] == exit.field_after(
                    *processor,
                    old(self).fields(),
                    encoding,
                ),
    {
        self.registers.rip = exit.guest_rip;
        self.registers.rsp = exit.guest_rsp;
        self.registers.rflags = exit.guest_rflags;
        self.vmcs.record(guest::RIP, self.registers.rip);
        self.vmcs.record(guest::RSP, self.registers.rsp);
        self.vmcs.record(guest::RFLAGS, self.registers.rflags);

        let basic = basic_exit_reason(exit.exit_reason);
        if basic == VMX_EXIT_REASON_INIT {
            self.handle_init_signal(processor);
            VmExitReason::InitSignal
        } else if basic == VMX_EXIT_REASON_SIPI {
            self.handle_sipi_signal(exit.exit_qualification);
            VmExitReason::StartupIpi
        } else if basic == VMX_EXIT_REASON_CPUID {
            VmExitReason::Cpuid(
                InstructionInfo { next_rip: self.registers.rip + exit.instruction_len },
            )
        } else if basic == VMX_EXIT_REASON_RDMSR {
            VmExitReason::Rdmsr(
                InstructionInfo { next_rip: self.registers.rip + exit.instruction_len },
            )
        } else if basic == VMX_EXIT_REASON_WRMSR {
            VmExitReason::Wrmsr(
                InstructionInfo { next_rip: self.registers.rip + exit.instruction_len },
            )
        } else {
            VmExitReason::XSetBv(
                InstructionInfo { next_rip: self.registers.rip + exit.instruction_len },
            )
        }
    }

    /// Handles the VM exit that ended a run of the guest, as [`Self::run`]
    /// does, where nothing stands in the way; otherwise says what does and
    /// leaves the guest as it was.
    pub fn try_run(&mut self, exit: &VmExit, processor: &Processor) -> (outcome: Result<
        VmExitReason,
        RunError,
    >)
        requires
            old(self).wf(),
            old(self).is_active(),
        ensures
            final(self).wf(),
            final(self).is_active(),
            final(self).spec_id() == old(self).spec_id(),
            final(self).spec_vmcs().revision_id() == old(self).spec_vmcs().revision_id(),
            match exit.error() {
                Some(error) => {
                    &&& outcome == Err::<VmExitReason, RunError>(error)
                    &&& final(self).spec_regs() == old(self).spec_regs()
                    &&& final(self).fields() == old(self).fields()
                    &&& final(self).pending() == old(self).pending()
                },
                None => {
                    &&& outcome == Ok::<VmExitReason, RunError>(exit.reported())
                    &&& final(self).pending() == old(self).pending() + exit.writes_after(
                        *processor,
                        old(self).fields(),
                    )
                },
            },
            exit.error() is None ==> final(self).spec_regs() == exit.registers_after(
                *processor,
                old(self).spec_regs(),
            ),
            exit.error() is None ==> forall|encoding: u32|
                #[trigger] final(self).fields()[encoding] == exit.field_after(
                    *processor,
                    old(self).fields(),
                    encoding,
                ),
    {
        match vmx_succeed(exit.flags, exit.instruction_error) {
            Err(failure) => {
                return Err(RunError::EntryFailed(failure));
            },
            Ok(_) => {},
        }
        let basic = basic_exit_reason(exit.exit_reason);
        let instruction = basic == VMX_EXIT_REASON_CPUID || basic == VMX_EXIT_REASON_RDMSR || basic
            == VMX_EXIT_REASON_WRMSR || basic == VMX_EXIT_REASON_XSETBV;
        if !instruction && basic != VMX_EXIT_REASON_INIT && basic != VMX_EXIT_REASON_SIPI {
            return Err(RunError::UnhandledExit(basic));
        }
        if instruction && exit.instruction_len > u64::MAX - exit.guest_rip {
            return Err(RunError::InstructionBeyondAddressSpace);
        }
        Ok(self.run(exit, processor))
    }
}

} // verus!
