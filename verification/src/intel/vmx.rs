//! Enabling VMX: what has to be written to CR0, CR4 and
//! `IA32_FEATURE_CONTROL` before VMXON, and the region that VMXON takes.
use vstd::prelude::*;
use crate::bits::{bit, lemma_bits, low32};
use crate::intel::controls::{adjusted_cr, get_adjusted_cr0, get_adjusted_cr4};
use crate::intel::reset::Processor;

verus! {

/// Bit 0 of `IA32_FEATURE_CONTROL`: the register is locked until reset.
pub const IA32_FEATURE_CONTROL_LOCK_BIT_FLAG: u64 = 0x1;

/// Bit 2 of `IA32_FEATURE_CONTROL`: VMXON is allowed outside SMX operation.
pub const IA32_FEATURE_CONTROL_ENABLE_VMX_OUTSIDE_SMX_FLAG: u64 = 0x4;

/// The VMXON region of one logical processor. Of the 4 KiB that the processor
/// uses for it, the hypervisor sets the first 32 bits only: the revision
/// identifier.
#[derive(Clone, Copy, Debug)]
pub struct Vmxon {
    revision_id: u32,
}

impl Vmxon {
    /// The revision identifier at the start of the region.
    pub closed spec fn spec_revision_id(&self) -> u32 {
        self.revision_id
    }

    /// A region for a processor whose `IA32_VMX_BASIC` reads `vmx_basic`.
    pub fn new(vmx_basic: u64) -> (region: Self)
        ensures
            region.spec_revision_id() == low32(vmx_basic),
    {
        Vmxon { revision_id: low32(vmx_basic) }
    }

    /// The revision identifier at the start of the region.
    #[verifier::when_used_as_spec(spec_revision_id)]
    pub fn revision_id(&self) -> (id: u32)
        ensures
            id == self.spec_revision_id(),
    {
        self.revision_id
    }
}

/// The registers of a processor that decide whether VMXON can be executed.
#[derive(Clone, Copy, Debug)]
pub struct ControlRegisters {
    pub cr0: u64,
    pub cr4: u64,
    /// `IA32_FEATURE_CONTROL`.
    pub feature_control: u64,
}

/// What to write before VMXON is executed.
#[derive(Clone, Copy, Debug, PartialEq, Eq, Structural)]
pub struct Enablement {
    pub cr0: u64,
    pub cr4: u64,
    /// The value for `IA32_FEATURE_CONTROL`; none where the register is
    /// locked and stays as it is.
    pub feature_control: Option<u64>,
}

/// Whether the firmware has disabled VMX: the register is locked and does
/// not allow VMXON outside SMX operation.
pub open spec fn spec_vmx_is_disabled(feature_control: u64) -> bool {
    bit(feature_control, IA32_FEATURE_CONTROL_LOCK_BIT_FLAG) && !bit(
        feature_control,
        IA32_FEATURE_CONTROL_ENABLE_VMX_OUTSIDE_SMX_FLAG,
    )
}

/// Tells whether the firmware has disabled VMX.
#[verifier::when_used_as_spec(spec_vmx_is_disabled)]
pub fn vmx_is_disabled(feature_control: u64) -> (disabled: bool)
    ensures
        disabled == spec_vmx_is_disabled(feature_control),
{
    bit(feature_control, IA32_FEATURE_CONTROL_LOCK_BIT_FLAG) && !bit(
        feature_control,
        IA32_FEATURE_CONTROL_ENABLE_VMX_OUTSIDE_SMX_FLAG,
    )
}

/// The value to write to `IA32_FEATURE_CONTROL`: where the register is not
/// locked, its value with the lock and with VMXON outside SMX operation
/// allowed; where it is locked, none.
pub open spec fn updated_feature_control(feature_control: u64) -> Option<u64> {
    if bit(feature_control, IA32_FEATURE_CONTROL_LOCK_BIT_FLAG) {
        None
    } else if bit(feature_control, IA32_FEATURE_CONTROL_ENABLE_VMX_OUTSIDE_SMX_FLAG) {
        Some((feature_control + IA32_FEATURE_CONTROL_LOCK_BIT_FLAG) as u64)
    } else {
        Some(
            (feature_control + IA32_FEATURE_CONTROL_ENABLE_VMX_OUTSIDE_SMX_FLAG
                + IA32_FEATURE_CONTROL_LOCK_BIT_FLAG) as u64,
        )
    }
}

/// Unless the firmware has disabled VMX, the register allows VMXON once the
/// update is written: it is locked, VMXON outside SMX operation is allowed,
/// and no other bit differs from before.
pub proof fn lemma_feature_control_allows_vmxon(feature_control: u64)
    requires
        !vmx_is_disabled(feature_control),
    ensures
        ({
            let after = match updated_feature_control(feature_control) {
                Some(written) => written,
                None => feature_control,
            };
            &&& after & IA32_FEATURE_CONTROL_LOCK_BIT_FLAG != 0
            &&& after & IA32_FEATURE_CONTROL_ENABLE_VMX_OUTSIDE_SMX_FLAG != 0
            &&& after & !0x5u64 == feature_control & !0x5u64
        }),
{
    lemma_bits(feature_control);
    assert((feature_control | 0x4u64 | 0x1u64) & 0x1u64 != 0 && (feature_control | 0x4u64 | 0x1u64)
        & 0x4u64 != 0 && (feature_control | 0x4u64 | 0x1u64) & !0x5u64 == feature_control
        & !0x5u64) by (bit_vector);
}

/// VMX on one logical processor.
#[derive(Clone, Copy, Debug)]
pub struct Vmx {
    vmxon_region: Vmxon,
}

impl Vmx {
    /// The VMXON region.
    pub closed spec fn spec_vmxon_region(&self) -> Vmxon {
        self.vmxon_region
    }

    /// VMX for a processor whose `IA32_VMX_BASIC` reads `vmx_basic`.
    pub fn new(vmx_basic: u64) -> (vmx: Self)
        ensures
            vmx.spec_vmxon_region().revision_id() == low32(vmx_basic),
    {
        Vmx { vmxon_region: Vmxon::new(vmx_basic) }
    }

    /// The VMXON region.
    #[verifier::when_used_as_spec(spec_vmxon_region)]
    pub fn vmxon_region(&self) -> (region: Vmxon)
        ensures
            region == self.spec_vmxon_region(),
    {
        self.vmxon_region
    }

    /// Says what to write before VMXON: CR0 and CR4 with the VMX-fixed bits
    /// applied, and `IA32_FEATURE_CONTROL` as
    /// [`Self::update_feature_control_msr`] has it.
    pub fn enable(&self, registers: &ControlRegisters, processor: &Processor) -> (enablement:
        Enablement)
        requires
            !vmx_is_disabled(registers.feature_control),
        ensures
            enablement.cr0 == adjusted_cr(registers.cr0, processor.cr0_fixed0, processor.cr0_fixed1),
            enablement.cr4 == adjusted_cr(registers.cr4, processor.cr4_fixed0, processor.cr4_fixed1),
            enablement.feature_control == updated_feature_control(registers.feature_control),
    {
        Enablement {
            cr0: get_adjusted_cr0(registers.cr0, processor.cr0_fixed0, processor.cr0_fixed1),
            cr4: get_adjusted_cr4(registers.cr4, processor.cr4_fixed0, processor.cr4_fixed1),
            feature_control: Self::update_feature_control_msr(registers.feature_control),
        }
    }

    /// Says what to write to `IA32_FEATURE_CONTROL` so that VMXON can be
    /// executed, if anything.
    pub fn update_feature_control_msr(feature_control: u64) -> (update: Option<u64>)
        requires
            !vmx_is_disabled(feature_control),
        ensures
            update == updated_feature_control(feature_control),
    {
        proof {
            lemma_bits(feature_control);
        }
        // If the lock bit is cleared, set it along with the VMXON-outside-SMX
        // operation bit. Without those two bits, the VMXON instruction fails.
        if feature_control & IA32_FEATURE_CONTROL_LOCK_BIT_FLAG == 0 {
            Some(
                feature_control | IA32_FEATURE_CONTROL_ENABLE_VMX_OUTSIDE_SMX_FLAG
                    | IA32_FEATURE_CONTROL_LOCK_BIT_FLAG,
            )
        } else {
            None
        }
    }
}

} // verus!
