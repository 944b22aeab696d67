//! Reconciling requested settings with what the processor permits: the VMX
//! control fields against the capability MSRs, CR0 and CR4 against the
//! VMX-fixed bits, and native segment access rights against the VMX format.
use vstd::prelude::*;
use crate::bits::{bit, high32, low32, spec_bit};
use crate::intel::vmcs::control;

verus! {

pub const IA32_FEATURE_CONTROL: u32 = 0x3a;

pub const IA32_VMX_BASIC: u32 = 0x480;

pub const IA32_VMX_PINBASED_CTLS: u32 = 0x481;

pub const IA32_VMX_PROCBASED_CTLS: u32 = 0x482;

pub const IA32_VMX_EXIT_CTLS: u32 = 0x483;

pub const IA32_VMX_ENTRY_CTLS: u32 = 0x484;

pub const IA32_VMX_CR0_FIXED0: u32 = 0x486;

pub const IA32_VMX_CR0_FIXED1: u32 = 0x487;

pub const IA32_VMX_CR4_FIXED0: u32 = 0x488;

pub const IA32_VMX_CR4_FIXED1: u32 = 0x489;

pub const IA32_VMX_PROCBASED_CTLS2: u32 = 0x48b;

pub const IA32_VMX_TRUE_PINBASED_CTLS: u32 = 0x48d;

pub const IA32_VMX_TRUE_PROCBASED_CTLS: u32 = 0x48e;

pub const IA32_VMX_TRUE_EXIT_CTLS: u32 = 0x48f;

pub const IA32_VMX_TRUE_ENTRY_CTLS: u32 = 0x490;

pub const IA32_VMX_PROCBASED_CTLS3: u32 = 0x492;

/// Bit 55 of `IA32_VMX_BASIC`: the `TRUE` capability MSRs exist.
pub const IA32_VMX_BASIC_VMX_CONTROLS_FLAG: u64 = 0x80_0000_0000_0000;

/// CR0.PE, protected mode.
pub const CR0_PROTECTED_MODE: u64 = 0x1;

/// CR0.ET, which reads as one on every processor with VMX.
pub const CR0_EXTENSION_TYPE: u64 = 0x10;

/// CR0.PG, paging.
pub const CR0_ENABLE_PAGING: u64 = 0x8000_0000;

/// The bit that marks a segment as unusable in the VMX format.
pub const VMX_SEGMENT_ACCESS_RIGHTS_UNUSABLE_FLAG: u32 = 0x1_0000;

/// The bits of the native access rights that the VMX format keeps, once the
/// native value is moved down by one byte.
pub const VMX_SEGMENT_ACCESS_RIGHTS_MASK: u32 = 0xf0ff;

/// The groups of VMX controls, each with a capability MSR of its own.
#[derive(Clone, Copy, Debug, PartialEq, Eq, Structural)]
pub enum VmxControl {
    PinBased,
    ProcessorBased,
    ProcessorBased2,
    ProcessorBased3,
    VmExit,
    VmEntry,
}

/// The capability MSR to consult for `control` on a processor whose
/// `IA32_VMX_BASIC` reads `vmx_basic`: the `TRUE` variant where the processor
/// has one and reports so in bit 55, the plain one otherwise.
pub open spec fn spec_capability_msr(control: VmxControl, vmx_basic: u64) -> u32 {
    let true_msrs = bit(vmx_basic, IA32_VMX_BASIC_VMX_CONTROLS_FLAG);
    match control {
        VmxControl::PinBased => if true_msrs {
            IA32_VMX_TRUE_PINBASED_CTLS
        } else {
            IA32_VMX_PINBASED_CTLS
        },
        VmxControl::ProcessorBased => if true_msrs {
            IA32_VMX_TRUE_PROCBASED_CTLS
        } else {
            IA32_VMX_PROCBASED_CTLS
        },
        VmxControl::VmExit => if true_msrs {
            IA32_VMX_TRUE_EXIT_CTLS
        } else {
            IA32_VMX_EXIT_CTLS
        },
        VmxControl::VmEntry => if true_msrs {
            IA32_VMX_TRUE_ENTRY_CTLS
        } else {
            IA32_VMX_ENTRY_CTLS
        },
        VmxControl::ProcessorBased2 => IA32_VMX_PROCBASED_CTLS2,
        VmxControl::ProcessorBased3 => IA32_VMX_PROCBASED_CTLS3,
    }
}

/// The capability MSR to read for `control`.
#[verifier::when_used_as_spec(spec_capability_msr)]
pub fn capability_msr(control: VmxControl, vmx_basic: u64) -> (msr: u32)
    ensures
        msr == spec_capability_msr(control, vmx_basic),
{
    let true_msrs = bit(vmx_basic, IA32_VMX_BASIC_VMX_CONTROLS_FLAG);
    match (control, true_msrs) {
        (VmxControl::PinBased, true) => IA32_VMX_TRUE_PINBASED_CTLS,
        (VmxControl::PinBased, false) => IA32_VMX_PINBASED_CTLS,
        (VmxControl::ProcessorBased, true) => IA32_VMX_TRUE_PROCBASED_CTLS,
        (VmxControl::ProcessorBased, false) => IA32_VMX_PROCBASED_CTLS,
        (VmxControl::VmExit, true) => IA32_VMX_TRUE_EXIT_CTLS,
        (VmxControl::VmExit, false) => IA32_VMX_EXIT_CTLS,
        (VmxControl::VmEntry, true) => IA32_VMX_TRUE_ENTRY_CTLS,
        (VmxControl::VmEntry, false) => IA32_VMX_ENTRY_CTLS,
        (VmxControl::ProcessorBased2, _) => IA32_VMX_PROCBASED_CTLS2,
        (VmxControl::ProcessorBased3, _) => IA32_VMX_PROCBASED_CTLS3,
    }
}

/// The allowed-0 settings of a capability MSR: a bit that is set here must
/// be set in the control field.
pub open spec fn allowed0(capabilities: u64) -> u32 {
    low32(capabilities)
}

/// The allowed-1 settings of a capability MSR: a bit that is clear here must
/// be clear in the control field.
pub open spec fn allowed1(capabilities: u64) -> u32 {
    high32(capabilities)
}

/// The value a control field takes when `requested` is reconciled with the
/// capability MSR of its group: bits that must be set are set, bits that must
/// be clear are cleared. The tertiary processor-based controls are 64 bits
/// wide and their MSR holds allowed-1 settings only.
pub open spec fn adjusted_control(control: VmxControl, capabilities: u64, requested: u64) -> u64 {
    if control == VmxControl::ProcessorBased3 {
        requested & capabilities
    } else {
        ((low32(requested) | allowed0(capabilities)) & allowed1(capabilities)) as u64
    }
}

/// Whether the processor can grant `requested`: the value fits the field and
/// no requested bit is cleared by the adjustment.
pub open spec fn control_supported(control: VmxControl, capabilities: u64, requested: u64) -> bool {
    if control == VmxControl::ProcessorBased3 {
        (requested & capabilities) | requested == requested & capabilities
    } else {
        let effective = (low32(requested) | allowed0(capabilities)) & allowed1(capabilities);
        &&& requested <= u32::MAX
        &&& effective | low32(requested) == effective
    }
}

/// An adjusted control holds every bit that the processor demands, none that
/// it forbids, and every bit that was asked for. A capability MSR that demands
/// a bit and forbids it at once describes no processor and is left out.
pub proof fn lemma_adjusted_control_is_permitted(
    control: VmxControl,
    capabilities: u64,
    requested: u64,
)
    requires
        control != VmxControl::ProcessorBased3,
        control_supported(control, capabilities, requested),
        allowed0(capabilities) & !allowed1(capabilities) == 0,
    ensures
        adjusted_control(control, capabilities, requested) <= u32::MAX,
        low32(adjusted_control(control, capabilities, requested)) | allowed0(capabilities)
            == low32(adjusted_control(control, capabilities, requested)),
        low32(adjusted_control(control, capabilities, requested)) & allowed1(capabilities)
            == low32(adjusted_control(control, capabilities, requested)),
        adjusted_control(control, capabilities, requested) & requested == requested,
{
    let a0 = allowed0(capabilities);
    let a1 = allowed1(capabilities);
    let r = low32(requested);
    let v = (r | a0) & a1;
    let wide = v as u64;
    assert(requested == r as u64) by {
        crate::bits::lemma_halves(requested);
    }
    assert(low32(wide) == v) by {
        crate::bits::lemma_halves(wide);
    }
    let wide_r = r as u64;
    assert((v | a0 == v) && (v & a1 == v) && (wide & wide_r == wide_r)) by (bit_vector)
        requires
            v == (r | a0) & a1,
            a0 & !a1 == 0,
            v | r == v,
            wide == v as u64,
            wide_r == r as u64,
    ;
}

/// The tertiary processor-based controls, once adjusted, hold no bit that the
/// processor forbids and every bit that was asked for.
pub proof fn lemma_adjusted_tertiary_control_is_permitted(capabilities: u64, requested: u64)
    requires
        control_supported(VmxControl::ProcessorBased3, capabilities, requested),
    ensures
        adjusted_control(VmxControl::ProcessorBased3, capabilities, requested) & capabilities
            == adjusted_control(VmxControl::ProcessorBased3, capabilities, requested),
        adjusted_control(VmxControl::ProcessorBased3, capabilities, requested) == requested,
{
    assert((requested & capabilities) & capabilities == requested & capabilities && requested
        & capabilities == requested) by (bit_vector)
        requires
            (requested & capabilities) | requested == requested & capabilities,
    ;
}

/// The settings that the hypervisor asks for in each group of controls.
pub open spec fn requested_controls(control: VmxControl) -> u64 {
    match control {
        VmxControl::PinBased => 0,
        VmxControl::ProcessorBased => control::PRIMARY_USE_MSR_BITMAPS
            | control::PRIMARY_SECONDARY_CONTROLS,
        VmxControl::ProcessorBased2 => control::SECONDARY_ENABLE_EPT
            | control::SECONDARY_UNRESTRICTED_GUEST | control::SECONDARY_ENABLE_RDTSCP
            | control::SECONDARY_ENABLE_INVPCID | control::SECONDARY_ENABLE_XSAVES_XRSTORS,
        VmxControl::ProcessorBased3 => 0,
        VmxControl::VmExit => control::EXIT_HOST_ADDRESS_SPACE_SIZE,
        VmxControl::VmEntry => control::ENTRY_IA32E_MODE_GUEST,
    }
}

/// Native access rights, as the LAR instruction returns them, in the format
/// of the VMCS: zero stands for a null selector and becomes "unusable";
/// anything else loses its low byte and the bits that the VMCS reserves.
#[verifier::opaque]
pub open spec fn spec_access_rights(access_rights: u32) -> u32 {
    if access_rights == 0 {
        VMX_SEGMENT_ACCESS_RIGHTS_UNUSABLE_FLAG
    } else {
        ((access_rights / 0x100) % 0x100 + ((access_rights / 0x10_0000) % 0x10) * 0x1000) as u32
    }
}

/// The access rights of a usable segment are the native value moved down by
/// one byte and masked: bits 15:8 of the native value become bits 7:0, and
/// bits 23:20 become bits 15:12.
pub proof fn lemma_access_rights_by_mask(native: u32)
    ensures
        native != 0 ==> spec_access_rights(native) == (native >> 8)
            & VMX_SEGMENT_ACCESS_RIGHTS_MASK,
{
    reveal(spec_access_rights);
    assert((native >> 8) & 0xf0ffu32 == (native / 0x100) % 0x100 + ((native / 0x10_0000) % 0x10)
        * 0x1000) by (bit_vector);
}

/// Null access rights become exactly the unusable flag; any other value
/// becomes usable and keeps no bit outside the mask.
pub proof fn lemma_access_rights_encoding(native: u32)
    ensures
        native == 0 ==> spec_access_rights(native) == VMX_SEGMENT_ACCESS_RIGHTS_UNUSABLE_FLAG,
        native != 0 ==> spec_access_rights(native) & VMX_SEGMENT_ACCESS_RIGHTS_UNUSABLE_FLAG == 0,
        native != 0 ==> spec_access_rights(native) & !VMX_SEGMENT_ACCESS_RIGHTS_MASK == 0,
        native != 0 ==> spec_access_rights(native) <= VMX_SEGMENT_ACCESS_RIGHTS_MASK,
{
    reveal(spec_access_rights);
    lemma_access_rights_by_mask(native);
    assert(((native >> 8) & 0xf0ffu32) & 0x1_0000u32 == 0 && ((native >> 8) & 0xf0ffu32) & !0xf0ffu32
        == 0 && ((native >> 8) & 0xf0ffu32) <= 0xf0ffu32) by (bit_vector);
}

/// A control register with the VMX-fixed bits applied: a bit that is set in
/// `fixed0` is set, a bit that is clear in `fixed1` is cleared, any other is
/// kept.
pub open spec fn adjusted_cr(value: u64, fixed0: u64, fixed1: u64) -> u64 {
    (value & fixed1) | fixed0
}

/// Returns the CR0 value after the FIXED0 and FIXED1 MSR values are applied.
pub fn get_adjusted_cr0(cr0: u64, fixed0: u64, fixed1: u64) -> (adjusted: u64)
    ensures
        adjusted == adjusted_cr(cr0, fixed0, fixed1),
        fixed0 == u64::MAX ==> adjusted == u64::MAX,
        fixed1 == 0 ==> adjusted == fixed0,
        fixed0 == 0 && fixed1 == u64::MAX ==> adjusted == cr0,
{
    proof {
        lemma_adjusted_cr_bits(cr0, fixed0, fixed1);
    }
    (cr0 & fixed1) | fixed0
}

/// Returns the CR4 value after the FIXED0 and FIXED1 MSR values are applied.
pub fn get_adjusted_cr4(cr4: u64, fixed0: u64, fixed1: u64) -> (adjusted: u64)
    ensures
        adjusted == adjusted_cr(cr4, fixed0, fixed1),
        fixed0 == u64::MAX ==> adjusted == u64::MAX,
        fixed1 == 0 ==> adjusted == fixed0,
        fixed0 == 0 && fixed1 == u64::MAX ==> adjusted == cr4,
{
    proof {
        lemma_adjusted_cr_bits(cr4, fixed0, fixed1);
    }
    (cr4 & fixed1) | fixed0
}

/// Bit `index` of `value`.
pub open spec fn bit_at(value: u64, index: u64) -> bool {
    (value >> index) & 1 == 1
}

/// The adjustment, bit by bit: forced to one by `fixed0`, else forced to zero
/// by `fixed1`, else unchanged. With every bit fixed to one the result is
/// all ones; with no bit fixed to one and every bit fixed to zero it is zero.
pub proof fn lemma_adjusted_cr_bits(value: u64, fixed0: u64, fixed1: u64)
    ensures
        forall|i: u64|
            #![trigger bit_at(adjusted_cr(value, fixed0, fixed1), i)]
            i < 64 ==> bit_at(adjusted_cr(value, fixed0, fixed1), i) == if bit_at(fixed0, i) {
                true
            } else if !bit_at(fixed1, i) {
                false
            } else {
                bit_at(value, i)
            },
        fixed0 == u64::MAX ==> adjusted_cr(value, fixed0, fixed1) == u64::MAX,
        fixed1 == 0 ==> adjusted_cr(value, fixed0, fixed1) == fixed0,
        fixed0 == 0 && fixed1 == 0 ==> adjusted_cr(value, fixed0, fixed1) == 0,
        fixed0 == 0 && fixed1 == u64::MAX ==> adjusted_cr(value, fixed0, fixed1) == value,
{
    assert(forall|i: u64|
        i < 64 ==> ((((value & fixed1) | fixed0) >> i) & 1 == 1) == (if (fixed0 >> i) & 1 == 1 {
            true
        } else if !((fixed1 >> i) & 1 == 1) {
            false
        } else {
            (value >> i) & 1 == 1
        })) by (bit_vector);
    assert((value & fixed1) | 0xffff_ffff_ffff_ffffu64 == 0xffff_ffff_ffff_ffffu64 && (value & 0u64)
        | fixed0 == fixed0 && (value & 0xffff_ffff_ffff_ffffu64) | 0u64 == value) by (bit_vector);
}

/// CR0 of a guest with the VMX-fixed bits applied. Where the secondary
/// controls enable the unrestricted guest, protected mode and paging are as
/// the guest asked for them, not as the fixed bits demand.
pub open spec fn adjusted_guest_cr0(
    cr0: u64,
    fixed0: u64,
    fixed1: u64,
    secondary_controls: u64,
) -> u64 {
    let adjusted = adjusted_cr(cr0, fixed0, fixed1);
    if bit(secondary_controls, control::SECONDARY_UNRESTRICTED_GUEST) {
        (adjusted & !(CR0_PROTECTED_MODE | CR0_ENABLE_PAGING)) | (cr0 & (CR0_PROTECTED_MODE
            | CR0_ENABLE_PAGING))
    } else {
        adjusted
    }
}

/// Returns the CR0 value after the FIXED0 and FIXED1 MSR values are applied
/// for the guest. `secondary_controls` is the value of the secondary
/// processor-based controls in the guest's VMCS.
pub fn get_adjusted_guest_cr0(
    cr0: u64,
    fixed0: u64,
    fixed1: u64,
    secondary_controls: u64,
) -> (adjusted: u64)
    ensures
        adjusted == adjusted_guest_cr0(cr0, fixed0, fixed1, secondary_controls),
{
    let mut new_cr0 = get_adjusted_cr0(cr0, fixed0, fixed1);
    let unrestricted_guest = bit(secondary_controls, control::SECONDARY_UNRESTRICTED_GUEST);
    if unrestricted_guest {
        new_cr0 = new_cr0 & !(CR0_PROTECTED_MODE | CR0_ENABLE_PAGING);
        new_cr0 = new_cr0 | (cr0 & (CR0_PROTECTED_MODE | CR0_ENABLE_PAGING));
    }
    new_cr0
}

/// Returns the CR4 value after the FIXED0 and FIXED1 MSR values are applied
/// for the guest.
pub fn get_adjusted_guest_cr4(cr4: u64, fixed0: u64, fixed1: u64) -> (adjusted: u64)
    ensures
        adjusted == adjusted_cr(cr4, fixed0, fixed1),
{
    get_adjusted_cr4(cr4, fixed0, fixed1)
}

/// In an unrestricted guest CR0.PE and CR0.PG are the guest's own, and every
/// other bit of CR0 follows the fixed bits.
pub proof fn lemma_unrestricted_guest_cr0(
    cr0: u64,
    fixed0: u64,
    fixed1: u64,
    secondary_controls: u64,
)
    requires
        spec_bit(secondary_controls, control::SECONDARY_UNRESTRICTED_GUEST),
    ensures
        bit_at(adjusted_guest_cr0(cr0, fixed0, fixed1, secondary_controls), 0) == bit_at(cr0, 0),
        bit_at(adjusted_guest_cr0(cr0, fixed0, fixed1, secondary_controls), 31) == bit_at(cr0, 31),
        forall|i: u64|
            #![trigger bit_at(adjusted_guest_cr0(cr0, fixed0, fixed1, secondary_controls), i)]
            i < 64 && i != 0 && i != 31 ==> bit_at(
                adjusted_guest_cr0(cr0, fixed0, fixed1, secondary_controls),
                i,
            ) == bit_at(adjusted_cr(cr0, fixed0, fixed1), i),
{
    let adjusted = adjusted_cr(cr0, fixed0, fixed1);
    let guest = (adjusted & !(0x1u64 | 0x8000_0000u64)) | (cr0 & (0x1u64 | 0x8000_0000u64));
    assert(((guest >> 0u64) & 1 == 1) == ((cr0 >> 0u64) & 1 == 1) && ((guest >> 31u64) & 1 == 1)
        == ((cr0 >> 31u64) & 1 == 1) && (forall|i: u64|
        i < 64 && i != 0 && i != 31 ==> ((guest >> i) & 1 == 1) == ((adjusted >> i) & 1 == 1)))
        by (bit_vector)
        requires
            guest == (adjusted & !(0x1u64 | 0x8000_0000u64)) | (cr0 & (0x1u64 | 0x8000_0000u64)),
    ;
}

} // verus!
