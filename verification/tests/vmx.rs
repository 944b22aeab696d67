use hv::intel::reset::Processor;
use hv::intel::vmx::{vmx_is_disabled, ControlRegisters, Enablement, Vmx, Vmxon};

fn processor() -> Processor {
    Processor {
        cr0_fixed0: 0x8000_0021,
        cr0_fixed1: 0xffff_ffff,
        cr4_fixed0: 0x2000,
        cr4_fixed1: 0x0037_27ff,
        extended_model_id: 0,
    }
}

#[test]
fn vmxon_region_starts_with_the_revision_identifier() {
    assert_eq!(Vmxon::new(0x00da_0400_0000_0004).revision_id(), 4);
    assert_eq!(Vmxon::new(0xffff_ffff_8000_0001).revision_id(), 0x8000_0001);
    assert_eq!(Vmx::new(0x00da_0400_0000_0012).vmxon_region().revision_id(), 0x12);
}

#[test]
fn unlocked_feature_control_is_locked_with_vmx_allowed() {
    assert_eq!(Vmx::update_feature_control_msr(0), Some(0x5));
    assert_eq!(Vmx::update_feature_control_msr(0x4), Some(0x5));
    assert_eq!(Vmx::update_feature_control_msr(0x2), Some(0x7));
    assert_eq!(Vmx::update_feature_control_msr(0x10_0000), Some(0x10_0005));
    assert_eq!(
        Vmx::update_feature_control_msr(0xffff_ffff_ffff_fffe),
        Some(u64::MAX)
    );
}

#[test]
fn locked_feature_control_is_left_alone() {
    assert_eq!(Vmx::update_feature_control_msr(0x5), None);
    assert_eq!(Vmx::update_feature_control_msr(0x7), None);
    assert_eq!(Vmx::update_feature_control_msr(u64::MAX), None);
}

#[test]
fn firmware_can_disable_vmx() {
    assert!(vmx_is_disabled(0x1));
    assert!(vmx_is_disabled(0x3));
    assert!(vmx_is_disabled(0xffff_ffff_ffff_fffb));
    assert!(!vmx_is_disabled(0x5));
    assert!(!vmx_is_disabled(0x0));
    assert!(!vmx_is_disabled(0x4));
    assert!(!vmx_is_disabled(0x2));
}

#[test]
fn enabling_adjusts_the_control_registers() {
    let vmx = Vmx::new(4);
    let registers = ControlRegisters { cr0: 0x10, cr4: 0x0035_0ef8, feature_control: 0 };
    assert_eq!(
        vmx.enable(&registers, &processor()),
        Enablement { cr0: 0x8000_0031, cr4: 0x0035_26f8, feature_control: Some(0x5) }
    );
    let ready = ControlRegisters { cr0: 0x8005_0033, cr4: 0x0035_2ef8, feature_control: 0x5 };
    assert_eq!(
        vmx.enable(&ready, &processor()),
        Enablement { cr0: 0x8005_0033, cr4: 0x0035_26f8, feature_control: None }
    );
}
