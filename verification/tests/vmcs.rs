use hv::intel::vmcs::{control, guest, host, ro, Vmcs};

#[test]
fn new_vmcs_is_clear() {
    let vmcs = Vmcs::new(0x00da_0400_0000_0012);
    assert_eq!(vmcs.revision_id(), 0x12);
    assert!(!vmcs.is_current());
    assert_eq!(vmcs.len(), 0);
    assert_eq!(vmcs.read(guest::RIP), 0);
    assert_eq!(vmcs.read(0xffff_ffff), 0);
}

#[test]
fn revision_identifier_is_the_low_half_of_vmx_basic() {
    assert_eq!(Vmcs::new(0xffff_ffff_0000_0001).revision_id(), 1);
    assert_eq!(Vmcs::new(0x1_8000_0004).revision_id(), 0x8000_0004);
}

#[test]
fn load_makes_the_vmcs_current() {
    let mut vmcs = Vmcs::new(4);
    vmcs.write(guest::RSP, 7);
    vmcs.load();
    assert!(vmcs.is_current());
    assert_eq!(vmcs.revision_id(), 4);
    assert_eq!(vmcs.read(guest::RSP), 7);
    assert_eq!(vmcs.len(), 1);
}

#[test]
fn a_field_holds_what_was_written_last() {
    let mut vmcs = Vmcs::new(1);
    vmcs.write(guest::RIP, 0x1000);
    vmcs.write(guest::RSP, 0x2000);
    assert_eq!(vmcs.read(guest::RIP), 0x1000);
    assert_eq!(vmcs.read(guest::RSP), 0x2000);
    assert_eq!(vmcs.read(guest::RFLAGS), 0);
    vmcs.write(guest::RIP, 0x3000);
    assert_eq!(vmcs.read(guest::RIP), 0x3000);
    assert_eq!(vmcs.read(guest::RSP), 0x2000);
    vmcs.write(guest::RIP, 0);
    assert_eq!(vmcs.read(guest::RIP), 0);
}

#[test]
fn written_fields_are_listed_in_the_order_of_their_first_write() {
    let mut vmcs = Vmcs::new(1);
    vmcs.write(guest::CR3, 3);
    vmcs.write(host::CR3, 4);
    vmcs.write(guest::CR3, 5);
    vmcs.write(control::EPTP_FULL, 6);
    assert_eq!(vmcs.len(), 3);
    assert_eq!(vmcs.entry(0), (guest::CR3, 5));
    assert_eq!(vmcs.entry(1), (host::CR3, 4));
    assert_eq!(vmcs.entry(2), (control::EPTP_FULL, 6));
    for index in 0..vmcs.len() {
        let (encoding, value) = vmcs.entry(index);
        assert_eq!(vmcs.read(encoding), value);
    }
}

#[test]
fn encodings_are_those_of_the_x86_crate() {
    let control_fields = [
        (control::MSR_BITMAPS_ADDR_FULL, x86::vmx::vmcs::control::MSR_BITMAPS_ADDR_FULL),
        (control::EPTP_FULL, x86::vmx::vmcs::control::EPTP_FULL),
        (control::PINBASED_EXEC_CONTROLS, x86::vmx::vmcs::control::PINBASED_EXEC_CONTROLS),
        (
            control::PRIMARY_PROCBASED_EXEC_CONTROLS,
            x86::vmx::vmcs::control::PRIMARY_PROCBASED_EXEC_CONTROLS,
        ),
        (control::VMEXIT_CONTROLS, x86::vmx::vmcs::control::VMEXIT_CONTROLS),
        (control::VMENTRY_CONTROLS, x86::vmx::vmcs::control::VMENTRY_CONTROLS),
        (
            control::SECONDARY_PROCBASED_EXEC_CONTROLS,
            x86::vmx::vmcs::control::SECONDARY_PROCBASED_EXEC_CONTROLS,
        ),
        (control::CR0_READ_SHADOW, x86::vmx::vmcs::control::CR0_READ_SHADOW),
        (control::CR4_READ_SHADOW, x86::vmx::vmcs::control::CR4_READ_SHADOW),
    ];
    for (ours, theirs) in control_fields {
        assert_eq!(ours, theirs);
    }
    let guest_fields = [
        (guest::ES_SELECTOR, x86::vmx::vmcs::guest::ES_SELECTOR),
        (guest::CS_SELECTOR, x86::vmx::vmcs::guest::CS_SELECTOR),
        (guest::SS_SELECTOR, x86::vmx::vmcs::guest::SS_SELECTOR),
        (guest::DS_SELECTOR, x86::vmx::vmcs::guest::DS_SELECTOR),
        (guest::FS_SELECTOR, x86::vmx::vmcs::guest::FS_SELECTOR),
        (guest::GS_SELECTOR, x86::vmx::vmcs::guest::GS_SELECTOR),
        (guest::LDTR_SELECTOR, x86::vmx::vmcs::guest::LDTR_SELECTOR),
        (guest::TR_SELECTOR, x86::vmx::vmcs::guest::TR_SELECTOR),
        (guest::LINK_PTR_FULL, x86::vmx::vmcs::guest::LINK_PTR_FULL),
        (guest::IA32_EFER_FULL, x86::vmx::vmcs::guest::IA32_EFER_FULL),
        (guest::ES_LIMIT, x86::vmx::vmcs::guest::ES_LIMIT),
        (guest::CS_LIMIT, x86::vmx::vmcs::guest::CS_LIMIT),
        (guest::SS_LIMIT, x86::vmx::vmcs::guest::SS_LIMIT),
        (guest::DS_LIMIT, x86::vmx::vmcs::guest::DS_LIMIT),
        (guest::FS_LIMIT, x86::vmx::vmcs::guest::FS_LIMIT),
        (guest::GS_LIMIT, x86::vmx::vmcs::guest::GS_LIMIT),
        (guest::LDTR_LIMIT, x86::vmx::vmcs::guest::LDTR_LIMIT),
        (guest::TR_LIMIT, x86::vmx::vmcs::guest::TR_LIMIT),
        (guest::GDTR_LIMIT, x86::vmx::vmcs::guest::GDTR_LIMIT),
        (guest::IDTR_LIMIT, x86::vmx::vmcs::guest::IDTR_LIMIT),
        (guest::ES_ACCESS_RIGHTS, x86::vmx::vmcs::guest::ES_ACCESS_RIGHTS),
        (guest::CS_ACCESS_RIGHTS, x86::vmx::vmcs::guest::CS_ACCESS_RIGHTS),
        (guest::SS_ACCESS_RIGHTS, x86::vmx::vmcs::guest::SS_ACCESS_RIGHTS),
        (guest::DS_ACCESS_RIGHTS, x86::vmx::vmcs::guest::DS_ACCESS_RIGHTS),
        (guest::FS_ACCESS_RIGHTS, x86::vmx::vmcs::guest::FS_ACCESS_RIGHTS),
        (guest::GS_ACCESS_RIGHTS, x86::vmx::vmcs::guest::GS_ACCESS_RIGHTS),
        (guest::LDTR_ACCESS_RIGHTS, x86::vmx::vmcs::guest::LDTR_ACCESS_RIGHTS),
        (guest::TR_ACCESS_RIGHTS, x86::vmx::vmcs::guest::TR_ACCESS_RIGHTS),
        (guest::ACTIVITY_STATE, x86::vmx::vmcs::guest::ACTIVITY_STATE),
        (guest::IA32_SYSENTER_CS, x86::vmx::vmcs::guest::IA32_SYSENTER_CS),
        (guest::CR0, x86::vmx::vmcs::guest::CR0),
        (guest::CR3, x86::vmx::vmcs::guest::CR3),
        (guest::CR4, x86::vmx::vmcs::guest::CR4),
        (guest::ES_BASE, x86::vmx::vmcs::guest::ES_BASE),
        (guest::CS_BASE, x86::vmx::vmcs::guest::CS_BASE),
        (guest::SS_BASE, x86::vmx::vmcs::guest::SS_BASE),
        (guest::DS_BASE, x86::vmx::vmcs::guest::DS_BASE),
        (guest::FS_BASE, x86::vmx::vmcs::guest::FS_BASE),
        (guest::GS_BASE, x86::vmx::vmcs::guest::GS_BASE),
        (guest::LDTR_BASE, x86::vmx::vmcs::guest::LDTR_BASE),
        (guest::TR_BASE, x86::vmx::vmcs::guest::TR_BASE),
        (guest::GDTR_BASE, x86::vmx::vmcs::guest::GDTR_BASE),
        (guest::IDTR_BASE, x86::vmx::vmcs::guest::IDTR_BASE),
        (guest::RSP, x86::vmx::vmcs::guest::RSP),
        (guest::RIP, x86::vmx::vmcs::guest::RIP),
        (guest::RFLAGS, x86::vmx::vmcs::guest::RFLAGS),
        (guest::IA32_SYSENTER_ESP, x86::vmx::vmcs::guest::IA32_SYSENTER_ESP),
        (guest::IA32_SYSENTER_EIP, x86::vmx::vmcs::guest::IA32_SYSENTER_EIP),
    ];
    for (ours, theirs) in guest_fields {
        assert_eq!(ours, theirs);
    }
    let host_fields = [
        (host::ES_SELECTOR, x86::vmx::vmcs::host::ES_SELECTOR),
        (host::CS_SELECTOR, x86::vmx::vmcs::host::CS_SELECTOR),
        (host::SS_SELECTOR, x86::vmx::vmcs::host::SS_SELECTOR),
        (host::DS_SELECTOR, x86::vmx::vmcs::host::DS_SELECTOR),
        (host::FS_SELECTOR, x86::vmx::vmcs::host::FS_SELECTOR),
        (host::GS_SELECTOR, x86::vmx::vmcs::host::GS_SELECTOR),
        (host::TR_SELECTOR, x86::vmx::vmcs::host::TR_SELECTOR),
        (host::CR0, x86::vmx::vmcs::host::CR0),
        (host::CR3, x86::vmx::vmcs::host::CR3),
        (host::CR4, x86::vmx::vmcs::host::CR4),
        (host::FS_BASE, x86::vmx::vmcs::host::FS_BASE),
        (host::GS_BASE, x86::vmx::vmcs::host::GS_BASE),
        (host::TR_BASE, x86::vmx::vmcs::host::TR_BASE),
        (host::GDTR_BASE, x86::vmx::vmcs::host::GDTR_BASE),
        (host::IDTR_BASE, x86::vmx::vmcs::host::IDTR_BASE),
    ];
    for (ours, theirs) in host_fields {
        assert_eq!(ours, theirs);
    }
    assert_eq!(ro::VM_INSTRUCTION_ERROR, x86::vmx::vmcs::ro::VM_INSTRUCTION_ERROR);
    assert_eq!(ro::EXIT_REASON, x86::vmx::vmcs::ro::EXIT_REASON);
    assert_eq!(ro::VMEXIT_INSTRUCTION_LEN, x86::vmx::vmcs::ro::VMEXIT_INSTRUCTION_LEN);
    assert_eq!(ro::EXIT_QUALIFICATION, x86::vmx::vmcs::ro::EXIT_QUALIFICATION);
}

#[test]
fn control_bits_are_those_of_the_x86_crate() {
    assert_eq!(
        control::EXIT_HOST_ADDRESS_SPACE_SIZE,
        x86::vmx::vmcs::control::ExitControls::HOST_ADDRESS_SPACE_SIZE.bits() as u64
    );
    assert_eq!(
        control::ENTRY_IA32E_MODE_GUEST,
        x86::vmx::vmcs::control::EntryControls::IA32E_MODE_GUEST.bits() as u64
    );
    assert_eq!(
        control::PRIMARY_USE_MSR_BITMAPS,
        x86::vmx::vmcs::control::PrimaryControls::USE_MSR_BITMAPS.bits() as u64
    );
    assert_eq!(
        control::PRIMARY_SECONDARY_CONTROLS,
        x86::vmx::vmcs::control::PrimaryControls::SECONDARY_CONTROLS.bits() as u64
    );
    assert_eq!(
        control::SECONDARY_ENABLE_EPT,
        x86::vmx::vmcs::control::SecondaryControls::ENABLE_EPT.bits() as u64
    );
    assert_eq!(
        control::SECONDARY_ENABLE_RDTSCP,
        x86::vmx::vmcs::control::SecondaryControls::ENABLE_RDTSCP.bits() as u64
    );
    assert_eq!(
        control::SECONDARY_UNRESTRICTED_GUEST,
        x86::vmx::vmcs::control::SecondaryControls::UNRESTRICTED_GUEST.bits() as u64
    );
    assert_eq!(
        control::SECONDARY_ENABLE_INVPCID,
        x86::vmx::vmcs::control::SecondaryControls::ENABLE_INVPCID.bits() as u64
    );
    assert_eq!(
        control::SECONDARY_ENABLE_XSAVES_XRSTORS,
        x86::vmx::vmcs::control::SecondaryControls::ENABLE_XSAVES_XRSTORS.bits() as u64
    );
}

#[test]
fn writes_are_pending_until_they_are_taken() {
    let mut vmcs = Vmcs::new(1);
    assert_eq!(vmcs.take_pending(), Vec::new());
    vmcs.write(guest::CR3, 3);
    vmcs.write(host::CR3, 4);
    vmcs.write(guest::CR3, 5);
    vmcs.write(guest::CR3, 5);
    assert_eq!(
        vmcs.take_pending(),
        vec![(guest::CR3, 3), (host::CR3, 4), (guest::CR3, 5), (guest::CR3, 5)]
    );
    assert_eq!(vmcs.take_pending(), Vec::new());
    assert_eq!(vmcs.read(guest::CR3), 5);
    assert_eq!(vmcs.read(host::CR3), 4);
    assert_eq!(vmcs.len(), 2);
    vmcs.write(host::CR3, 4);
    assert_eq!(vmcs.take_pending(), vec![(host::CR3, 4)]);
}

#[test]
fn what_the_processor_stored_is_not_written_back() {
    let mut vmcs = Vmcs::new(1);
    vmcs.write(guest::RIP, 0x1000);
    vmcs.record(guest::RIP, 0x1002);
    vmcs.record(guest::RSP, 0x8000);
    assert_eq!(vmcs.read(guest::RIP), 0x1002);
    assert_eq!(vmcs.read(guest::RSP), 0x8000);
    assert_eq!(vmcs.take_pending(), vec![(guest::RIP, 0x1000)]);
    vmcs.record(guest::RIP, 0x1004);
    assert_eq!(vmcs.take_pending(), Vec::new());
    assert_eq!(vmcs.read(guest::RIP), 0x1004);
    assert_eq!(vmcs.revision_id(), 1);
    assert!(!vmcs.is_current());
}
