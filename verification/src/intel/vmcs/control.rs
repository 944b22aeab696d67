//! Encodings of the VM-execution, VM-exit and VM-entry control fields.
use vstd::prelude::*;

verus! {

/// Address of MSR bitmaps.
pub const MSR_BITMAPS_ADDR_FULL: u32 = 0x2004;

/// EPT pointer.
pub const EPTP_FULL: u32 = 0x201A;

/// Pin-based VM-execution controls.
pub const PINBASED_EXEC_CONTROLS: u32 = 0x4000;

/// Primary processor-based VM-execution controls.
pub const PRIMARY_PROCBASED_EXEC_CONTROLS: u32 = 0x4002;

/// VM-exit controls.
pub const VMEXIT_CONTROLS: u32 = 0x400C;

/// VM-entry controls.
pub const VMENTRY_CONTROLS: u32 = 0x4012;

/// Secondary processor-based VM-execution controls.
pub const SECONDARY_PROCBASED_EXEC_CONTROLS: u32 = 0x401E;

/// CR0 read shadow.
pub const CR0_READ_SHADOW: u32 = 0x6004;

/// CR4 read shadow.
pub const CR4_READ_SHADOW: u32 = 0x6006;

/// VM-exit control: the host runs in 64-bit mode after a VM exit.
pub const EXIT_HOST_ADDRESS_SPACE_SIZE: u64 = 0x200;

/// VM-entry control: the guest runs in IA-32e mode after a VM entry.
pub const ENTRY_IA32E_MODE_GUEST: u64 = 0x200;

/// Primary control: MSR bitmaps decide which MSR accesses exit.
pub const PRIMARY_USE_MSR_BITMAPS: u64 = 0x1000_0000;

/// Primary control: the secondary controls are in use.
pub const PRIMARY_SECONDARY_CONTROLS: u64 = 0x8000_0000;

/// Secondary control: extended page tables.
pub const SECONDARY_ENABLE_EPT: u64 = 0x2;

/// Secondary control: RDTSCP does not fault.
pub const SECONDARY_ENABLE_RDTSCP: u64 = 0x8;

/// Secondary control: the guest may run unpaged and in real mode.
pub const SECONDARY_UNRESTRICTED_GUEST: u64 = 0x80;

/// Secondary control: INVPCID does not fault.
pub const SECONDARY_ENABLE_INVPCID: u64 = 0x1000;

/// Secondary control: XSAVES and XRSTORS do not fault.
pub const SECONDARY_ENABLE_XSAVES_XRSTORS: u64 = 0x10_0000;

} // verus!
