//! Encodings of the guest-state fields.
use vstd::prelude::*;

verus! {

pub const ES_SELECTOR: u32 = 0x800;

pub const CS_SELECTOR: u32 = 0x802;

pub const SS_SELECTOR: u32 = 0x804;

pub const DS_SELECTOR: u32 = 0x806;

pub const FS_SELECTOR: u32 = 0x808;

pub const GS_SELECTOR: u32 = 0x80A;

pub const LDTR_SELECTOR: u32 = 0x80C;

pub const TR_SELECTOR: u32 = 0x80E;

/// VMCS link pointer.
pub const LINK_PTR_FULL: u32 = 0x2800;

pub const IA32_EFER_FULL: u32 = 0x2806;

pub const ES_LIMIT: u32 = 0x4800;

pub const CS_LIMIT: u32 = 0x4802;

pub const SS_LIMIT: u32 = 0x4804;

pub const DS_LIMIT: u32 = 0x4806;

pub const FS_LIMIT: u32 = 0x4808;

pub const GS_LIMIT: u32 = 0x480A;

pub const LDTR_LIMIT: u32 = 0x480C;

pub const TR_LIMIT: u32 = 0x480E;

pub const GDTR_LIMIT: u32 = 0x4810;

pub const IDTR_LIMIT: u32 = 0x4812;

pub const ES_ACCESS_RIGHTS: u32 = 0x4814;

pub const CS_ACCESS_RIGHTS: u32 = 0x4816;

pub const SS_ACCESS_RIGHTS: u32 = 0x4818;

pub const DS_ACCESS_RIGHTS: u32 = 0x481A;

pub const FS_ACCESS_RIGHTS: u32 = 0x481C;

pub const GS_ACCESS_RIGHTS: u32 = 0x481E;

pub const LDTR_ACCESS_RIGHTS: u32 = 0x4820;

pub const TR_ACCESS_RIGHTS: u32 = 0x4822;

pub const ACTIVITY_STATE: u32 = 0x4826;

pub const IA32_SYSENTER_CS: u32 = 0x482A;

pub const CR0: u32 = 0x6800;

pub const CR3: u32 = 0x6802;

pub const CR4: u32 = 0x6804;

pub const ES_BASE: u32 = 0x6806;

pub const CS_BASE: u32 = 0x6808;

pub const SS_BASE: u32 = 0x680A;

pub const DS_BASE: u32 = 0x680C;

pub const FS_BASE: u32 = 0x680E;

pub const GS_BASE: u32 = 0x6810;

pub const LDTR_BASE: u32 = 0x6812;

pub const TR_BASE: u32 = 0x6814;

pub const GDTR_BASE: u32 = 0x6816;

pub const IDTR_BASE: u32 = 0x6818;

pub const RSP: u32 = 0x681C;

pub const RIP: u32 = 0x681E;

pub const RFLAGS: u32 = 0x6820;

pub const IA32_SYSENTER_ESP: u32 = 0x6824;

pub const IA32_SYSENTER_EIP: u32 = 0x6826;

} // verus!
