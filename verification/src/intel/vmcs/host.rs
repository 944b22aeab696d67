//! Encodings of the host-state fields.
use vstd::prelude::*;

verus! {

pub const ES_SELECTOR: u32 = 0xC00;

pub const CS_SELECTOR: u32 = 0xC02;

pub const SS_SELECTOR: u32 = 0xC04;

pub const DS_SELECTOR: u32 = 0xC06;

pub const FS_SELECTOR: u32 = 0xC08;

pub const GS_SELECTOR: u32 = 0xC0A;

pub const TR_SELECTOR: u32 = 0xC0C;

pub const CR0: u32 = 0x6C00;

pub const CR3: u32 = 0x6C02;

pub const CR4: u32 = 0x6C04;

pub const FS_BASE: u32 = 0x6C06;

pub const GS_BASE: u32 = 0x6C08;

pub const TR_BASE: u32 = 0x6C0A;

pub const GDTR_BASE: u32 = 0x6C0C;

pub const IDTR_BASE: u32 = 0x6C0E;

} // verus!
