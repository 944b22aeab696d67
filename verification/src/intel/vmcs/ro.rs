//! Encodings of the read-only data fields, which the processor fills in on a
//! VM exit.
use vstd::prelude::*;

verus! {

/// VM-instruction error.
pub const VM_INSTRUCTION_ERROR: u32 = 0x4400;

/// Exit reason.
pub const EXIT_REASON: u32 = 0x4402;

/// VM-exit instruction length.
pub const VMEXIT_INSTRUCTION_LEN: u32 = 0x440C;

/// Exit qualification.
pub const EXIT_QUALIFICATION: u32 = 0x6400;

} // verus!
