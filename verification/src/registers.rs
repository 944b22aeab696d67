//! The register state of a guest that lives outside its VMCS.
use vstd::prelude::*;

verus! {

/// The general purpose registers of a guest, with the three registers that
/// are exchanged with the VMCS around every VM entry and VM exit.
#[derive(Clone, Copy, Debug)]
pub struct Registers {
    pub rax: u64,
    pub rbx: u64,
    pub rcx: u64,
    pub rdx: u64,
    pub rdi: u64,
    pub rsi: u64,
    pub rbp: u64,
    pub r8: u64,
    pub r9: u64,
    pub r10: u64,
    pub r11: u64,
    pub r12: u64,
    pub r13: u64,
    pub r14: u64,
    pub r15: u64,
    pub rflags: u64,
    pub rsp: u64,
    pub rip: u64,
}

impl Registers {
    /// The state in which every register is zero.
    pub open spec fn zeroed() -> Registers {
        Registers {
            rax: 0,
            rbx: 0,
            rcx: 0,
            rdx: 0,
            rdi: 0,
            rsi: 0,
            rbp: 0,
            r8: 0,
            r9: 0,
            r10: 0,
            r11: 0,
            r12: 0,
            r13: 0,
            r14: 0,
            r15: 0,
            rflags: 0,
            rsp: 0,
            rip: 0,
        }
    }
}

impl Default for Registers {
    fn default() -> (registers: Self)
        ensures
            registers == Registers::zeroed(),
    {
        Registers {
            rax: 0,
            rbx: 0,
            rcx: 0,
            rdx: 0,
            rdi: 0,
            rsi: 0,
            rbp: 0,
            r8: 0,
            r9: 0,
            r10: 0,
            r11: 0,
            r12: 0,
            r13: 0,
            r14: 0,
            r15: 0,
            rflags: 0,
            rsp: 0,
            rip: 0,
        }
    }
}

} // verus!
