//! Support for Intel VT-x (VMX).
pub mod controls;
pub mod epts;
pub mod exit;
pub mod guest;
pub mod mtrr;
pub mod reset;
pub mod shared;
pub mod state;
pub mod vmcs;
pub mod vmx;
