//! Core logic of a thin, pass-through hypervisor for Intel VT-x.
//!
//! The crate holds the parts of the hypervisor that decide and compute: the
//! layout of page tables, the interpretation of memory type range registers,
//! the values programmed into a virtual-machine control structure and the
//! handling of VM exits. Privileged instructions are left to the caller, which
//! hands in what it read from the processor and carries out what is returned.
pub mod apic_id;
pub mod bits;
pub mod host;
pub mod intel;
pub mod paging;
pub mod paging_structures;
pub mod registers;
pub mod segment;
