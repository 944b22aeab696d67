//! What page tables of any kind share: the sizes of pages, the physical
//! addresses at which the tables of one structure lie, and the packing of
//! flags and fields into a 64-bit entry.
use vstd::prelude::*;

verus! {

/// log2 of the size of a page.
pub const BASE_PAGE_SHIFT: u64 = 12;

/// The size of a page: 4 KiB.
pub const BASE_PAGE_SIZE: u64 = 0x1000;

/// The size of a large page: 2 MiB.
pub const LARGE_PAGE_SIZE: u64 = 0x20_0000;

/// The number of entries in a table.
pub const TABLE_ENTRIES: usize = 512;

/// The number of 2 MiB pages in the 512 GiB that one PML4 entry spans.
pub const LARGE_PAGES: u64 = 0x4_0000;

/// The size of the address space that one PML4 entry spans: 512 GiB.
pub const MAPPED_SIZE: u64 = 0x80_0000_0000;

/// Bits 51:12 of an entry, which hold a page frame number.
pub const PFN_MASK: u64 = 0x000f_ffff_ffff_f000;

/// The physical addresses of the tables below the PML4, as the platform
/// translates them.
#[derive(Debug)]
pub struct TableAddresses {
    /// The page directory pointer table.
    pub pdpt: u64,
    /// The 512 page directories.
    pub pd: Vec<u64>,
    /// The page table of the first 2 MiB.
    pub pt: u64,
}

impl TableAddresses {
    /// There is an address for each of the 512 page directories.
    pub open spec fn spec_wf(&self) -> bool {
        self.pd@.len() == TABLE_ENTRIES
    }

    /// Tells whether there is an address for each page directory.
    #[verifier::when_used_as_spec(spec_wf)]
    pub fn wf(&self) -> (wf: bool)
        ensures
            wf == self.spec_wf(),
    {
        self.pd.len() == TABLE_ENTRIES
    }
}

/// Bit `index` of `bits`.
pub open spec fn spec_flag(bits: u64, index: u64) -> bool {
    bits & (1u64 << index) != 0
}

/// Bit `index` of `bits`.
#[verifier::when_used_as_spec(spec_flag)]
pub fn flag(bits: u64, index: u64) -> (value: bool)
    requires
        index < 64,
    ensures
        value == spec_flag(bits, index),
{
    bits & (1u64 << index) != 0
}

/// `bits` with bit `index` set or cleared.
pub open spec fn spec_with_flag(bits: u64, index: u64, value: bool) -> u64 {
    if value {
        bits | (1u64 << index)
    } else {
        bits & !(1u64 << index)
    }
}

/// `bits` with bit `index` set or cleared.
#[verifier::when_used_as_spec(spec_with_flag)]
pub fn with_flag(bits: u64, index: u64, value: bool) -> (updated: u64)
    requires
        index < 64,
    ensures
        updated == spec_with_flag(bits, index, value),
{
    if value {
        bits | (1u64 << index)
    } else {
        bits & !(1u64 << index)
    }
}

/// The field of `bits` that `mask` selects and that starts at bit `lsb`.
pub open spec fn spec_field(bits: u64, mask: u64, lsb: u64) -> u64 {
    (bits & mask) >> lsb
}

/// The field of `bits` that `mask` selects and that starts at bit `lsb`.
#[verifier::when_used_as_spec(spec_field)]
pub fn field(bits: u64, mask: u64, lsb: u64) -> (value: u64)
    requires
        lsb < 64,
    ensures
        value == spec_field(bits, mask, lsb),
{
    (bits & mask) >> lsb
}

/// `bits` with the field that `mask` selects, starting at bit `lsb`, set to
/// `value`, of which the bits that do not fit the field are dropped.
pub open spec fn spec_with_field(bits: u64, mask: u64, lsb: u64, value: u64) -> u64 {
    (bits & !mask) | ((value << lsb) & mask)
}

/// `bits` with the field that `mask` selects set to `value`.
#[verifier::when_used_as_spec(spec_with_field)]
pub fn with_field(bits: u64, mask: u64, lsb: u64, value: u64) -> (updated: u64)
    requires
        lsb < 64,
    ensures
        updated == spec_with_field(bits, mask, lsb, value),
{
    (bits & !mask) | ((value << lsb) & mask)
}

/// How an address below 512 GiB splits into the indices of a walk, and how
/// the page frame numbers of the identity map give the address back.
pub proof fn lemma_walk_indices(gpa: u64)
    by (bit_vector)
    requires
        gpa < 0x80_0000_0000,
    ensures
        gpa >> 48 == 0,
        (gpa >> 39) & 0x1ff == 0,
        (gpa >> 30) & 0x1ff < 512,
        (gpa >> 21) & 0x1ff < 512,
        (gpa >> 12) & 0x1ff < 512,
        ((gpa >> 30) & 0x1ff) * 512 + ((gpa >> 21) & 0x1ff) == gpa >> 21,
        gpa >> 21 < 0x4_0000,
        (gpa >> 21) * 0x20_0000 <= gpa < (gpa >> 21) * 0x20_0000 + 0x20_0000,
        (((((gpa >> 21) * 512) as u64) & 0xff_ffff_ffff) >> 9) << 21 | (gpa & 0x1f_ffff) == gpa,
        gpa < 0x20_0000 <==> gpa >> 21 == 0,
        gpa < 0x20_0000 ==> (gpa >> 12) & 0x1ff == gpa >> 12,
        gpa < 0x20_0000 ==> (gpa >> 12) * 0x1000 <= gpa < (gpa >> 12) * 0x1000 + 0x1000,
        gpa < 0x20_0000 ==> (((gpa >> 12) & 0xff_ffff_ffff) << 12) | (gpa & 0xfff) == gpa,
        !spec_flag(0, 7),
{
}

/// An address from 512 GiB on is looked up in another entry of the PML4
/// than the first, unless it is no address of 48 bits at all; and in an entry
/// that is zero every flag is clear.
pub proof fn lemma_beyond_first_entry(address: u64)
    by (bit_vector)
    requires
        address >= 0x80_0000_0000,
    ensures
        address >> 48 != 0 || 1 <= (address >> 39) & 0x1ff < 512,
        !spec_flag(0, 0),
        !spec_flag(0, 1),
        !spec_flag(0, 2),
        !spec_flag(0, 7),
{
}

} // verus!
