//! Extended page tables (EPT) that map guest-physical addresses to the same
//! physical addresses, with the memory types of the MTRRs.
//!
//! The first 2 MiB are mapped by 4 KiB pages, so that the memory types of the
//! fixed-range MTRRs carry over; every other address up to 512 GiB is mapped
//! by a 2 MiB page.
use vstd::prelude::*;
use core::ops::Range;
use crate::intel::mtrr::{lemma_found_type_holds_throughout, MemoryType, Mtrr};
use crate::paging::{
    field,
    lemma_beyond_first_entry,
    lemma_walk_indices,
    flag,
    spec_field,
    spec_flag,
    spec_with_field,
    with_field,
    with_flag,
    TableAddresses,
    BASE_PAGE_SHIFT,
    BASE_PAGE_SIZE,
    LARGE_PAGES,
    LARGE_PAGE_SIZE,
    MAPPED_SIZE,
    PFN_MASK,
    TABLE_ENTRIES,
};

verus! {

/// Bits 5:3 of an entry, which hold the memory type of a page.
pub const MEMORY_TYPE_MASK: u64 = 0x38;

/// Bits 5:3 of an EPT pointer, which hold the length of the page walk, less
/// one.
pub const PAGE_LEVELS_MASK: u64 = 0x38;

/// Bits 2:0 of an EPT pointer, which hold the memory type for accesses to
/// the tables.
pub const EPTP_MEMORY_TYPE_MASK: u64 = 0x7;

/// An entry of an extended page table of any level: "readable" in bit 0,
/// "writable" in bit 1, "executable" in bit 2, the memory type in bits 5:3,
/// "large" in bit 7 and the page frame number in bits 51:12.
#[derive(Clone, Copy, Debug, PartialEq, Eq, Structural)]
pub struct Entry(pub u64);

impl Entry {
    pub open spec fn spec_readable(&self) -> bool {
        flag(self.0, 0)
    }

    pub open spec fn spec_writable(&self) -> bool {
        flag(self.0, 1)
    }

    pub open spec fn spec_executable(&self) -> bool {
        flag(self.0, 2)
    }

    pub open spec fn spec_memory_type(&self) -> u64 {
        field(self.0, MEMORY_TYPE_MASK, 3)
    }

    pub open spec fn spec_large(&self) -> bool {
        flag(self.0, 7)
    }

    pub open spec fn spec_pfn(&self) -> u64 {
        field(self.0, PFN_MASK, BASE_PAGE_SHIFT)
    }

    #[verifier::when_used_as_spec(spec_readable)]
    pub fn readable(&self) -> (value: bool)
        ensures
            value == self.spec_readable(),
    {
        flag(self.0, 0)
    }

    pub fn set_readable(&mut self, value: bool)
        ensures
            final(self).0 == with_flag(old(self).0, 0, value),
    {
        self.0 = with_flag(self.0, 0, value);
    }

    #[verifier::when_used_as_spec(spec_writable)]
    pub fn writable(&self) -> (value: bool)
        ensures
            value == self.spec_writable(),
    {
        flag(self.0, 1)
    }

    pub fn set_writable(&mut self, value: bool)
        ensures
            final(self).0 == with_flag(old(self).0, 1, value),
    {
        self.0 = with_flag(self.0, 1, value);
    }

    #[verifier::when_used_as_spec(spec_executable)]
    pub fn executable(&self) -> (value: bool)
        ensures
            value == self.spec_executable(),
    {
        flag(self.0, 2)
    }

    pub fn set_executable(&mut self, value: bool)
        ensures
            final(self).0 == with_flag(old(self).0, 2, value),
    {
        self.0 = with_flag(self.0, 2, value);
    }

    #[verifier::when_used_as_spec(spec_memory_type)]
    pub fn memory_type(&self) -> (value: u64)
        ensures
            value == self.spec_memory_type(),
    {
        field(self.0, MEMORY_TYPE_MASK, 3)
    }

    /// Sets the memory type to the low three bits of `value`.
    pub fn set_memory_type(&mut self, value: u64)
        ensures
            final(self).0 == with_field(old(self).0, MEMORY_TYPE_MASK, 3, value),
    {
        self.0 = with_field(self.0, MEMORY_TYPE_MASK, 3, value);
    }

    #[verifier::when_used_as_spec(spec_large)]
    pub fn large(&self) -> (value: bool)
        ensures
            value == self.spec_large(),
    {
        flag(self.0, 7)
    }

    pub fn set_large(&mut self, value: bool)
        ensures
            final(self).0 == with_flag(old(self).0, 7, value),
    {
        self.0 = with_flag(self.0, 7, value);
    }

    #[verifier::when_used_as_spec(spec_pfn)]
    pub fn pfn(&self) -> (value: u64)
        ensures
            value == self.spec_pfn(),
    {
        field(self.0, PFN_MASK, BASE_PAGE_SHIFT)
    }

    /// Sets the page frame number to the low forty bits of `value`.
    pub fn set_pfn(&mut self, value: u64)
        ensures
            final(self).0 == with_field(old(self).0, PFN_MASK, BASE_PAGE_SHIFT, value),
    {
        self.0 = with_field(self.0, PFN_MASK, BASE_PAGE_SHIFT, value);
    }

    /// The entry made to refer to the table at page frame `pfn`, with every
    /// access allowed. The other bits are kept.
    pub open spec fn linked(self, pfn: u64) -> Entry {
        Entry(linked_bits(self.0, pfn))
    }

    /// The entry made to map the 4 KiB page at page frame `pfn` with the
    /// memory type `memory_type` and every access allowed. The other bits are
    /// kept.
    pub open spec fn mapped(self, memory_type: u64, pfn: u64) -> Entry {
        Entry(mapped_bits(self.0, memory_type, pfn))
    }

    /// The entry made to map the 2 MiB page at page frame `pfn` with the
    /// memory type `memory_type` and every access allowed. The other bits are
    /// kept.
    pub open spec fn mapped_large(self, memory_type: u64, pfn: u64) -> Entry {
        Entry(mapped_large_bits(self.0, memory_type, pfn))
    }
}

/// An entry with every access allowed.
pub open spec fn accessible_bits(bits: u64) -> u64 {
    with_flag(with_flag(with_flag(bits, 0, true), 1, true), 2, true)
}

/// See [`Entry::linked`].
pub open spec fn linked_bits(bits: u64, pfn: u64) -> u64 {
    with_field(accessible_bits(bits), PFN_MASK, BASE_PAGE_SHIFT, pfn)
}

/// See [`Entry::mapped`].
pub open spec fn mapped_bits(bits: u64, memory_type: u64, pfn: u64) -> u64 {
    with_field(
        with_field(accessible_bits(bits), MEMORY_TYPE_MASK, 3, memory_type),
        PFN_MASK,
        BASE_PAGE_SHIFT,
        pfn,
    )
}

/// See [`Entry::mapped_large`].
pub open spec fn mapped_large_bits(bits: u64, memory_type: u64, pfn: u64) -> u64 {
    with_field(
        with_flag(with_field(accessible_bits(bits), MEMORY_TYPE_MASK, 3, memory_type), 7, true),
        PFN_MASK,
        BASE_PAGE_SHIFT,
        pfn,
    )
}

/// What the fields of an entry read once it refers to a table or maps a
/// page: what was set, and what was there for the rest.
pub proof fn lemma_entry_fields(bits: u64, memory_type: u64, pfn: u64)
    by (bit_vector)
    requires
        memory_type < 8,
    ensures
        spec_flag(linked_bits(bits, pfn), 0),
        spec_flag(linked_bits(bits, pfn), 1),
        spec_flag(linked_bits(bits, pfn), 2),
        spec_flag(linked_bits(bits, pfn), 7) == spec_flag(bits, 7),
        spec_field(linked_bits(bits, pfn), 0x000f_ffff_ffff_f000, 12) == pfn & 0xff_ffff_ffff,
        linked_bits(bits, pfn) & !0x000f_ffff_ffff_f007u64 == bits & !0x000f_ffff_ffff_f007u64,
        spec_flag(mapped_bits(bits, memory_type, pfn), 0),
        spec_flag(mapped_bits(bits, memory_type, pfn), 1),
        spec_flag(mapped_bits(bits, memory_type, pfn), 2),
        spec_flag(mapped_bits(bits, memory_type, pfn), 7) == spec_flag(bits, 7),
        spec_field(mapped_bits(bits, memory_type, pfn), 0x38, 3) == memory_type,
        spec_field(mapped_bits(bits, memory_type, pfn), 0x000f_ffff_ffff_f000, 12) == pfn
            & 0xff_ffff_ffff,
        mapped_bits(bits, memory_type, pfn) & !0x000f_ffff_ffff_f03fu64 == bits
            & !0x000f_ffff_ffff_f03fu64,
        spec_flag(mapped_large_bits(bits, memory_type, pfn), 0),
        spec_flag(mapped_large_bits(bits, memory_type, pfn), 1),
        spec_flag(mapped_large_bits(bits, memory_type, pfn), 2),
        spec_flag(mapped_large_bits(bits, memory_type, pfn), 7),
        spec_field(mapped_large_bits(bits, memory_type, pfn), 0x38, 3) == memory_type,
        spec_field(mapped_large_bits(bits, memory_type, pfn), 0x000f_ffff_ffff_f000, 12) == pfn
            & 0xff_ffff_ffff,
        mapped_large_bits(bits, memory_type, pfn) & !0x000f_ffff_ffff_f0bfu64 == bits
            & !0x000f_ffff_ffff_f0bfu64,
        linked_bits(0, pfn) == 0x7 + (pfn % 0x100_0000_0000) * 0x1000,
        mapped_bits(0, memory_type, pfn) == 0x7 + memory_type * 0x8 + (pfn % 0x100_0000_0000)
            * 0x1000,
        mapped_large_bits(0, memory_type, pfn) == 0x87 + memory_type * 0x8 + (pfn
            % 0x100_0000_0000) * 0x1000,
{
}

impl Entry {
    /// Makes the entry refer to the table at page frame `pfn`.
    pub fn link(&mut self, pfn: u64)
        ensures
            *final(self) == old(self).linked(pfn),
    {
        self.set_readable(true);
        self.set_writable(true);
        self.set_executable(true);
        self.set_pfn(pfn);
    }

    /// Makes the entry map the 4 KiB page at page frame `pfn`.
    pub fn map(&mut self, memory_type: u64, pfn: u64)
        ensures
            *final(self) == old(self).mapped(memory_type, pfn),
    {
        self.set_readable(true);
        self.set_writable(true);
        self.set_executable(true);
        self.set_memory_type(memory_type);
        self.set_pfn(pfn);
    }

    /// Makes the entry map the 2 MiB page at page frame `pfn`.
    pub fn map_large(&mut self, memory_type: u64, pfn: u64)
        ensures
            *final(self) == old(self).mapped_large(memory_type, pfn),
    {
        self.set_readable(true);
        self.set_writable(true);
        self.set_executable(true);
        self.set_memory_type(memory_type);
        self.set_large(true);
        self.set_pfn(pfn);
    }
}

/// One table of 512 entries.
#[derive(Debug)]
pub struct Table {
    entries: [Entry; 512],
}

impl Table {
    /// The entries of the table.
    pub closed spec fn view(&self) -> Seq<Entry> {
        self.entries@
    }

    /// A table of which every entry is zero.
    pub fn new() -> (table: Self)
        ensures
            forall|i: int| 0 <= i < 512 ==> #[trigger] table@[i] == Entry(0),
    {
        Table { entries: [Entry(0);512] }
    }

    /// The entry at `index`.
    pub fn entry(&self, index: usize) -> (entry: Entry)
        requires
            index < TABLE_ENTRIES,
        ensures
            entry == self@[index as int],
    {
        self.entries[index]
    }
}

/// The addresses of the `j`-th 4 KiB page.
pub open spec fn small_page(j: int) -> Range<u64> {
    Range { start: (j * 0x1000) as u64, end: (j * 0x1000 + 0x1000) as u64 }
}

/// The addresses of the `n`-th 2 MiB page.
pub open spec fn large_page(n: int) -> Range<u64> {
    Range {
        start: (n * 0x20_0000) as u64,
        end: (n * 0x20_0000 + 0x20_0000) as u64,
    }
}

/// The MTRRs give one memory type to each page of the identity map: to
/// each of the 512 pages of 4 KiB and to each page of 2 MiB after them.
pub open spec fn identity_map_resolves(mtrr: Mtrr) -> bool {
    &&& forall|j: int| 0 <= j < 512 ==> (#[trigger] mtrr.spec_find(small_page(j))) is Some
    &&& forall|n: int| 1 <= n < 0x4_0000 ==> (#[trigger] mtrr.spec_find(large_page(n))) is Some
}

/// The encoding of the memory type that the MTRRs give to a page.
pub open spec fn page_memory_type(mtrr: Mtrr, page: Range<u64>) -> u64 {
    mtrr.spec_find(page)->0.value()
}

/// What the processor finds for a guest-physical address.
#[derive(Clone, Copy, Debug, PartialEq, Eq, Structural)]
pub struct Translation {
    pub address: u64,
    pub readable: bool,
    pub writable: bool,
    pub executable: bool,
    pub memory_type: u64,
}

/// The page frame number under which an entry refers to the table at `pa`.
pub open spec fn spec_pfn_of(pa: u64) -> u64 {
    pa >> BASE_PAGE_SHIFT
}

/// The extended page tables: one PML4, one page directory pointer table,
/// 512 page directories and the page table of the first 2 MiB.
#[derive(Debug)]
pub struct Epts {
    pml4: Table,
    pdpt: Table,
    /// The 512 page directories. They take 2 MiB and lie on the heap.
    pd: Vec<Table>,
    pt: Table,
}

impl Epts {
    /// The PML4.
    pub closed spec fn pml4(&self) -> Seq<Entry> {
        self.pml4@
    }

    /// The page directory pointer table.
    pub closed spec fn pdpt(&self) -> Seq<Entry> {
        self.pdpt@
    }

    /// The number of page directories.
    pub closed spec fn pd_count(&self) -> nat {
        self.pd@.len()
    }

    /// The `i`-th page directory.
    pub closed spec fn pd(&self, i: int) -> Seq<Entry> {
        self.pd@[i]@
    }

    /// The page table of the first 2 MiB.
    pub closed spec fn pt(&self) -> Seq<Entry> {
        self.pt@
    }

    /// All 512 page directories are there.
    pub closed spec fn wf(&self) -> bool {
        self.pd@.len() == 512
    }

    /// Every entry of every table is zero.
    pub open spec fn is_zeroed(&self) -> bool {
        &&& forall|i: int| 0 <= i < 512 ==> #[trigger] self.pml4()[i] == Entry(0)
        &&& forall|i: int| 0 <= i < 512 ==> #[trigger] self.pdpt()[i] == Entry(0)
        &&& forall|i: int| 0 <= i < 512 ==> #[trigger] self.pt()[i] == Entry(0)
        &&& forall|i: int, j: int|
            0 <= i < 512 && 0 <= j < 512 ==> #[trigger] self.pd(i)[j] == Entry(0)
    }

    /// The entry of the page table for the `k`-th page of 4 KiB, once the
    /// identity map is built over `self`.
    pub open spec fn built_pte(&self, mtrr: Mtrr, k: int) -> Entry {
        self.pt()[k].mapped(page_memory_type(mtrr, small_page(k)), k as u64)
    }

    /// Entry `j` of page directory `i`, once the identity map is built over
    /// `self`: the first refers to the page table, every other maps a page of
    /// 2 MiB.
    pub open spec fn built_pde(
        &self,
        mtrr: Mtrr,
        addresses: TableAddresses,
        i: int,
        j: int,
    ) -> Entry {
        if i == 0 && j == 0 {
            self.pd(i)[j].linked(spec_pfn_of(addresses.pt))
        } else {
            self.pd(i)[j].mapped_large(
                page_memory_type(mtrr, large_page(i * 512 + j)),
                ((i * 512 + j) * 512) as u64,
            )
        }
    }

    /// Whether `self` is `before` with the identity map built over it: the
    /// first entry of the PML4 refers to the page directory pointer table,
    /// each entry of that to its page directory, and the entries of the page
    /// directories and of the page table are as [`Self::built_pde`] and
    /// [`Self::built_pte`] say. Nothing else differs.
    pub open spec fn is_identity_map_over(
        &self,
        before: Epts,
        mtrr: Mtrr,
        addresses: TableAddresses,
    ) -> bool {
        &&& self.wf()
        &&& self.pml4()[0] == before.pml4()[0].linked(spec_pfn_of(addresses.pdpt))
        &&& forall|i: int| 1 <= i < 512 ==> #[trigger] self.pml4()[i] == before.pml4()[i]
        &&& forall|i: int|
            0 <= i < 512 ==> #[trigger] self.pdpt()[i] == before.pdpt()[i].linked(
                spec_pfn_of(addresses.pd@[i]),
            )
        &&& forall|k: int| 0 <= k < 512 ==> #[trigger] self.pt()[k] == before.built_pte(mtrr, k)
        &&& forall|i: int, j: int|
            0 <= i < 512 && 0 <= j < 512 ==> #[trigger] self.pd(i)[j] == before.built_pde(
                mtrr,
                addresses,
                i,
                j,
            )
    }

    /// Tables of which every entry is zero.
    pub fn new() -> (epts: Self)
        ensures
            epts.wf(),
            epts.is_zeroed(),
    {
        let mut pd: Vec<Table> = Vec::new();
        let mut i: usize = 0;
        while i < TABLE_ENTRIES
            invariant
                i <= TABLE_ENTRIES,
                pd@.len() == i,
                forall|k: int, j: int|
                    0 <= k < i && 0 <= j < TABLE_ENTRIES ==> #[trigger] pd@[k]@[j] == Entry(0),
            decreases TABLE_ENTRIES - i,
        {
            pd.push(Table::new());
            i += 1;
        }
        Epts { pml4: Table::new(), pdpt: Table::new(), pd, pt: Table::new() }
    }

    /// Maps the first 2 MiB by the 512 entries of the page table.
    fn map_small_pages(pt: &mut Table, mtrr: &Mtrr)
        requires
            mtrr.wf(),
            forall|j: int| 0 <= j < 512 ==> (#[trigger] mtrr.spec_find(small_page(j))) is Some,
        ensures
            forall|k: int|
                0 <= k < 512 ==> #[trigger] final(pt)@[k] == old(pt)@[k].mapped(
                    page_memory_type(*mtrr, small_page(k)),
                    k as u64,
                ),
    {
        let mut pa: u64 = 0;
        let mut k: usize = 0;
        while k < TABLE_ENTRIES
            invariant
                k <= 512,
                mtrr.wf(),
                forall|j: int| 0 <= j < 512 ==> (#[trigger] mtrr.spec_find(small_page(j))) is Some,
                pa == k * 0x1000,
                forall|n: int|
                    0 <= n < 512 ==> #[trigger] pt@[n] == if n < k {
                        old(pt)@[n].mapped(page_memory_type(*mtrr, small_page(n)), n as u64)
                    } else {
                        old(pt)@[n]
                    },
            decreases 512 - k,
        {
            let page = Range { start: pa, end: pa + BASE_PAGE_SIZE };
            assert(page == small_page(k as int));
            let memory_type = mtrr.find(page).unwrap();
            assert(pa >> 12 == k) by (bit_vector)
                requires
                    pa == k * 0x1000,
                    k < 512,
            ;
            let ghost before = pt@;
            pt.entries[k].map(memory_type.value(), pa >> BASE_PAGE_SHIFT);
            assert(pt@ =~= before.update(
                k as int,
                before[k as int].mapped(memory_type.value(), pa >> BASE_PAGE_SHIFT),
            ));
            pa += BASE_PAGE_SIZE;
            k += 1;
        }
    }

    /// Maps 2 MiB pages by the entries of the `i`-th page directory, from
    /// entry `first` on.
    fn map_large_pages(pd: &mut Table, mtrr: &Mtrr, i: usize, first: usize)
        requires
            mtrr.wf(),
            i < 512,
            first <= 512,
            i > 0 || first > 0,
            forall|n: int| 1 <= n < 0x4_0000 ==> (#[trigger] mtrr.spec_find(large_page(n))) is Some,
        ensures
            forall|j: int|
                0 <= j < 512 ==> #[trigger] final(pd)@[j] == if j >= first {
                    old(pd)@[j].mapped_large(
                        page_memory_type(*mtrr, large_page(i * 512 + j)),
                        ((i * 512 + j) * 512) as u64,
                    )
                } else {
                    old(pd)@[j]
                },
    {
        let mut j: usize = first;
        while j < TABLE_ENTRIES
            invariant
                first <= j <= 512,
                i < 512,
                i > 0 || first > 0,
                mtrr.wf(),
                forall|n: int|
                    1 <= n < 0x4_0000 ==> (#[trigger] mtrr.spec_find(large_page(n))) is Some,
                forall|b: int|
                    0 <= b < 512 ==> #[trigger] pd@[b] == if first <= b < j {
                        old(pd)@[b].mapped_large(
                            page_memory_type(*mtrr, large_page(i * 512 + b)),
                            ((i * 512 + b) * 512) as u64,
                        )
                    } else {
                        old(pd)@[b]
                    },
            decreases 512 - j,
        {
            let n: u64 = (i * 512 + j) as u64;
            let pa: u64 = n * LARGE_PAGE_SIZE;
            let page = Range { start: pa, end: pa + LARGE_PAGE_SIZE };
            assert(page == large_page(n as int));
            let memory_type = mtrr.find(page).unwrap();
            assert(pa >> 12 == n * 512) by (bit_vector)
                requires
                    pa == n * 0x20_0000,
                    n < 0x4_0000,
            ;
            let ghost before = pd@;
            pd.entries[j].map_large(memory_type.value(), pa >> BASE_PAGE_SHIFT);
            assert(pd@ =~= before.update(
                j as int,
                before[j as int].mapped_large(memory_type.value(), pa >> BASE_PAGE_SHIFT),
            ));
            j += 1;
        }
    }

    /// Builds the identity map: every guest-physical address below 512 GiB
    /// is mapped to itself, readable, writable and executable, with the memory
    /// type that the MTRRs give to its page.
    pub fn build_identity(&mut self, mtrr: &Mtrr, addresses: &TableAddresses)
        requires
            old(self).wf(),
            mtrr.wf(),
            addresses.wf(),
            identity_map_resolves(*mtrr),
        ensures
            final(self).is_identity_map_over(*old(self), *mtrr, *addresses),
    {
        self.pml4.entries[0].link(addresses.pdpt >> BASE_PAGE_SHIFT);
        let mut i: usize = 0;
        while i < TABLE_ENTRIES
            invariant
                i <= 512,
                self.wf(),
                old(self).wf(),
                mtrr.wf(),
                addresses.wf(),
                identity_map_resolves(*mtrr),
                self.pml4@ == old(self).pml4@.update(
                    0,
                    old(self).pml4@[0].linked(spec_pfn_of(addresses.pdpt)),
                ),
                forall|k: int|
                    0 <= k < 512 ==> #[trigger] self.pdpt@[k] == if k < i {
                        old(self).pdpt@[k].linked(spec_pfn_of(addresses.pd@[k]))
                    } else {
                        old(self).pdpt@[k]
                    },
                forall|k: int|
                    0 <= k < 512 ==> #[trigger] self.pt@[k] == if i > 0 {
                        old(self).pt@[k].mapped(page_memory_type(*mtrr, small_page(k)), k as u64)
                    } else {
                        old(self).pt@[k]
                    },
                forall|a: int|
                    i <= a < 512 ==> #[trigger] self.pd@[a] == old(self).pd@[a],
                forall|a: int, b: int|
                    0 <= a < i && 0 <= b < 512 ==> #[trigger] self.pd@[a]@[b] == if a == 0 && b
                        == 0 {
                        old(self).pd@[a]@[b].linked(spec_pfn_of(addresses.pt))
                    } else {
                        old(self).pd@[a]@[b].mapped_large(
                            page_memory_type(*mtrr, large_page(a * 512 + b)),
                            ((a * 512 + b) * 512) as u64,
                        )
                    },
            decreases 512 - i,
        {
            let ghost pointers = self.pdpt@;
            self.pdpt.entries[i].link(addresses.pd[i] >> BASE_PAGE_SHIFT);
            assert(self.pdpt@ =~= pointers.update(
                i as int,
                pointers[i as int].linked(addresses.pd[i as int] >> BASE_PAGE_SHIFT),
            ));
            let ghost directories = self.pd@;
            if i == 0 {
                // The first 2 MiB are mapped by 4 KiB pages, so that the
                // memory types of the MTRRs carry over exactly.
                self.pd[i].entries[0].link(addresses.pt >> BASE_PAGE_SHIFT);
                Self::map_small_pages(&mut self.pt, mtrr);
                Self::map_large_pages(&mut self.pd[i], mtrr, i, 1);
            } else {
                // The rest is mapped by 2 MiB pages: above 2 MiB the MTRRs
                // are taken to change at such bounds only.
                Self::map_large_pages(&mut self.pd[i], mtrr, i, 0);
            }
            proof {
                assert forall|a: int| 0 <= a < 512 && a != i implies self.pd@[a]
                    == directories[a] by {}
            }
            i += 1;
        }
        proof {
            let before = *old(self);
            assert forall|a: int, b: int| 0 <= a < 512 && 0 <= b < 512 implies #[trigger] self.pd(
                a,
            )[b] == before.built_pde(*mtrr, *addresses, a, b) by {
                assert(self.pd@[a]@[b] == if a == 0 && b == 0 {
                    before.pd@[a]@[b].linked(spec_pfn_of(addresses.pt))
                } else {
                    before.pd@[a]@[b].mapped_large(
                        page_memory_type(*mtrr, large_page(a * 512 + b)),
                        ((a * 512 + b) * 512) as u64,
                    )
                });
            }
        }
    }
}

impl Epts {
    /// The entry of the PML4 at `index`.
    pub fn pml4_entry(&self, index: usize) -> (entry: Entry)
        requires
            self.wf(),
            index < 512,
        ensures
            entry == self.pml4()[index as int],
    {
        self.pml4.entry(index)
    }

    /// The entry of the page directory pointer table at `index`.
    pub fn pdpt_entry(&self, index: usize) -> (entry: Entry)
        requires
            self.wf(),
            index < 512,
        ensures
            entry == self.pdpt()[index as int],
    {
        self.pdpt.entry(index)
    }

    /// The entry of page directory `directory` at `index`.
    pub fn pd_entry(&self, directory: usize, index: usize) -> (entry: Entry)
        requires
            self.wf(),
            directory < 512,
            index < 512,
        ensures
            entry == self.pd(directory as int)[index as int],
    {
        self.pd[directory].entry(index)
    }

    /// The entry of the page table at `index`.
    pub fn pt_entry(&self, index: usize) -> (entry: Entry)
        requires
            self.wf(),
            index < 512,
        ensures
            entry == self.pt()[index as int],
    {
        self.pt.entry(index)
    }

    /// Whether `pa` is the address of the first page of the identity map, in
    /// the order in which the map is built, to which the MTRRs give no memory
    /// type.
    pub open spec fn unresolved_page_spec(mtrr: Mtrr, pa: u64) -> bool {
        if pa < LARGE_PAGE_SIZE {
            &&& pa % 0x1000 == 0
            &&& mtrr.spec_find(small_page(pa as int / 0x1000)) is None
            &&& forall|j: int|
                0 <= j < pa as int / 0x1000 ==> (#[trigger] mtrr.spec_find(small_page(j))) is Some
        } else {
            &&& pa % 0x20_0000 == 0
            &&& pa < MAPPED_SIZE
            &&& mtrr.spec_find(large_page(pa as int / 0x20_0000)) is None
            &&& forall|j: int| 0 <= j < 512 ==> (#[trigger] mtrr.spec_find(small_page(j))) is Some
            &&& forall|n: int|
                1 <= n < pa as int / 0x20_0000 ==> (#[trigger] mtrr.spec_find(large_page(n)))
                    is Some
        }
    }

    /// The address of the first page of the identity map, in the order in
    /// which the map is built, to which the MTRRs give no memory type; none
    /// if they give one to every page.
    pub fn unresolved_page(mtrr: &Mtrr) -> (page: Option<u64>)
        requires
            mtrr.wf(),
        ensures
            page is None <==> identity_map_resolves(*mtrr),
            page matches Some(pa) ==> Self::unresolved_page_spec(*mtrr, pa),
    {
        let mut k: u64 = 0;
        while k < 512
            invariant
                k <= 512,
                mtrr.wf(),
                forall|j: int| 0 <= j < k ==> (#[trigger] mtrr.spec_find(small_page(j))) is Some,
            decreases 512 - k,
        {
            let pa: u64 = k * BASE_PAGE_SIZE;
            let page = Range { start: pa, end: pa + BASE_PAGE_SIZE };
            assert(page == small_page(k as int));
            if mtrr.find(page).is_none() {
                return Some(pa);
            }
            k += 1;
        }
        let mut n: u64 = 1;
        while n < LARGE_PAGES
            invariant
                1 <= n <= 0x4_0000,
                mtrr.wf(),
                forall|j: int| 0 <= j < 512 ==> (#[trigger] mtrr.spec_find(small_page(j))) is Some,
                forall|m: int| 1 <= m < n ==> (#[trigger] mtrr.spec_find(large_page(m))) is Some,
            decreases 0x4_0000 - n,
        {
            let pa: u64 = n * LARGE_PAGE_SIZE;
            let page = Range { start: pa, end: pa + LARGE_PAGE_SIZE };
            assert(page == large_page(n as int));
            if mtrr.find(page).is_none() {
                return Some(pa);
            }
            n += 1;
        }
        None
    }

    /// Builds the identity map as [`Self::build_identity`] does, where the
    /// MTRRs give a memory type to each of its pages; otherwise leaves the
    /// tables as they are and returns the address of the first page without
    /// a memory type.
    pub fn try_build_identity(&mut self, mtrr: &Mtrr, addresses: &TableAddresses) -> (built: Result<
        (),
        u64,
    >)
        requires
            old(self).wf(),
            mtrr.wf(),
            addresses.wf(),
        ensures
            built is Ok <==> identity_map_resolves(*mtrr),
            built is Ok ==> final(self).is_identity_map_over(*old(self), *mtrr, *addresses),
            built is Err ==> *final(self) == *old(self),
            built matches Err(pa) ==> Self::unresolved_page_spec(*mtrr, pa),
    {
        match Self::unresolved_page(mtrr) {
            Some(pa) => Err(pa),
            None => {
                self.build_identity(mtrr, addresses);
                Ok(())
            },
        }
    }
}

/// A 64-bit VMCS field value that tells the processor how to walk the
/// extended page tables: the memory type for accesses to the tables in bits
/// 2:0, the length of the walk less one in bits 5:3, the flags for accessed
/// and dirty bits and for supervisor shadow stacks in bits 6 and 7, and the
/// page frame number of the PML4 in bits 51:12.
#[derive(Clone, Copy, Debug, PartialEq, Eq, Structural)]
pub struct EptPointer(pub u64);

impl EptPointer {
    pub open spec fn spec_memory_type(&self) -> u64 {
        field(self.0, EPTP_MEMORY_TYPE_MASK, 0)
    }

    pub open spec fn spec_page_levels_minus_one(&self) -> u64 {
        field(self.0, PAGE_LEVELS_MASK, 3)
    }

    pub open spec fn spec_enable_access_dirty(&self) -> bool {
        flag(self.0, 6)
    }

    pub open spec fn spec_enable_sss(&self) -> bool {
        flag(self.0, 7)
    }

    pub open spec fn spec_pfn(&self) -> u64 {
        field(self.0, PFN_MASK, BASE_PAGE_SHIFT)
    }

    #[verifier::when_used_as_spec(spec_memory_type)]
    pub fn memory_type(&self) -> (value: u64)
        ensures
            value == self.spec_memory_type(),
    {
        field(self.0, EPTP_MEMORY_TYPE_MASK, 0)
    }

    /// Sets the memory type to the low three bits of `value`.
    pub fn set_memory_type(&mut self, value: u64)
        ensures
            final(self).0 == with_field(old(self).0, EPTP_MEMORY_TYPE_MASK, 0, value),
    {
        self.0 = with_field(self.0, EPTP_MEMORY_TYPE_MASK, 0, value);
    }

    #[verifier::when_used_as_spec(spec_page_levels_minus_one)]
    pub fn page_levels_minus_one(&self) -> (value: u64)
        ensures
            value == self.spec_page_levels_minus_one(),
    {
        field(self.0, PAGE_LEVELS_MASK, 3)
    }

    /// Sets the length of the walk, less one, to the low three bits of
    /// `value`.
    pub fn set_page_levels_minus_one(&mut self, value: u64)
        ensures
            final(self).0 == with_field(old(self).0, PAGE_LEVELS_MASK, 3, value),
    {
        self.0 = with_field(self.0, PAGE_LEVELS_MASK, 3, value);
    }

    #[verifier::when_used_as_spec(spec_enable_access_dirty)]
    pub fn enable_access_dirty(&self) -> (value: bool)
        ensures
            value == self.spec_enable_access_dirty(),
    {
        flag(self.0, 6)
    }

    pub fn set_enable_access_dirty(&mut self, value: bool)
        ensures
            final(self).0 == with_flag(old(self).0, 6, value),
    {
        self.0 = with_flag(self.0, 6, value);
    }

    #[verifier::when_used_as_spec(spec_enable_sss)]
    pub fn enable_sss(&self) -> (value: bool)
        ensures
            value == self.spec_enable_sss(),
    {
        flag(self.0, 7)
    }

    pub fn set_enable_sss(&mut self, value: bool)
        ensures
            final(self).0 == with_flag(old(self).0, 7, value),
    {
        self.0 = with_flag(self.0, 7, value);
    }

    #[verifier::when_used_as_spec(spec_pfn)]
    pub fn pfn(&self) -> (value: u64)
        ensures
            value == self.spec_pfn(),
    {
        field(self.0, PFN_MASK, BASE_PAGE_SHIFT)
    }

    /// Sets the page frame number to the low forty bits of `value`.
    pub fn set_pfn(&mut self, value: u64)
        ensures
            final(self).0 == with_field(old(self).0, PFN_MASK, BASE_PAGE_SHIFT, value),
    {
        self.0 = with_field(self.0, PFN_MASK, BASE_PAGE_SHIFT, value);
    }
}

/// The EPT pointer for a PML4 at the physical address `pml4_pa`: bits 51:12
/// of the address, a walk of four levels, and write-back accesses to the
/// tables.
pub open spec fn spec_eptp(pml4_pa: u64) -> u64 {
    (((pml4_pa / 0x1000) % 0x100_0000_0000) * 0x1000 + 0x1e) as u64
}

/// The pointer of [`spec_eptp`] is what setting the three fields of a zero
/// pointer gives, and its fields read as they were set.
pub proof fn lemma_eptp(pml4_pa: u64)
    by (bit_vector)
    ensures
        spec_with_field(
            spec_with_field(spec_with_field(0, 0x000f_ffff_ffff_f000, 12, pml4_pa >> 12), 0x7, 0, 6),
            0x38,
            3,
            3,
        ) == (pml4_pa & 0x000f_ffff_ffff_f000) | 0x1e,
        (pml4_pa & 0x000f_ffff_ffff_f000) | 0x1e == ((pml4_pa / 0x1000) % 0x100_0000_0000) * 0x1000
            + 0x1e,
        (pml4_pa & 0x000f_ffff_ffff_f000) >> 12 == (pml4_pa / 0x1000) % 0x100_0000_0000,
        spec_field((pml4_pa & 0x000f_ffff_ffff_f000) | 0x1e, 0x7, 0) == 6,
        spec_field((pml4_pa & 0x000f_ffff_ffff_f000) | 0x1e, 0x38, 3) == 3,
        spec_field((pml4_pa & 0x000f_ffff_ffff_f000) | 0x1e, 0x000f_ffff_ffff_f000, 12) == (pml4_pa
            & 0x000f_ffff_ffff_f000) >> 12,
        !spec_flag((pml4_pa & 0x000f_ffff_ffff_f000) | 0x1e, 6),
        !spec_flag((pml4_pa & 0x000f_ffff_ffff_f000) | 0x1e, 7),
{
}

impl Epts {
    /// Returns an EPT pointer for these tables, whose PML4 lies at the
    /// physical address `pml4_pa`.
    pub fn eptp(&self, pml4_pa: u64) -> (eptp: EptPointer)
        ensures
            eptp.0 == spec_eptp(pml4_pa),
            eptp.memory_type() == MemoryType::WriteBack.value(),
            eptp.page_levels_minus_one() == 3,
            eptp.pfn() == (pml4_pa / 0x1000) % 0x100_0000_0000,
            !eptp.enable_access_dirty(),
            !eptp.enable_sss(),
    {
        let mut eptp = EptPointer(0);
        eptp.set_pfn(pml4_pa >> BASE_PAGE_SHIFT);

        // The tables themselves are accessed as write-back memory, which is
        // the most efficient.
        eptp.set_memory_type(MemoryType::WriteBack.value());

        // The walk has four levels; the field holds one less.
        eptp.set_page_levels_minus_one(3);
        proof {
            lemma_eptp(pml4_pa);
        }
        eptp
    }
}

/// Whether an entry refers to the table at the physical address `pa`: it
/// allows some access, is no large page, and holds the page frame number of
/// the address, as far as one fits an entry.
pub open spec fn refers_to(entry: Entry, pa: u64) -> bool {
    &&& entry.readable() || entry.writable() || entry.executable()
    &&& !entry.large()
    &&& entry.pfn() == spec_pfn_of(pa) & 0xff_ffff_ffff
}

impl Epts {
    /// What the processor finds when it walks the tables for the
    /// guest-physical address `gpa`, the tables below the PML4 lying at
    /// `addresses`: nothing where an entry on the way allows no access or
    /// refers to no table of this structure.
    pub open spec fn translate(&self, addresses: TableAddresses, gpa: u64) -> Option<Translation> {
        let i = ((gpa >> 30) & 0x1ff) as int;
        let j = ((gpa >> 21) & 0x1ff) as int;
        let k = ((gpa >> 12) & 0x1ff) as int;
        let pml4e = self.pml4()[((gpa >> 39) & 0x1ff) as int];
        let pdpte = self.pdpt()[i];
        let pde = self.pd(i)[j];
        let pte = self.pt()[k];
        if gpa >> 48 != 0 || !refers_to(pml4e, addresses.pdpt) || !refers_to(
            pdpte,
            addresses.pd@[i],
        ) {
            None
        } else if pde.large() {
            if pde.readable() || pde.writable() || pde.executable() {
                Some(
                    Translation {
                        address: ((pde.pfn() >> 9) << 21) | (gpa & 0x1f_ffff),
                        readable: pml4e.readable() && pdpte.readable() && pde.readable(),
                        writable: pml4e.writable() && pdpte.writable() && pde.writable(),
                        executable: pml4e.executable() && pdpte.executable() && pde.executable(),
                        memory_type: pde.memory_type(),
                    },
                )
            } else {
                None
            }
        } else if !refers_to(pde, addresses.pt) {
            None
        } else if pte.readable() || pte.writable() || pte.executable() {
            Some(
                Translation {
                    address: (pte.pfn() << 12) | (gpa & 0xfff),
                    readable: pml4e.readable() && pdpte.readable() && pde.readable()
                        && pte.readable(),
                    writable: pml4e.writable() && pdpte.writable() && pde.writable()
                        && pte.writable(),
                    executable: pml4e.executable() && pdpte.executable() && pde.executable()
                        && pte.executable(),
                    memory_type: pte.memory_type(),
                },
            )
        } else {
            None
        }
    }
}

/// The identity map, built over tables that were zero, maps every
/// guest-physical address below 512 GiB to itself, readable, writable and
/// executable, with the memory type that the MTRRs give to that address.
pub proof fn lemma_identity_map(after: Epts, mtrr: Mtrr, addresses: TableAddresses, gpa: u64)
    requires
        mtrr.wf(),
        addresses.wf(),
        identity_map_resolves(mtrr),
        after.is_fresh_identity_map(mtrr, addresses),
        gpa < MAPPED_SIZE,
    ensures
        mtrr.type_at(gpa) is Some,
        after.translate(addresses, gpa) == Some(
            Translation {
                address: gpa,
                readable: true,
                writable: true,
                executable: true,
                memory_type: mtrr.type_at(gpa)->0.value(),
            },
        ),
{
    let before = choose|zeroed: Epts|
        #![trigger after.is_identity_map_over(zeroed, mtrr, addresses)]
        zeroed.wf() && zeroed.is_zeroed() && after.is_identity_map_over(zeroed, mtrr, addresses);
    lemma_walk_indices(gpa);
    let i = ((gpa >> 30) & 0x1ff) as int;
    let j = ((gpa >> 21) & 0x1ff) as int;
    let k = ((gpa >> 12) & 0x1ff) as int;
    let n = (gpa >> 21) as int;
    assert(after.pml4()[0] == before.pml4()[0].linked(spec_pfn_of(addresses.pdpt)));
    assert(before.pml4()[0] == Entry(0));
    lemma_entry_fields(0, 0, spec_pfn_of(addresses.pdpt));
    assert(after.pdpt()[i] == before.pdpt()[i].linked(spec_pfn_of(addresses.pd@[i])));
    assert(before.pdpt()[i] == Entry(0));
    lemma_entry_fields(0, 0, spec_pfn_of(addresses.pd@[i]));
    assert(after.pd(i)[j] == before.built_pde(mtrr, addresses, i, j));
    assert(before.pd(i)[j] == Entry(0));
    if gpa < 0x20_0000 {
        assert(i == 0 && j == 0);
        lemma_entry_fields(0, 0, spec_pfn_of(addresses.pt));
        let page = small_page(k);
        assert(mtrr.spec_find(page) is Some);
        lemma_found_type_holds_throughout(mtrr, page, gpa);
        assert(after.pt()[k] == before.built_pte(mtrr, k));
        assert(before.pt()[k] == Entry(0));
        lemma_entry_fields(0, page_memory_type(mtrr, page), k as u64);
    } else {
        assert(!(i == 0 && j == 0));
        let page = large_page(n);
        assert(mtrr.spec_find(page) is Some);
        lemma_found_type_holds_throughout(mtrr, page, gpa);
        lemma_entry_fields(0, page_memory_type(mtrr, page), (n * 512) as u64);
    }
}

impl Epts {
    /// Whether the tables hold the identity map built over tables that were
    /// zero.
    pub open spec fn is_fresh_identity_map(&self, mtrr: Mtrr, addresses: TableAddresses) -> bool {
        exists|zeroed: Epts|
            #![trigger self.is_identity_map_over(zeroed, mtrr, addresses)]
            zeroed.wf() && zeroed.is_zeroed() && self.is_identity_map_over(
                zeroed,
                mtrr,
                addresses,
            )
    }
}

/// The identity map, built over tables that were zero, maps no
/// guest-physical address from 512 GiB on.
pub proof fn lemma_nothing_beyond_the_identity_map(
    after: Epts,
    mtrr: Mtrr,
    addresses: TableAddresses,
    gpa: u64,
)
    requires
        after.is_fresh_identity_map(mtrr, addresses),
        gpa >= MAPPED_SIZE,
    ensures
        after.translate(addresses, gpa) is None,
{
    let before = choose|zeroed: Epts|
        #![trigger after.is_identity_map_over(zeroed, mtrr, addresses)]
        zeroed.wf() && zeroed.is_zeroed() && after.is_identity_map_over(zeroed, mtrr, addresses);
    lemma_beyond_first_entry(gpa);
    if gpa >> 48 == 0 {
        let index = ((gpa >> 39) & 0x1ff) as int;
        assert(after.pml4()[index] == before.pml4()[index]);
        assert(before.pml4()[index] == Entry(0));
    }
}

/// In an identity map built over tables that were zero, the first entry of
/// the first page directory refers to the page table, whose 512 entries map
/// the pages from address zero up to 2 MiB in their order, and every other
/// entry of every page directory maps a large page.
pub proof fn lemma_first_two_mib(after: Epts, mtrr: Mtrr, addresses: TableAddresses)
    requires
        mtrr.wf(),
        addresses.wf(),
        identity_map_resolves(mtrr),
        after.is_fresh_identity_map(mtrr, addresses),
    ensures
        !after.pd(0)[0].large(),
        refers_to(after.pd(0)[0], addresses.pt),
        forall|k: int| 0 <= k < 512 ==> (#[trigger] after.pt()[k]).pfn() == k,
        forall|i: int, j: int|
            0 <= i < 512 && 0 <= j < 512 && !(i == 0 && j == 0) ==> (#[trigger] after.pd(
                i,
            )[j]).large(),
{
    let before = choose|zeroed: Epts|
        #![trigger after.is_identity_map_over(zeroed, mtrr, addresses)]
        zeroed.wf() && zeroed.is_zeroed() && after.is_identity_map_over(zeroed, mtrr, addresses);
    lemma_walk_indices(0);
    assert(after.pd(0)[0] == before.built_pde(mtrr, addresses, 0, 0));
    assert(before.pd(0)[0] == Entry(0));
    lemma_entry_fields(0, 0, spec_pfn_of(addresses.pt));
    assert forall|k: int| 0 <= k < 512 implies (#[trigger] after.pt()[k]).pfn() == k by {
        assert(after.pt()[k] == before.built_pte(mtrr, k));
        assert(before.pt()[k] == Entry(0));
        assert(mtrr.spec_find(small_page(k)) is Some);
        lemma_entry_fields(0, page_memory_type(mtrr, small_page(k)), k as u64);
        let small = k as u64;
        assert(small & 0xff_ffff_ffff == small) by (bit_vector)
            requires
                small < 512,
        ;
    }
    assert forall|i: int, j: int|
        0 <= i < 512 && 0 <= j < 512 && !(i == 0 && j == 0) implies (#[trigger] after.pd(
        i,
    )[j]).large() by {
        assert(after.pd(i)[j] == before.built_pde(mtrr, addresses, i, j));
        assert(before.pd(i)[j] == Entry(0));
        assert(mtrr.spec_find(large_page(i * 512 + j)) is Some);
        lemma_entry_fields(
            0,
            page_memory_type(mtrr, large_page(i * 512 + j)),
            ((i * 512 + j) * 512) as u64,
        );
    }
}

} // verus!
