//! Page tables of the host that map every virtual address below 512 GiB to
//! the same physical address.
//!
//! The first 2 MiB are mapped by 4 KiB pages, of which the first is left out,
//! so that a null pointer faults; every other address is mapped by a 2 MiB
//! page. Nested page tables take the same form, with large pages throughout
//! and access from user mode.
use vstd::prelude::*;
use crate::paging::{
    field,
    flag,
    lemma_beyond_first_entry,
    lemma_walk_indices,
    spec_field,
    spec_flag,
    spec_with_flag,
    with_field,
    with_flag,
    TableAddresses,
    BASE_PAGE_SHIFT,
    BASE_PAGE_SIZE,
    LARGE_PAGE_SIZE,
    MAPPED_SIZE,
    PFN_MASK,
    TABLE_ENTRIES,
};

verus! {

/// An entry of a page table of any level: "present" in bit 0, "writable" in
/// bit 1, "user" in bit 2, "large" in bit 7 and the page frame number in bits
/// 51:12.
#[derive(Clone, Copy, Debug, PartialEq, Eq, Structural)]
pub struct Entry(pub u64);

impl Entry {
    pub open spec fn spec_present(&self) -> bool {
        flag(self.0, 0)
    }

    pub open spec fn spec_writable(&self) -> bool {
        flag(self.0, 1)
    }

    pub open spec fn spec_user(&self) -> bool {
        flag(self.0, 2)
    }

    pub open spec fn spec_large(&self) -> bool {
        flag(self.0, 7)
    }

    pub open spec fn spec_pfn(&self) -> u64 {
        field(self.0, PFN_MASK, BASE_PAGE_SHIFT)
    }

    #[verifier::when_used_as_spec(spec_present)]
    pub fn present(&self) -> (value: bool)
        ensures
            value == self.spec_present(),
    {
        flag(self.0, 0)
    }

    pub fn set_present(&mut self, value: bool)
        ensures
            final(self).0 == with_flag(old(self).0, 0, value),
    {
        self.0 = with_flag(self.0, 0, value);
    }

    #[verifier::when_used_as_spec(spec_writable)]
    pub fn writable(&self) -> (value: bool)
        ensures
            value == self.spec_writable(),
    {
        flag(self.0, 1)
    }

    pub fn set_writable(&mut self, value: bool)
        ensures
            final(self).0 == with_flag(old(self).0, 1, value),
    {
        self.0 = with_flag(self.0, 1, value);
    }

    #[verifier::when_used_as_spec(spec_user)]
    pub fn user(&self) -> (value: bool)
        ensures
            value == self.spec_user(),
    {
        flag(self.0, 2)
    }

    pub fn set_user(&mut self, value: bool)
        ensures
            final(self).0 == with_flag(old(self).0, 2, value),
    {
        self.0 = with_flag(self.0, 2, value);
    }

    #[verifier::when_used_as_spec(spec_large)]
    pub fn large(&self) -> (value: bool)
        ensures
            value == self.spec_large(),
    {
        flag(self.0, 7)
    }

    pub fn set_large(&mut self, value: bool)
        ensures
            final(self).0 == with_flag(old(self).0, 7, value),
    {
        self.0 = with_flag(self.0, 7, value);
    }

    #[verifier::when_used_as_spec(spec_pfn)]
    pub fn pfn(&self) -> (value: u64)
        ensures
            value == self.spec_pfn(),
    {
        field(self.0, PFN_MASK, BASE_PAGE_SHIFT)
    }

    /// Sets the page frame number to the low forty bits of `value`.
    pub fn set_pfn(&mut self, value: u64)
        ensures
            final(self).0 == with_field(old(self).0, PFN_MASK, BASE_PAGE_SHIFT, value),
    {
        self.0 = with_field(self.0, PFN_MASK, BASE_PAGE_SHIFT, value);
    }

    /// The entry made present and writable, for user mode or not, with the
    /// page frame number `pfn`: it refers to a table or maps a 4 KiB page.
    /// The other bits are kept.
    pub open spec fn mapped(self, user: bool, pfn: u64) -> Entry {
        Entry(mapped_bits(self.0, user, pfn))
    }

    /// The entry made to map the 2 MiB page at page frame `pfn`, present and
    /// writable, for user mode or not. The other bits are kept.
    pub open spec fn mapped_large(self, user: bool, pfn: u64) -> Entry {
        Entry(mapped_large_bits(self.0, user, pfn))
    }

    /// The entry with the present flag cleared.
    pub open spec fn unmapped(self) -> Entry {
        Entry(with_flag(self.0, 0, false))
    }

    /// Makes the entry refer to the table, or map the 4 KiB page, at page
    /// frame `pfn`.
    pub fn map(&mut self, user: bool, pfn: u64)
        ensures
            *final(self) == old(self).mapped(user, pfn),
    {
        self.set_present(true);
        self.set_writable(true);
        self.set_user(user);
        self.set_pfn(pfn);
    }

    /// Makes the entry map the 2 MiB page at page frame `pfn`.
    pub fn map_large(&mut self, user: bool, pfn: u64)
        ensures
            *final(self) == old(self).mapped_large(user, pfn),
    {
        self.set_present(true);
        self.set_writable(true);
        self.set_user(user);
        self.set_large(true);
        self.set_pfn(pfn);
    }
}

/// See [`Entry::mapped`].
pub open spec fn mapped_bits(bits: u64, user: bool, pfn: u64) -> u64 {
    with_field(
        with_flag(with_flag(with_flag(bits, 0, true), 1, true), 2, user),
        PFN_MASK,
        BASE_PAGE_SHIFT,
        pfn,
    )
}

/// See [`Entry::mapped_large`].
pub open spec fn mapped_large_bits(bits: u64, user: bool, pfn: u64) -> u64 {
    with_field(
        with_flag(with_flag(with_flag(with_flag(bits, 0, true), 1, true), 2, user), 7, true),
        PFN_MASK,
        BASE_PAGE_SHIFT,
        pfn,
    )
}

/// What the fields of an entry read once it refers to a table or maps a
/// page: what was set, and what was there for the rest.
pub proof fn lemma_entry_fields(bits: u64, user: bool, pfn: u64)
    by (bit_vector)
    ensures
        spec_flag(mapped_bits(bits, user, pfn), 0),
        spec_flag(mapped_bits(bits, user, pfn), 1),
        spec_flag(mapped_bits(bits, user, pfn), 2) == user,
        spec_flag(mapped_bits(bits, user, pfn), 7) == spec_flag(bits, 7),
        spec_field(mapped_bits(bits, user, pfn), 0x000f_ffff_ffff_f000, 12) == pfn
            & 0xff_ffff_ffff,
        mapped_bits(bits, user, pfn) & !0x000f_ffff_ffff_f007u64 == bits
            & !0x000f_ffff_ffff_f007u64,
        !spec_flag(spec_with_flag(mapped_bits(bits, user, pfn), 0, false), 0),
        spec_with_flag(mapped_bits(bits, user, pfn), 0, false) & !1u64 == mapped_bits(
            bits,
            user,
            pfn,
        ) & !1u64,
        spec_flag(mapped_large_bits(bits, user, pfn), 0),
        spec_flag(mapped_large_bits(bits, user, pfn), 1),
        spec_flag(mapped_large_bits(bits, user, pfn), 2) == user,
        spec_flag(mapped_large_bits(bits, user, pfn), 7),
        spec_field(mapped_large_bits(bits, user, pfn), 0x000f_ffff_ffff_f000, 12) == pfn
            & 0xff_ffff_ffff,
        mapped_large_bits(bits, user, pfn) & !0x000f_ffff_ffff_f087u64 == bits
            & !0x000f_ffff_ffff_f087u64,
{
}

/// One table of 512 entries.
#[derive(Debug)]
pub struct Table {
    entries: [Entry; 512],
}

impl Table {
    /// The entries of the table.
    pub closed spec fn view(&self) -> Seq<Entry> {
        self.entries@
    }

    /// A table of which every entry is zero.
    pub fn new() -> (table: Self)
        ensures
            forall|i: int| 0 <= i < 512 ==> #[trigger] table@[i] == Entry(0),
    {
        Table { entries: [Entry(0);512] }
    }

    /// The entry at `index`.
    pub fn entry(&self, index: usize) -> (entry: Entry)
        requires
            index < 512,
        ensures
            entry == self@[index as int],
    {
        self.entries[index]
    }
}

/// The page frame number under which an entry refers to the table at `pa`.
pub open spec fn spec_pfn_of(pa: u64) -> u64 {
    pa >> BASE_PAGE_SHIFT
}

/// The tables themselves: one PML4, one page directory pointer table, 512
/// page directories, the page table of the first 2 MiB, and a page table
/// that is set aside for the page of the local APIC.
#[derive(Debug)]
pub struct PagingStructuresRaw {
    pml4: Table,
    pdpt: Table,
    /// The 512 page directories. They take 2 MiB and lie on the heap.
    pd: Vec<Table>,
    pt: Table,
    pt_apic: Table,
}

impl PagingStructuresRaw {
    /// The PML4.
    pub closed spec fn pml4(&self) -> Seq<Entry> {
        self.pml4@
    }

    /// The page directory pointer table.
    pub closed spec fn pdpt(&self) -> Seq<Entry> {
        self.pdpt@
    }

    /// The `i`-th page directory.
    pub closed spec fn pd(&self, i: int) -> Seq<Entry> {
        self.pd@[i]@
    }

    /// The page table of the first 2 MiB.
    pub closed spec fn pt(&self) -> Seq<Entry> {
        self.pt@
    }

    /// The page table that is set aside for the page of the local APIC.
    pub closed spec fn pt_apic(&self) -> Seq<Entry> {
        self.pt_apic@
    }

    /// All 512 page directories are there.
    pub closed spec fn wf(&self) -> bool {
        self.pd@.len() == 512
    }

    /// Every entry of every table is zero.
    pub open spec fn is_zeroed(&self) -> bool {
        &&& forall|i: int| 0 <= i < 512 ==> #[trigger] self.pml4()[i] == Entry(0)
        &&& forall|i: int| 0 <= i < 512 ==> #[trigger] self.pdpt()[i] == Entry(0)
        &&& forall|i: int| 0 <= i < 512 ==> #[trigger] self.pt()[i] == Entry(0)
        &&& forall|i: int| 0 <= i < 512 ==> #[trigger] self.pt_apic()[i] == Entry(0)
        &&& forall|i: int, j: int|
            0 <= i < 512 && 0 <= j < 512 ==> #[trigger] self.pd(i)[j] == Entry(0)
    }

    /// The entry of the page table for the `k`-th page of 4 KiB, once the
    /// identity map is built over `self`: unchanged for nested page tables,
    /// which do without the page table; else mapped, but for the first, which
    /// is left not present.
    pub open spec fn built_pte(&self, npt: bool, k: int) -> Entry {
        if npt {
            self.pt()[k]
        } else if k == 0 {
            self.pt()[k].mapped(false, k as u64).unmapped()
        } else {
            self.pt()[k].mapped(false, k as u64)
        }
    }

    /// Entry `j` of page directory `i`, once the identity map is built over
    /// `self`: the first refers to the page table, unless the tables are
    /// nested page tables; every other maps a page of 2 MiB.
    pub open spec fn built_pde(
        &self,
        addresses: TableAddresses,
        npt: bool,
        i: int,
        j: int,
    ) -> Entry {
        if i == 0 && j == 0 && !npt {
            self.pd(i)[j].mapped(false, spec_pfn_of(addresses.pt))
        } else {
            self.pd(i)[j].mapped_large(npt, ((i * 512 + j) * 512) as u64)
        }
    }

    /// Whether `self` is `before` with the identity map built over it: the
    /// first entry of the PML4 refers to the page directory pointer table,
    /// each entry of that to its page directory, and the entries of the page
    /// directories and of the page table are as [`Self::built_pde`] and
    /// [`Self::built_pte`] say. Nothing else differs. With `npt` the map is
    /// one of nested page tables.
    pub open spec fn is_identity_map_over(
        &self,
        before: PagingStructuresRaw,
        addresses: TableAddresses,
        npt: bool,
    ) -> bool {
        &&& self.wf()
        &&& self.pml4()[0] == before.pml4()[0].mapped(npt, spec_pfn_of(addresses.pdpt))
        &&& forall|i: int| 1 <= i < 512 ==> #[trigger] self.pml4()[i] == before.pml4()[i]
        &&& forall|i: int|
            0 <= i < 512 ==> #[trigger] self.pdpt()[i] == before.pdpt()[i].mapped(
                npt,
                spec_pfn_of(addresses.pd@[i]),
            )
        &&& forall|k: int| 0 <= k < 512 ==> #[trigger] self.pt()[k] == before.built_pte(npt, k)
        &&& forall|k: int| 0 <= k < 512 ==> #[trigger] self.pt_apic()[k] == before.pt_apic()[k]
        &&& forall|i: int, j: int|
            0 <= i < 512 && 0 <= j < 512 ==> #[trigger] self.pd(i)[j] == before.built_pde(
                addresses,
                npt,
                i,
                j,
            )
    }

    /// Whether the tables hold the identity map built over tables that were
    /// zero.
    pub open spec fn is_fresh_identity_map(&self, addresses: TableAddresses, npt: bool) -> bool {
        exists|zeroed: PagingStructuresRaw|
            #![trigger self.is_identity_map_over(zeroed, addresses, npt)]
            zeroed.wf() && zeroed.is_zeroed() && self.is_identity_map_over(zeroed, addresses, npt)
    }

    /// Tables of which every entry is zero.
    pub fn new() -> (raw: Self)
        ensures
            raw.wf(),
            raw.is_zeroed(),
    {
        let mut pd: Vec<Table> = Vec::new();
        let mut i: usize = 0;
        while i < TABLE_ENTRIES
            invariant
                i <= 512,
                pd@.len() == i,
                forall|k: int, j: int| 0 <= k < i && 0 <= j < 512 ==> #[trigger] pd@[k]@[j] == Entry(0),
            decreases 512 - i,
        {
            pd.push(Table::new());
            i += 1;
        }
        PagingStructuresRaw {
            pml4: Table::new(),
            pdpt: Table::new(),
            pd,
            pt: Table::new(),
            pt_apic: Table::new(),
        }
    }

    /// Builds the identity map of the host: every address below 512 GiB is
    /// mapped to itself, writable and for supervisor mode only, but for the
    /// first 4 KiB, which are not present.
    pub fn build_identity(&mut self, addresses: &TableAddresses)
        requires
            old(self).wf(),
            addresses.wf(),
        ensures
            final(self).is_identity_map_over(*old(self), *addresses, false),
    {
        build_identity_internal(self, addresses, false);
    }

    /// The entry of the PML4 at `index`.
    pub fn pml4_entry(&self, index: usize) -> (entry: Entry)
        requires
            self.wf(),
            index < 512,
        ensures
            entry == self.pml4()[index as int],
    {
        self.pml4.entry(index)
    }

    /// The entry of the page directory pointer table at `index`.
    pub fn pdpt_entry(&self, index: usize) -> (entry: Entry)
        requires
            self.wf(),
            index < 512,
        ensures
            entry == self.pdpt()[index as int],
    {
        self.pdpt.entry(index)
    }

    /// The entry of page directory `directory` at `index`.
    pub fn pd_entry(&self, directory: usize, index: usize) -> (entry: Entry)
        requires
            self.wf(),
            directory < 512,
            index < 512,
        ensures
            entry == self.pd(directory as int)[index as int],
    {
        self.pd[directory].entry(index)
    }

    /// The entry of the page table at `index`.
    pub fn pt_entry(&self, index: usize) -> (entry: Entry)
        requires
            self.wf(),
            index < 512,
        ensures
            entry == self.pt()[index as int],
    {
        self.pt.entry(index)
    }
}

/// Maps the first 2 MiB by the 512 entries of the page table, and makes the
/// first page not present, so that a null pointer faults.
fn map_small_pages(pt: &mut Table, user: bool)
    requires
    ensures
        forall|k: int|
            0 <= k < 512 ==> #[trigger] final(pt)@[k] == if k == 0 {
                old(pt)@[k].mapped(user, k as u64).unmapped()
            } else {
                old(pt)@[k].mapped(user, k as u64)
            },
{
    let mut pa: u64 = 0;
    let mut k: usize = 0;
    while k < TABLE_ENTRIES
        invariant
            k <= 512,
            pa == k * 0x1000,
            forall|n: int|
                0 <= n < 512 ==> #[trigger] pt@[n] == if n < k {
                    old(pt)@[n].mapped(user, n as u64)
                } else {
                    old(pt)@[n]
                },
        decreases 512 - k,
    {
        assert(pa >> 12 == k) by (bit_vector)
            requires
                pa == k * 0x1000,
                k < 512,
        ;
        let ghost before = pt@;
        pt.entries[k].map(user, pa >> BASE_PAGE_SHIFT);
        assert(pt@ =~= before.update(
            k as int,
            before[k as int].mapped(user, pa >> BASE_PAGE_SHIFT),
        ));
        pa += BASE_PAGE_SIZE;
        k += 1;
    }
    // Make the null page invalid to detect null pointer access.
    let ghost mapped = pt@;
    pt.entries[0].set_present(false);
    assert(pt@ =~= mapped.update(0, mapped[0].unmapped()));
}

/// Maps 2 MiB pages by the entries of the `i`-th page directory, from entry
/// `first` on.
fn map_large_pages(pd: &mut Table, i: usize, first: usize, user: bool)
    requires
        i < 512,
        first <= 512,
    ensures
        forall|j: int|
            0 <= j < 512 ==> #[trigger] final(pd)@[j] == if j >= first {
                old(pd)@[j].mapped_large(user, ((i * 512 + j) * 512) as u64)
            } else {
                old(pd)@[j]
            },
{
    let mut j: usize = first;
    while j < TABLE_ENTRIES
        invariant
            first <= j <= 512,
            i < 512,
            forall|b: int|
                0 <= b < 512 ==> #[trigger] pd@[b] == if first <= b < j {
                    old(pd)@[b].mapped_large(user, ((i * 512 + b) * 512) as u64)
                } else {
                    old(pd)@[b]
                },
        decreases 512 - j,
    {
        let n: u64 = (i * 512 + j) as u64;
        let pa: u64 = n * LARGE_PAGE_SIZE;
        assert(pa >> 12 == n * 512) by (bit_vector)
            requires
                pa == n * 0x20_0000,
                n < 0x4_0000,
        ;
        let ghost before = pd@;
        pd.entries[j].map_large(user, pa >> BASE_PAGE_SHIFT);
        assert(pd@ =~= before.update(
            j as int,
            before[j as int].mapped_large(user, pa >> BASE_PAGE_SHIFT),
        ));
        j += 1;
    }
}

/// Builds the identity map over `ps`, for the host or, with `npt`, as
/// nested page tables.
pub fn build_identity_internal(ps: &mut PagingStructuresRaw, addresses: &TableAddresses, npt: bool)
    requires
        old(ps).wf(),
        addresses.wf(),
    ensures
        final(ps).is_identity_map_over(*old(ps), *addresses, npt),
{
    let user = npt;
    ps.pml4.entries[0].map(user, addresses.pdpt >> BASE_PAGE_SHIFT);
    let mut i: usize = 0;
    while i < TABLE_ENTRIES
        invariant
            i <= 512,
            ps.wf(),
            old(ps).wf(),
            addresses.wf(),
            user == npt,
            ps.pt_apic == old(ps).pt_apic,
            ps.pml4@ == old(ps).pml4@.update(
                0,
                old(ps).pml4@[0].mapped(user, spec_pfn_of(addresses.pdpt)),
            ),
            forall|k: int|
                0 <= k < 512 ==> #[trigger] ps.pdpt@[k] == if k < i {
                    old(ps).pdpt@[k].mapped(user, spec_pfn_of(addresses.pd@[k]))
                } else {
                    old(ps).pdpt@[k]
                },
            forall|k: int|
                0 <= k < 512 ==> #[trigger] ps.pt@[k] == if i > 0 && !npt {
                    if k == 0 {
                        old(ps).pt@[k].mapped(user, k as u64).unmapped()
                    } else {
                        old(ps).pt@[k].mapped(user, k as u64)
                    }
                } else {
                    old(ps).pt@[k]
                },
            forall|a: int| i <= a < 512 ==> #[trigger] ps.pd@[a] == old(ps).pd@[a],
            forall|a: int, b: int|
                0 <= a < i && 0 <= b < 512 ==> #[trigger] ps.pd@[a]@[b] == if a == 0 && b == 0
                    && !npt {
                    old(ps).pd@[a]@[b].mapped(user, spec_pfn_of(addresses.pt))
                } else {
                    old(ps).pd@[a]@[b].mapped_large(user, ((a * 512 + b) * 512) as u64)
                },
        decreases 512 - i,
    {
        let ghost pointers = ps.pdpt@;
        ps.pdpt.entries[i].map(user, addresses.pd[i] >> BASE_PAGE_SHIFT);
        assert(ps.pdpt@ =~= pointers.update(
            i as int,
            pointers[i as int].mapped(user, addresses.pd[i as int] >> BASE_PAGE_SHIFT),
        ));
        let ghost directories = ps.pd@;
        if i == 0 && !npt {
            // The first 2 MiB are mapped by 4 KiB pages if the tables are not
            // nested page tables, so that the page at address zero can be
            // left out.
            ps.pd[i].entries[0].map(user, addresses.pt >> BASE_PAGE_SHIFT);
            map_small_pages(&mut ps.pt, user);
            map_large_pages(&mut ps.pd[i], i, 1, user);
        } else {
            map_large_pages(&mut ps.pd[i], i, 0, user);
        }
        proof {
            assert forall|a: int| 0 <= a < 512 && a != i implies ps.pd@[a] == directories[a] by {}
        }
        i += 1;
    }
    proof {
        let before = *old(ps);
        assert forall|a: int, b: int| 0 <= a < 512 && 0 <= b < 512 implies #[trigger] ps.pd(a)[b]
            == before.built_pde(*addresses, npt, a, b) by {
            assert(ps.pd@[a]@[b] == if a == 0 && b == 0 && !npt {
                before.pd@[a]@[b].mapped(user, spec_pfn_of(addresses.pt))
            } else {
                before.pd@[a]@[b].mapped_large(user, ((a * 512 + b) * 512) as u64)
            });
        }
    }
}

/// What the processor finds for a virtual address.
#[derive(Clone, Copy, Debug, PartialEq, Eq, Structural)]
pub struct Translation {
    pub address: u64,
    pub writable: bool,
    pub user: bool,
}

/// Whether an entry refers to the table at the physical address `pa`: it is
/// present, is no large page, and holds the page frame number of the address,
/// as far as one fits an entry.
pub open spec fn refers_to(entry: Entry, pa: u64) -> bool {
    &&& entry.present()
    &&& !entry.large()
    &&& entry.pfn() == spec_pfn_of(pa) & 0xff_ffff_ffff
}

impl PagingStructuresRaw {
    /// What the processor finds when it walks the tables for the virtual
    /// address `va`, the tables below the PML4 lying at `addresses`: nothing
    /// where an entry on the way is not present or refers to no table of this
    /// structure.
    pub open spec fn translate(&self, addresses: TableAddresses, va: u64) -> Option<Translation> {
        let i = ((va >> 30) & 0x1ff) as int;
        let j = ((va >> 21) & 0x1ff) as int;
        let k = ((va >> 12) & 0x1ff) as int;
        let pml4e = self.pml4()[((va >> 39) & 0x1ff) as int];
        let pdpte = self.pdpt()[i];
        let pde = self.pd(i)[j];
        let pte = self.pt()[k];
        if va >> 48 != 0 || !refers_to(pml4e, addresses.pdpt) || !refers_to(
            pdpte,
            addresses.pd@[i],
        ) {
            None
        } else if pde.large() {
            if pde.present() {
                Some(
                    Translation {
                        address: ((pde.pfn() >> 9) << 21) | (va & 0x1f_ffff),
                        writable: pml4e.writable() && pdpte.writable() && pde.writable(),
                        user: pml4e.user() && pdpte.user() && pde.user(),
                    },
                )
            } else {
                None
            }
        } else if !refers_to(pde, addresses.pt) {
            None
        } else if pte.present() {
            Some(
                Translation {
                    address: (pte.pfn() << 12) | (va & 0xfff),
                    writable: pml4e.writable() && pdpte.writable() && pde.writable()
                        && pte.writable(),
                    user: pml4e.user() && pdpte.user() && pde.user() && pte.user(),
                },
            )
        } else {
            None
        }
    }
}

/// The identity map, built over tables that were zero, maps every address
/// below 512 GiB to itself and lets it be written; the map of the host is
/// for supervisor mode and leaves out the first 4 KiB, nested page tables
/// are for user mode and leave out nothing.
pub proof fn lemma_identity_map(
    after: PagingStructuresRaw,
    addresses: TableAddresses,
    npt: bool,
    va: u64,
)
    requires
        addresses.wf(),
        after.is_fresh_identity_map(addresses, npt),
        va < MAPPED_SIZE,
    ensures
        after.translate(addresses, va) == if !npt && va < BASE_PAGE_SIZE {
            None
        } else {
            Some(Translation { address: va, writable: true, user: npt })
        },
{
    let before = choose|zeroed: PagingStructuresRaw|
        #![trigger after.is_identity_map_over(zeroed, addresses, npt)]
        zeroed.wf() && zeroed.is_zeroed() && after.is_identity_map_over(zeroed, addresses, npt);
    lemma_walk_indices(va);
    let i = ((va >> 30) & 0x1ff) as int;
    let j = ((va >> 21) & 0x1ff) as int;
    let k = ((va >> 12) & 0x1ff) as int;
    let n = (va >> 21) as int;
    assert(before.pml4()[0] == Entry(0));
    lemma_entry_fields(0, npt, spec_pfn_of(addresses.pdpt));
    assert(after.pdpt()[i] == before.pdpt()[i].mapped(npt, spec_pfn_of(addresses.pd@[i])));
    assert(before.pdpt()[i] == Entry(0));
    lemma_entry_fields(0, npt, spec_pfn_of(addresses.pd@[i]));
    assert(after.pd(i)[j] == before.built_pde(addresses, npt, i, j));
    assert(before.pd(i)[j] == Entry(0));
    if va < 0x20_0000 && !npt {
        assert(i == 0 && j == 0);
        lemma_entry_fields(0, false, spec_pfn_of(addresses.pt));
        assert(after.pt()[k] == before.built_pte(npt, k));
        assert(before.pt()[k] == Entry(0));
        lemma_entry_fields(0, false, k as u64);
        assert(k == 0 <==> va < 0x1000) by {
            assert(((va >> 12) & 0x1ff == 0) <==> va < 0x1000) by (bit_vector)
                requires
                    va < 0x20_0000,
            ;
        }
    } else {
        lemma_entry_fields(0, npt, (n * 512) as u64);
    }
}


/// The identity map, built over tables that were zero, maps no address from
/// 512 GiB on.
pub proof fn lemma_nothing_beyond_the_identity_map(
    after: PagingStructuresRaw,
    addresses: TableAddresses,
    npt: bool,
    va: u64,
)
    requires
        after.is_fresh_identity_map(addresses, npt),
        va >= MAPPED_SIZE,
    ensures
        after.translate(addresses, va) is None,
{
    let before = choose|zeroed: PagingStructuresRaw|
        #![trigger after.is_identity_map_over(zeroed, addresses, npt)]
        zeroed.wf() && zeroed.is_zeroed() && after.is_identity_map_over(zeroed, addresses, npt);
    lemma_beyond_first_entry(va);
    if va >> 48 == 0 {
        let index = ((va >> 39) & 0x1ff) as int;
        assert(after.pml4()[index] == before.pml4()[index]);
        assert(before.pml4()[index] == Entry(0));
    }
}

/// The paging structures of the host, kept on the heap.
#[derive(Debug)]
pub struct PagingStructures {
    ptr: Box<PagingStructuresRaw>,
}

impl PagingStructures {
    /// The tables.
    pub closed spec fn view(&self) -> PagingStructuresRaw {
        *self.ptr
    }

    /// Paging structures of which every entry is zero.
    pub fn new() -> (structures: Self)
        ensures
            structures@.wf(),
            structures@.is_zeroed(),
    {
        Self { ptr: Box::new(PagingStructuresRaw::new()) }
    }

    /// The tables.
    pub fn raw(&self) -> (raw: &PagingStructuresRaw)
        ensures
            *raw == self@,
    {
        &*self.ptr
    }

    /// The tables, to build a map over them.
    pub fn raw_mut(&mut self) -> (raw: &mut PagingStructuresRaw)
        ensures
            *raw == old(self)@,
            final(self)@ == *final(raw),
    {
        &mut *self.ptr
    }
}

impl Default for PagingStructures {
    fn default() -> (structures: Self)
        ensures
            structures@.wf(),
            structures@.is_zeroed(),
    {
        Self::new()
    }
}

} // verus!
