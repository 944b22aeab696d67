use hv::paging::TableAddresses;
use hv::paging_structures::{
    build_identity_internal, Entry, PagingStructures, PagingStructuresRaw, Table,
};

fn addresses() -> TableAddresses {
    TableAddresses {
        pdpt: 0x1000,
        pd: (0..512u64).map(|i| 0x10_0000 + i * 0x1000).collect(),
        pt: 0x2000,
    }
}

/// Walks the tables as the processor does; returns the address and whether
/// it can be written and reached from user mode.
fn walk(raw: &PagingStructuresRaw, addresses: &TableAddresses, va: u64) -> Option<(u64, bool, bool)> {
    let pml4e = raw.pml4_entry(((va >> 39) & 0x1ff) as usize);
    if !pml4e.present() || pml4e.pfn() != addresses.pdpt >> 12 {
        return None;
    }
    let i = ((va >> 30) & 0x1ff) as usize;
    let pdpte = raw.pdpt_entry(i);
    if !pdpte.present() || pdpte.large() || pdpte.pfn() != addresses.pd[i] >> 12 {
        return None;
    }
    let pde = raw.pd_entry(i, ((va >> 21) & 0x1ff) as usize);
    if !pde.present() {
        return None;
    }
    if pde.large() {
        return Some((
            (pde.pfn() << 12) | (va & 0x1f_ffff),
            pml4e.writable() && pdpte.writable() && pde.writable(),
            pml4e.user() && pdpte.user() && pde.user(),
        ));
    }
    if pde.pfn() != addresses.pt >> 12 {
        return None;
    }
    let pte = raw.pt_entry(((va >> 12) & 0x1ff) as usize);
    if !pte.present() {
        return None;
    }
    Some((
        (pte.pfn() << 12) | (va & 0xfff),
        pml4e.writable() && pdpte.writable() && pde.writable() && pte.writable(),
        pml4e.user() && pdpte.user() && pde.user() && pte.user(),
    ))
}

#[test]
fn new_structures_are_zero() {
    let structures = PagingStructures::new();
    let raw = structures.raw();
    for index in [0usize, 1, 100, 511] {
        assert_eq!(raw.pml4_entry(index), Entry(0));
        assert_eq!(raw.pdpt_entry(index), Entry(0));
        assert_eq!(raw.pt_entry(index), Entry(0));
        assert_eq!(raw.pd_entry(index, index), Entry(0));
    }
    let default = PagingStructures::default();
    assert_eq!(default.raw().pd_entry(511, 0), Entry(0));
    let table = Table::new();
    assert_eq!(table.entry(0), Entry(0));
    assert_eq!(table.entry(511), Entry(0));
}

#[test]
fn paging_entry_fields_are_packed_as_the_processor_reads_them() {
    let mut entry = Entry(0);
    entry.set_present(true);
    assert_eq!(entry.0, 0x1);
    entry.set_writable(true);
    assert_eq!(entry.0, 0x3);
    entry.set_user(true);
    assert_eq!(entry.0, 0x7);
    entry.set_large(true);
    assert_eq!(entry.0, 0x87);
    entry.set_pfn(0xfedcb);
    assert_eq!(entry.0, 0xfedc_b087);
    assert!(entry.present() && entry.writable() && entry.user() && entry.large());
    assert_eq!(entry.pfn(), 0xfedcb);
    entry.set_user(false);
    entry.set_present(false);
    assert_eq!(entry.0, 0xfedc_b082);
    assert!(!entry.present() && !entry.user());
    let mut kept = Entry(0xfff0_0000_0000_0f78);
    kept.map(false, 0x1_0000_0000_0001);
    assert_eq!(kept.0, 0xfff0_0000_0000_1f7b);
    kept.map_large(true, 2);
    assert_eq!(kept.0, 0xfff0_0000_0000_2fff);
}

#[test]
fn identity_map_of_the_host_has_these_entries() {
    let mut structures = PagingStructures::new();
    let addresses = addresses();
    structures.raw_mut().build_identity(&addresses);
    let raw = structures.raw();
    assert_eq!(raw.pml4_entry(0), Entry(0x1003));
    assert_eq!(raw.pml4_entry(1), Entry(0));
    assert_eq!(raw.pdpt_entry(0), Entry(0x10_0003));
    assert_eq!(raw.pdpt_entry(511), Entry(0x2f_f003));
    assert_eq!(raw.pd_entry(0, 0), Entry(0x2003));
    assert_eq!(raw.pd_entry(0, 1), Entry(0x20_0083));
    assert_eq!(raw.pd_entry(1, 0), Entry(0x4000_0083));
    assert_eq!(raw.pd_entry(511, 511), Entry(0x7f_ffe0_0083));
    assert_eq!(raw.pt_entry(0), Entry(0x2));
    assert_eq!(raw.pt_entry(1), Entry(0x1003));
    assert_eq!(raw.pt_entry(511), Entry(0x1f_f003));
}

#[test]
fn host_maps_each_address_to_itself_but_the_null_page() {
    let mut raw = PagingStructuresRaw::new();
    let addresses = addresses();
    raw.build_identity(&addresses);
    assert_eq!(walk(&raw, &addresses, 0), None);
    assert_eq!(walk(&raw, &addresses, 0xfff), None);
    let mut samples = vec![
        0x1000u64,
        0x1f_ffff,
        0x20_0000,
        0x1234_5678,
        0x4000_0000,
        0x7f_ffff_ffff,
    ];
    samples.extend((1..512u64).map(|page| page * 0x1000 + page));
    samples.extend((1..0x4_0000u64).step_by(1009).map(|page| page * 0x20_0000 + 0x5_4321));
    for va in samples {
        assert_eq!(walk(&raw, &addresses, va), Some((va, true, false)));
    }
    assert_eq!(walk(&raw, &addresses, 0x80_0000_0000), None);
}

#[test]
fn nested_page_tables_map_large_pages_for_user_mode() {
    let mut raw = PagingStructuresRaw::new();
    let addresses = addresses();
    build_identity_internal(&mut raw, &addresses, true);
    assert_eq!(raw.pml4_entry(0), Entry(0x1007));
    assert_eq!(raw.pdpt_entry(2), Entry(0x10_2007));
    assert_eq!(raw.pd_entry(0, 0), Entry(0x87));
    assert_eq!(raw.pd_entry(0, 1), Entry(0x20_0087));
    for index in 0..512 {
        assert_eq!(raw.pt_entry(index), Entry(0));
    }
    for va in [0u64, 0xfff, 0x1000, 0x20_0000, 0x7f_ffff_ffff] {
        assert_eq!(walk(&raw, &addresses, va), Some((va, true, true)));
    }
}

#[test]
fn host_map_built_internally_is_the_public_one() {
    let addresses = addresses();
    let mut public = PagingStructuresRaw::new();
    public.build_identity(&addresses);
    let mut internal = PagingStructuresRaw::new();
    build_identity_internal(&mut internal, &addresses, false);
    for index in 0..512 {
        assert_eq!(public.pml4_entry(index), internal.pml4_entry(index));
        assert_eq!(public.pdpt_entry(index), internal.pdpt_entry(index));
        assert_eq!(public.pt_entry(index), internal.pt_entry(index));
        assert_eq!(public.pd_entry(index, 9), internal.pd_entry(index, 9));
        assert_eq!(public.pd_entry(0, index), internal.pd_entry(0, index));
    }
}

#[test]
fn table_addresses_need_all_page_directories() {
    assert!(addresses().wf());
    let short = TableAddresses { pdpt: 0, pd: vec![0; 511], pt: 0 };
    assert!(!short.wf());
}
