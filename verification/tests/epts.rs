use hv::intel::epts::{Entry, EptPointer, Epts};
use hv::intel::mtrr::{Mtrr, RawMtrrs};
use hv::paging::{field, flag, with_field, with_flag, TableAddresses};

fn variable(base: u64, size: u64, memory_type: u64) -> (u64, u64) {
    (
        base | memory_type,
        (!(size - 1) & 0x000f_ffff_ffff_f000) | 0x800,
    )
}

fn write_back_with(variable: Vec<(u64, u64)>) -> Mtrr {
    Mtrr::new(&RawMtrrs {
        default_type: 0x806,
        fixed: [0; 11],
        variable,
    })
}

fn addresses() -> TableAddresses {
    TableAddresses {
        pdpt: 0x1000,
        pd: (0..512u64).map(|i| 0x10_0000 + i * 0x1000).collect(),
        pt: 0x2000,
    }
}

/// Walks the tables as the processor does; returns the address, whether all
/// of read, write and execute are allowed, and the memory type.
fn walk(epts: &Epts, addresses: &TableAddresses, gpa: u64) -> Option<(u64, bool, u64)> {
    let pml4e = epts.pml4_entry(((gpa >> 39) & 0x1ff) as usize);
    if !pml4e.readable() || pml4e.pfn() != addresses.pdpt >> 12 {
        return None;
    }
    let i = ((gpa >> 30) & 0x1ff) as usize;
    let pdpte = epts.pdpt_entry(i);
    if !pdpte.readable() || pdpte.large() || pdpte.pfn() != addresses.pd[i] >> 12 {
        return None;
    }
    let pde = epts.pd_entry(i, ((gpa >> 21) & 0x1ff) as usize);
    let all = |entry: &Entry| entry.readable() && entry.writable() && entry.executable();
    if pde.large() {
        return Some((
            (pde.pfn() << 12) | (gpa & 0x1f_ffff),
            all(&pml4e) && all(&pdpte) && all(&pde),
            pde.memory_type(),
        ));
    }
    if !pde.readable() || pde.pfn() != addresses.pt >> 12 {
        return None;
    }
    let pte = epts.pt_entry(((gpa >> 12) & 0x1ff) as usize);
    Some((
        (pte.pfn() << 12) | (gpa & 0xfff),
        all(&pml4e) && all(&pdpte) && all(&pde) && all(&pte),
        pte.memory_type(),
    ))
}

#[test]
fn new_tables_are_zero() {
    let epts = Epts::new();
    for index in [0usize, 1, 255, 511] {
        assert_eq!(epts.pml4_entry(index), Entry(0));
        assert_eq!(epts.pdpt_entry(index), Entry(0));
        assert_eq!(epts.pt_entry(index), Entry(0));
        assert_eq!(epts.pd_entry(index, 511 - index), Entry(0));
    }
    assert_eq!(walk(&epts, &addresses(), 0x1000), None);
}

#[test]
fn entry_fields_are_packed_as_the_processor_reads_them() {
    let mut entry = Entry(0);
    entry.set_readable(true);
    assert_eq!(entry.0, 0x1);
    entry.set_writable(true);
    assert_eq!(entry.0, 0x3);
    entry.set_executable(true);
    assert_eq!(entry.0, 0x7);
    entry.set_memory_type(6);
    assert_eq!(entry.0, 0x37);
    entry.set_large(true);
    assert_eq!(entry.0, 0xb7);
    entry.set_pfn(0x12345);
    assert_eq!(entry.0, 0x1234_50b7);
    assert!(entry.readable() && entry.writable() && entry.executable() && entry.large());
    assert_eq!(entry.memory_type(), 6);
    assert_eq!(entry.pfn(), 0x12345);
    entry.set_memory_type(0xf9);
    assert_eq!(entry.memory_type(), 1);
    entry.set_pfn(u64::MAX);
    assert_eq!(entry.0, 0x000f_ffff_ffff_f08f);
    entry.set_writable(false);
    entry.set_large(false);
    assert_eq!(entry.0, 0x000f_ffff_ffff_f00d);
    assert!(!entry.writable() && !entry.large());
}

#[test]
fn entry_setters_keep_the_other_bits() {
    let mut entry = Entry(u64::MAX);
    entry.set_pfn(0);
    assert_eq!(entry.0, 0xfff0_0000_0000_0fff);
    entry.set_memory_type(0);
    assert_eq!(entry.0, 0xfff0_0000_0000_0fc7);
    entry.set_readable(false);
    entry.set_executable(false);
    assert_eq!(entry.0, 0xfff0_0000_0000_0fc2);
    let mut linked = Entry(0xfff0_0000_0000_0f80);
    linked.link(0x77);
    assert_eq!(linked.0, 0xfff0_0000_0007_7f87);
    let mut mapped = Entry(0x8000_0000_0000_0040);
    mapped.map(6, 0x1ff);
    assert_eq!(mapped.0, 0x8000_0000_001f_f077);
    let mut large = Entry(0);
    large.map_large(4, 0x200);
    assert_eq!(large.0, 0x20_00a7);
}

#[test]
fn fields_agree_with_the_bitfield_crate() {
    let words = [0u64, u64::MAX, 0x1234_5678_9abc_def0, 0x8000_0000_0000_0001];
    let values = [0u64, 1, 6, 0xabcd_ef01_2345, u64::MAX];
    for word in words {
        for (msb, lsb, mask) in [
            (5usize, 3usize, 0x38u64),
            (51, 12, 0x000f_ffff_ffff_f000),
            (2, 0, 0x7),
        ] {
            assert_eq!(
                field(word, mask, lsb as u64),
                <u64 as bitfield::BitRange<u64>>::bit_range(&word, msb, lsb)
            );
            for value in values {
                let mut theirs = word;
                <u64 as bitfield::BitRangeMut<u64>>::set_bit_range(&mut theirs, msb, lsb, value);
                assert_eq!(with_field(word, mask, lsb as u64, value), theirs);
            }
        }
        for index in [0usize, 1, 2, 6, 7, 63] {
            assert_eq!(flag(word, index as u64), bitfield::Bit::bit(&word, index));
            for value in [false, true] {
                let mut theirs = word;
                bitfield::BitMut::set_bit(&mut theirs, index, value);
                assert_eq!(with_flag(word, index as u64, value), theirs);
            }
        }
    }
}

#[test]
fn identity_map_has_these_entries() {
    let mut epts = Epts::new();
    let addresses = addresses();
    epts.build_identity(&write_back_with(Vec::new()), &addresses);
    assert_eq!(epts.pml4_entry(0), Entry(0x1007));
    for index in 1..512 {
        assert_eq!(epts.pml4_entry(index), Entry(0));
    }
    assert_eq!(epts.pdpt_entry(0), Entry(0x10_0007));
    assert_eq!(epts.pdpt_entry(3), Entry(0x10_3007));
    assert_eq!(epts.pdpt_entry(511), Entry(0x2f_f007));
    assert_eq!(epts.pd_entry(0, 0), Entry(0x2007));
    assert_eq!(epts.pd_entry(0, 1), Entry(0x20_00b7));
    assert_eq!(epts.pd_entry(0, 511), Entry(0x3fe0_00b7));
    assert_eq!(epts.pd_entry(1, 0), Entry(0x4000_00b7));
    assert_eq!(epts.pd_entry(511, 511), Entry(0x7f_ffe0_00b7));
    assert_eq!(epts.pt_entry(0), Entry(0x37));
    assert_eq!(epts.pt_entry(5), Entry(0x5037));
    assert_eq!(epts.pt_entry(511), Entry(0x1f_f037));
}

#[test]
fn identity_map_maps_each_address_to_itself() {
    let mut epts = Epts::new();
    let addresses = addresses();
    epts.build_identity(&write_back_with(Vec::new()), &addresses);
    let mut samples = vec![
        0u64,
        0xfff,
        0x1000,
        0x1f_ffff,
        0x20_0000,
        0x20_0001,
        0x1234_5678,
        0x3fff_ffff,
        0x4000_0000,
        0x12_3456_789a,
        0x7f_ffff_ffff,
    ];
    samples.extend((0..512u64).map(|page| page * 0x1000 + page));
    samples.extend((0..0x4_0000u64).step_by(997).map(|page| page * 0x20_0000 + 0x1_2345));
    for gpa in samples {
        assert_eq!(walk(&epts, &addresses, gpa), Some((gpa, true, 6)));
    }
    assert_eq!(walk(&epts, &addresses, 0x80_0000_0000), None);
}

#[test]
fn first_two_mebibytes_are_mapped_by_small_pages() {
    let mut epts = Epts::new();
    epts.build_identity(&write_back_with(Vec::new()), &addresses());
    assert!(!epts.pd_entry(0, 0).large());
    for page in 0..512usize {
        let entry = epts.pt_entry(page);
        assert_eq!(entry.pfn(), page as u64);
        assert!(!entry.large());
    }
    for directory in 0..512usize {
        for index in 0..512usize {
            if directory != 0 || index != 0 {
                let entry = epts.pd_entry(directory, index);
                assert!(entry.large());
                assert_eq!(entry.pfn(), ((directory * 512 + index) * 512) as u64);
            }
        }
    }
}

#[test]
fn memory_types_follow_the_mtrrs() {
    let mtrr = Mtrr::new(&RawMtrrs {
        default_type: 0xc06,
        fixed: [
            0x0606_0606_0606_0606,
            0x0606_0606_0606_0606,
            0,
            0x0505_0505_0505_0505,
            0x0505_0505_0505_0505,
            0x0505_0505_0505_0505,
            0x0505_0505_0505_0505,
            0x0505_0505_0505_0505,
            0x0505_0505_0505_0505,
            0x0505_0505_0505_0505,
            0x0404_0404_0101_0101,
        ],
        variable: vec![
            variable(0x4000_0000, 0x4000_0000, 0),
            variable(0x1_0000_0000, 0x1_0000_0000, 4),
        ],
    });
    let mut epts = Epts::new();
    let addresses = addresses();
    epts.build_identity(&mtrr, &addresses);
    assert_eq!(epts.pt_entry(0x9f).memory_type(), 6);
    assert_eq!(epts.pt_entry(0xa0).memory_type(), 0);
    assert_eq!(epts.pt_entry(0xbf), Entry(0xb_f007));
    assert_eq!(epts.pt_entry(0xc0).memory_type(), 5);
    assert_eq!(epts.pt_entry(0xf8).memory_type(), 1);
    assert_eq!(epts.pt_entry(0xfc).memory_type(), 4);
    assert_eq!(epts.pt_entry(0x100).memory_type(), 6);
    assert_eq!(epts.pd_entry(0, 511).memory_type(), 6);
    assert_eq!(epts.pd_entry(1, 0), Entry(0x4000_0087));
    assert_eq!(epts.pd_entry(1, 511).memory_type(), 0);
    assert_eq!(epts.pd_entry(2, 0).memory_type(), 6);
    assert_eq!(epts.pd_entry(4, 0).memory_type(), 4);
    assert_eq!(epts.pd_entry(7, 511).memory_type(), 4);
    assert_eq!(epts.pd_entry(8, 0).memory_type(), 6);
    for gpa in [0xa_0123u64, 0x4000_0000, 0x7fff_ffff] {
        assert_eq!(walk(&epts, &addresses, gpa), Some((gpa, true, 0)));
    }
    assert_eq!(walk(&epts, &addresses, 0x1_2345_6789), Some((0x1_2345_6789, true, 4)));
    for gpa in (0..0x80_0000_0000u64).step_by(0x3_1234_5000) {
        let page = if gpa < 0x20_0000 { 0x1000 } else { 0x20_0000 };
        let start = gpa & !(page - 1);
        let expected = mtrr.find(start..start + page).unwrap().value();
        assert_eq!(walk(&epts, &addresses, gpa), Some((gpa, true, expected)));
    }
}

#[test]
fn page_across_two_memory_types_is_not_mapped() {
    let mtrr = write_back_with(vec![variable(0x30_0000, 0x10_0000, 0)]);
    assert_eq!(Epts::unresolved_page(&mtrr), Some(0x20_0000));
    let mut epts = Epts::new();
    assert_eq!(epts.try_build_identity(&mtrr, &addresses()), Err(0x20_0000));
    assert_eq!(epts.pml4_entry(0), Entry(0));
    assert_eq!(epts.pt_entry(1), Entry(0));
    assert_eq!(epts.pd_entry(0, 1), Entry(0));
}

#[test]
fn page_without_memory_type_is_not_mapped() {
    let reserved = Mtrr::new(&RawMtrrs {
        default_type: 0x802,
        fixed: [0; 11],
        variable: Vec::new(),
    });
    assert_eq!(Epts::unresolved_page(&reserved), Some(0));
    let partly = Mtrr::new(&RawMtrrs {
        default_type: 0x806,
        fixed: [0; 11],
        variable: vec![variable(0x6000, 0x2000, 7)],
    });
    assert_eq!(Epts::unresolved_page(&partly), Some(0x6000));
    let mut epts = Epts::new();
    assert_eq!(epts.try_build_identity(&partly, &addresses()), Err(0x6000));
    let far = write_back_with(vec![
        variable(0x7f_c000_0000, 0x4000_0000, 1),
        variable(0x7f_fff0_0000, 0x10_0000, 6),
    ]);
    assert_eq!(Epts::unresolved_page(&far), Some(0x7f_ffe0_0000));
}

#[test]
fn mapped_where_every_page_has_a_memory_type() {
    let mtrr = write_back_with(vec![variable(0x20_0000, 0x20_0000, 0)]);
    assert_eq!(Epts::unresolved_page(&mtrr), None);
    let mut epts = Epts::new();
    let addresses = addresses();
    assert_eq!(epts.try_build_identity(&mtrr, &addresses), Ok(()));
    assert_eq!(epts.pd_entry(0, 1), Entry(0x20_0087));
    assert_eq!(epts.pd_entry(0, 2), Entry(0x40_00b7));
    let mut direct = Epts::new();
    direct.build_identity(&mtrr, &addresses);
    for index in 0..512 {
        assert_eq!(direct.pt_entry(index), epts.pt_entry(index));
        assert_eq!(direct.pd_entry(0, index), epts.pd_entry(0, index));
        assert_eq!(direct.pd_entry(index, 7), epts.pd_entry(index, 7));
    }
}

#[test]
fn building_again_gives_the_same_tables() {
    let mut epts = Epts::new();
    let addresses = addresses();
    epts.build_identity(&write_back_with(vec![variable(0, 0x20_0000, 0)]), &addresses);
    assert_eq!(epts.pt_entry(3), Entry(0x3007));
    epts.build_identity(&write_back_with(Vec::new()), &addresses);
    assert_eq!(epts.pt_entry(3), Entry(0x3037));
    assert_eq!(epts.pd_entry(0, 0), Entry(0x2007));
    assert_eq!(epts.pd_entry(2, 5), Entry(0x80a0_00b7));
}

#[test]
fn ept_pointer_names_the_pml4() {
    let epts = Epts::new();
    let eptp = epts.eptp(0x1234_5000);
    assert_eq!(eptp, EptPointer(0x1234_501e));
    assert_eq!(eptp.memory_type(), 6);
    assert_eq!(eptp.page_levels_minus_one(), 3);
    assert_eq!(eptp.pfn(), 0x12345);
    assert!(!eptp.enable_access_dirty());
    assert!(!eptp.enable_sss());
    assert_eq!(epts.eptp(0).0, 0x1e);
    assert_eq!(epts.eptp(0xffff_ffff_ffff_ffff).0, 0x000f_ffff_ffff_f01e);
    assert_eq!(epts.eptp(0x1234_5fff).0, 0x1234_501e);
}

#[test]
fn ept_pointer_fields_are_packed_as_the_processor_reads_them() {
    let mut eptp = EptPointer(0);
    eptp.set_memory_type(6);
    assert_eq!(eptp.0, 0x6);
    eptp.set_page_levels_minus_one(3);
    assert_eq!(eptp.0, 0x1e);
    eptp.set_enable_access_dirty(true);
    assert_eq!(eptp.0, 0x5e);
    eptp.set_enable_sss(true);
    assert_eq!(eptp.0, 0xde);
    eptp.set_pfn(0xabcde);
    assert_eq!(eptp.0, 0xabcd_e0de);
    assert!(eptp.enable_access_dirty() && eptp.enable_sss());
    eptp.set_enable_access_dirty(false);
    eptp.set_enable_sss(false);
    eptp.set_memory_type(8);
    eptp.set_page_levels_minus_one(0xf);
    assert_eq!(eptp.0, 0xabcd_e038);
    assert_eq!(eptp.memory_type(), 0);
    assert_eq!(eptp.page_levels_minus_one(), 7);
    assert_eq!(eptp.pfn(), 0xabcde);
}
