use hv::intel::epts::Entry;
use hv::intel::mtrr::{Mtrr, RawMtrrs};
use hv::intel::shared::{MsrBitmaps, SharedGuestData};
use hv::paging::TableAddresses;

fn addresses() -> TableAddresses {
    TableAddresses {
        pdpt: 0x1000,
        pd: (0..512u64).map(|i| 0x10_0000 + i * 0x1000).collect(),
        pt: 0x2000,
    }
}

#[test]
fn msr_bitmaps_are_one_clear_page() {
    let bitmaps = MsrBitmaps::new();
    for index in 0..4096 {
        assert_eq!(bitmaps.byte(index), 0);
    }
}

#[test]
fn shared_data_holds_the_identity_map() {
    let mtrr = Mtrr::new(&RawMtrrs { default_type: 0x806, fixed: [0; 11], variable: Vec::new() });
    let shared = SharedGuestData::new(&mtrr, &addresses()).unwrap();
    assert_eq!(shared.epts().pml4_entry(0), Entry(0x1007));
    assert_eq!(shared.epts().pt_entry(1), Entry(0x1037));
    assert_eq!(shared.epts().pd_entry(3, 4), Entry(0xc080_00b7));
    assert_eq!(shared.msr_bitmaps().byte(0), 0);
    assert_eq!(shared.msr_bitmaps().byte(4095), 0);
}

#[test]
fn shared_data_needs_a_memory_type_for_every_page() {
    let mtrr = Mtrr::new(&RawMtrrs {
        default_type: 0x806,
        fixed: [0; 11],
        variable: vec![(0x4010_0000, 0x000f_ffff_fff0_0800)],
    });
    assert_eq!(SharedGuestData::new(&mtrr, &addresses()).err(), Some(0x4000_0000));
}
