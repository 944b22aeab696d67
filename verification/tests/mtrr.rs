use hv::intel::mtrr::{
    byte_of, fixed_range, low_byte, variable_range, MemoryType, Mtrr, MtrrInterval, MtrrRange,
    Overlap, RawMtrrs,
};

const ENABLED: u64 = 0x800;
const FIXED_ENABLED: u64 = 0x400;
const UC: u64 = 0;
const WC: u64 = 1;
const WT: u64 = 4;
const WP: u64 = 5;
const WB: u64 = 6;

fn variable(base: u64, size: u64, memory_type: u64) -> (u64, u64) {
    (
        base | memory_type,
        (!(size - 1) & 0x000f_ffff_ffff_f000) | 0x800,
    )
}

fn mtrr(default_type: u64, fixed: [u64; 11], variable: Vec<(u64, u64)>) -> Mtrr {
    Mtrr::new(&RawMtrrs {
        default_type,
        fixed,
        variable,
    })
}

fn intervals(mtrr: &Mtrr) -> Vec<MtrrInterval> {
    let intervals = mtrr.intervals();
    assert_eq!(intervals.len(), mtrr.len());
    for (index, interval) in intervals.iter().enumerate() {
        assert_eq!(mtrr.interval(index), *interval);
    }
    intervals
}

#[test]
fn memory_types_and_their_encodings() {
    assert_eq!(MemoryType::Uncacheable.value(), 0);
    assert_eq!(MemoryType::WriteCombining.value(), 1);
    assert_eq!(MemoryType::WriteThrough.value(), 4);
    assert_eq!(MemoryType::WriteProtected.value(), 5);
    assert_eq!(MemoryType::WriteBack.value(), 6);
    for raw in 0..=255u8 {
        match MemoryType::from_raw(raw) {
            Some(memory_type) => assert_eq!(memory_type.value(), raw as u64),
            None => assert!(raw == 2 || raw == 3 || raw >= 7),
        }
    }
}

#[test]
fn bytes_of_a_register() {
    assert_eq!(low_byte(0x1234_5678_9abc_def0), 0xf0);
    assert_eq!(byte_of(0x1234_5678_9abc_def0, 0), 0xf0);
    assert_eq!(byte_of(0x1234_5678_9abc_def0, 1), 0xde);
    assert_eq!(byte_of(0x1234_5678_9abc_def0, 7), 0x12);
}

#[test]
fn fixed_ranges_cover_the_first_mebibyte() {
    let mut fixed = [0u64; 11];
    fixed[0] = 0x0706_0504_0302_0100;
    fixed[1] = 0x0000_0000_0000_0006;
    fixed[3] = 0x0000_0000_0000_0500;
    fixed[10] = 0x0400_0000_0000_0000;
    assert_eq!(
        fixed_range(&fixed, 0),
        MtrrRange { base: 0, end: 0x10000, memory_type: 0, fixed: true }
    );
    assert_eq!(
        fixed_range(&fixed, 7),
        MtrrRange { base: 0x70000, end: 0x80000, memory_type: 7, fixed: true }
    );
    assert_eq!(
        fixed_range(&fixed, 8),
        MtrrRange { base: 0x80000, end: 0x84000, memory_type: 6, fixed: true }
    );
    assert_eq!(
        fixed_range(&fixed, 23),
        MtrrRange { base: 0xbc000, end: 0xc0000, memory_type: 0, fixed: true }
    );
    assert_eq!(
        fixed_range(&fixed, 25),
        MtrrRange { base: 0xc1000, end: 0xc2000, memory_type: 5, fixed: true }
    );
    assert_eq!(
        fixed_range(&fixed, 87),
        MtrrRange { base: 0xff000, end: 0x10_0000, memory_type: 4, fixed: true }
    );
    let mut end = 0;
    for k in 0..88 {
        let range = fixed_range(&fixed, k);
        assert_eq!(range.base, end);
        assert!(range.base < range.end);
        end = range.end;
    }
    assert_eq!(end, 0x10_0000);
}

#[test]
fn variable_range_spans_the_lowest_bit_of_its_mask() {
    let (physbase, physmask) = variable(0x8000_0000, 0x4000_0000, WB);
    assert_eq!(physbase, 0x8000_0006);
    assert_eq!(physmask, 0x000f_ffff_c000_0800);
    assert_eq!(
        variable_range(physbase, physmask),
        MtrrRange { base: 0x8000_0000, end: 0xc000_0000, memory_type: 6, fixed: false }
    );
    assert_eq!(
        variable_range(0x1000 | UC, 0x000f_ffff_ffff_f000 | 0x800),
        MtrrRange { base: 0x1000, end: 0x2000, memory_type: 0, fixed: false }
    );
    assert_eq!(
        variable_range(0x000f_ffff_ffff_f005, 0x0008_0000_0000_0800),
        MtrrRange {
            base: 0x0008_0000_0000_0000,
            end: 0x0010_0000_0000_0000,
            memory_type: 5,
            fixed: false
        }
    );
}

#[test]
fn variable_range_out_of_use_is_empty() {
    assert_eq!(
        variable_range(0x8000_0006, 0x000f_ffff_c000_0000),
        MtrrRange { base: 0, end: 0, memory_type: 6, fixed: false }
    );
}

#[test]
fn variable_range_with_empty_mask_holds_every_address() {
    assert_eq!(
        variable_range(0x8000_0000, 0x800),
        MtrrRange { base: 0, end: u64::MAX, memory_type: 0, fixed: false }
    );
}

#[test]
fn range_within_one_interval_has_its_type() {
    let mtrr = mtrr(ENABLED | WB, [0; 11], vec![variable(0, 0x8_0000, UC)]);
    assert_eq!(mtrr.find(0x1000..0x2000), Some(MemoryType::Uncacheable));
    assert_eq!(mtrr.find(0x7_f000..0x8_1000), None);
    assert_eq!(mtrr.find(0x7_f000..0x8_0000), Some(MemoryType::Uncacheable));
    assert_eq!(mtrr.find(0x8_0000..0x8_1000), Some(MemoryType::WriteBack));
    assert_eq!(mtrr.find(0x20_0000..0x40_0000), Some(MemoryType::WriteBack));
    assert_eq!(mtrr.find(0..u64::MAX), None);
    assert_eq!(mtrr.find(0x8_0000..u64::MAX), Some(MemoryType::WriteBack));
}

#[test]
fn intervals_follow_one_another_from_zero() {
    let mtrr = mtrr(ENABLED | WB, [0; 11], vec![variable(0, 0x8_0000, UC)]);
    assert_eq!(
        intervals(&mtrr),
        vec![
            MtrrInterval { base: 0, end: 0x8_0000, memory_type: Some(MemoryType::Uncacheable) },
            MtrrInterval { base: 0x8_0000, end: u64::MAX, memory_type: Some(MemoryType::WriteBack) },
        ]
    );
}

#[test]
fn intervals_are_in_the_order_of_their_bases() {
    let mut fixed = [0x0606_0606_0606_0606u64; 11];
    fixed[2] = 0;
    let registers = vec![
        variable(0xc000_0000, 0x4000_0000, UC),
        variable(0, 0x8000_0000, WB),
        variable(0x8000_0000, 0x4000_0000, WB),
        variable(0xbf00_0000, 0x0100_0000, UC),
        variable(0x1_0000_0000, 0x1_0000_0000, WB),
        (0x5555_0000, 0),
    ];
    for default_type in [ENABLED | UC, ENABLED | FIXED_ENABLED | UC, WB] {
        let mtrr = mtrr(default_type, fixed, registers.clone());
        let intervals = intervals(&mtrr);
        assert_eq!(intervals[0].base, 0);
        assert_eq!(intervals[intervals.len() - 1].end, u64::MAX);
        for pair in intervals.windows(2) {
            assert!(pair[0].base < pair[1].base);
            assert_eq!(pair[0].end, pair[1].base);
        }
        let mut sorted = intervals.clone();
        sorted.sort_by_key(|interval| interval.base);
        assert_eq!(sorted, intervals);
        for interval in &intervals {
            assert_eq!(mtrr.find(interval.base..interval.end), interval.memory_type);
            assert_eq!(mtrr.find(interval.base..interval.base + 1), interval.memory_type);
        }
    }
}

#[test]
fn variable_ranges_give_these_intervals() {
    let mtrr = mtrr(
        ENABLED | UC,
        [0; 11],
        vec![
            variable(0, 0x8000_0000, WB),
            variable(0x7f00_0000, 0x0100_0000, UC),
        ],
    );
    assert_eq!(
        intervals(&mtrr),
        vec![
            MtrrInterval { base: 0, end: 0x7f00_0000, memory_type: Some(MemoryType::WriteBack) },
            MtrrInterval {
                base: 0x7f00_0000,
                end: 0x8000_0000,
                memory_type: Some(MemoryType::Uncacheable)
            },
            MtrrInterval {
                base: 0x8000_0000,
                end: u64::MAX,
                memory_type: Some(MemoryType::Uncacheable)
            },
        ]
    );
    assert_eq!(mtrr.find(0x7fe0_0000..0x8020_0000), None);
}

#[test]
fn disabled_mtrrs_leave_memory_uncacheable() {
    let mtrr = mtrr(WB, [0x0606_0606_0606_0606; 11], vec![variable(0, 0x8_0000, WB)]);
    assert_eq!(mtrr.find(0x1000..0x2000), Some(MemoryType::Uncacheable));
    assert_eq!(mtrr.find(0x10_0000..0x20_0000), Some(MemoryType::Uncacheable));
    let fixed_only = Mtrr::new(&RawMtrrs {
        default_type: FIXED_ENABLED | WB,
        fixed: [0x0606_0606_0606_0606; 11],
        variable: Vec::new(),
    });
    assert_eq!(fixed_only.len(), 1);
    assert_eq!(fixed_only.find(0..0x1000), Some(MemoryType::Uncacheable));
}

#[test]
fn default_type_holds_where_no_register_does() {
    for (raw, memory_type) in [
        (UC, MemoryType::Uncacheable),
        (WC, MemoryType::WriteCombining),
        (WT, MemoryType::WriteThrough),
        (WP, MemoryType::WriteProtected),
        (WB, MemoryType::WriteBack),
    ] {
        let mtrr = mtrr(ENABLED | raw, [0; 11], Vec::new());
        assert_eq!(mtrr.len(), 1);
        assert_eq!(mtrr.find(0..0x1000), Some(memory_type));
        assert_eq!(mtrr.find(0x7f_ffe0_0000..0x80_0000_0000), Some(memory_type));
    }
    let reserved = mtrr(ENABLED | 2, [0; 11], Vec::new());
    assert_eq!(reserved.find(0..0x1000), None);
}

#[test]
fn fixed_ranges_come_before_variable_ranges() {
    let mut fixed = [0x0606_0606_0606_0606u64; 11];
    fixed[2] = 0;
    fixed[3] = 0x0505_0505_0505_0505;
    let mtrr = mtrr(
        ENABLED | FIXED_ENABLED | WB,
        fixed,
        vec![variable(0, 0x8_0000, UC)],
    );
    assert_eq!(mtrr.len(), 89);
    assert_eq!(mtrr.find(0x1000..0x2000), Some(MemoryType::WriteBack));
    assert_eq!(mtrr.find(0x9_f000..0xa_0000), Some(MemoryType::WriteBack));
    assert_eq!(mtrr.find(0xa_0000..0xa_1000), Some(MemoryType::Uncacheable));
    assert_eq!(mtrr.find(0xb_f000..0xc_0000), Some(MemoryType::Uncacheable));
    assert_eq!(mtrr.find(0xc_0000..0xc_1000), Some(MemoryType::WriteProtected));
    assert_eq!(mtrr.find(0xb_f000..0xc_1000), None);
    assert_eq!(mtrr.find(0xc_0000..0xc_2000), None);
    assert_eq!(mtrr.find(0x10_0000..0x20_0000), Some(MemoryType::WriteBack));
    let without = Mtrr::new(&RawMtrrs {
        default_type: ENABLED | WB,
        fixed,
        variable: vec![variable(0, 0x8_0000, UC)],
    });
    assert_eq!(without.len(), 2);
    assert_eq!(without.find(0x1000..0x2000), Some(MemoryType::Uncacheable));
}

#[test]
fn overlapping_variable_ranges_are_reconciled() {
    let outer = |memory_type| variable(0x4000_0000, 0x4000_0000, memory_type);
    let inner = |memory_type| variable(0x6000_0000, 0x2000_0000, memory_type);
    let cases = [
        (WB, UC, Some(MemoryType::Uncacheable)),
        (UC, WB, Some(MemoryType::Uncacheable)),
        (WB, WT, Some(MemoryType::WriteThrough)),
        (WT, WB, Some(MemoryType::WriteThrough)),
        (WB, WB, Some(MemoryType::WriteBack)),
        (WC, WC, Some(MemoryType::WriteCombining)),
        (WP, WP, Some(MemoryType::WriteProtected)),
        (WC, UC, Some(MemoryType::Uncacheable)),
        (WB, WC, None),
        (WP, WB, None),
        (WT, WP, None),
        (WC, WT, None),
        (WB, 3, None),
        (7, UC, None),
    ];
    for (first, second, expected) in cases {
        let mtrr = mtrr(ENABLED | WB, [0; 11], vec![outer(first), inner(second)]);
        assert_eq!(mtrr.find(0x6000_0000..0x6020_0000), expected);
        assert_eq!(mtrr.find(0x4000_0000..0x4020_0000), MemoryType::from_raw(first as u8));
        assert_eq!(mtrr.find(0x8000_0000..0x8020_0000), Some(MemoryType::WriteBack));
        assert_eq!(mtrr.find(0x5fe0_0000..0x6020_0000), None);
    }
}

#[test]
fn overlap_resolves_by_precedence() {
    let none = Overlap {
        fixed: None,
        matched: false,
        reserved: false,
        uncacheable: false,
        write_combining: false,
        write_through: false,
        write_protected: false,
        write_back: false,
    };
    assert_eq!(none.resolve(6), Some(MemoryType::WriteBack));
    assert_eq!(none.resolve(3), None);
    let range = |memory_type, fixed| MtrrRange { base: 0, end: 1, memory_type, fixed };
    let back = none.with(range(6, false));
    assert!(back.matched && back.write_back);
    assert_eq!(back.resolve(0), Some(MemoryType::WriteBack));
    assert_eq!(back.with(range(4, false)).resolve(0), Some(MemoryType::WriteThrough));
    assert_eq!(back.with(range(0, false)).resolve(6), Some(MemoryType::Uncacheable));
    assert_eq!(back.with(range(5, true)).resolve(6), Some(MemoryType::WriteProtected));
    assert_eq!(back.with(range(9, true)).resolve(6), None);
    assert_eq!(back.with(range(9, false)).resolve(6), None);
    assert_eq!(
        back.with(range(9, false)).with(range(0, false)).resolve(6),
        None
    );
}

#[test]
fn an_empty_range_has_the_type_of_its_start() {
    let mtrr = mtrr(ENABLED | WB, [0; 11], vec![variable(0, 0x8_0000, UC)]);
    assert_eq!(mtrr.find(0x1000..0x1000), Some(MemoryType::Uncacheable));
    assert_eq!(mtrr.find(0x9_0000..0x1000), Some(MemoryType::WriteBack));
    assert_eq!(mtrr.find(u64::MAX..u64::MAX), None);
}
