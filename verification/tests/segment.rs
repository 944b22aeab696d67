use hv::segment::{SegmentDescriptor, SegmentError};

fn gdt() -> Vec<u64> {
    vec![
        0,
        0x00af_9b00_0000_ffff,
        0x00cf_9300_0000_ffff,
        0x0000_0000_0000_0000,
        0x1200_8b34_5678_0067,
        0x0000_0000_ffff_f800,
        0xab40_f3cd_ef01_3c00,
        0x0000_8900_0000_0067,
    ]
}

#[test]
fn descriptor_of_a_task_state_segment_has_a_wide_base() {
    let descriptor = SegmentDescriptor::try_from_gdtr(&gdt(), 0x20).unwrap();
    assert_eq!(descriptor.low64, 0x1200_8b34_5678_0067);
    assert_eq!(descriptor.upper_base, Some(0xffff_f800));
    assert_eq!(descriptor.base(), 0xffff_f800_1234_5678);
    assert_eq!(
        SegmentDescriptor::try_from_gdtr(&gdt(), 0x23),
        Ok(descriptor)
    );
}

#[test]
fn descriptor_of_a_code_or_data_segment_has_a_narrow_base() {
    let code = SegmentDescriptor::try_from_gdtr(&gdt(), 0x8).unwrap();
    assert_eq!(code.upper_base, None);
    assert_eq!(code.base(), 0);
    let data = SegmentDescriptor::try_from_gdtr(&gdt(), 0x33).unwrap();
    assert_eq!(data, SegmentDescriptor { low64: 0xab40_f3cd_ef01_3c00, upper_base: None });
    assert_eq!(data.base(), 0xabcd_ef01);
}

#[test]
fn selector_without_descriptor_is_refused() {
    assert_eq!(
        SegmentDescriptor::try_from_gdtr(&gdt(), 0x24),
        Err(SegmentError::LdtAccess)
    );
    assert_eq!(
        SegmentDescriptor::try_from_gdtr(&gdt(), 0x4),
        Err(SegmentError::LdtAccess)
    );
    assert_eq!(
        SegmentDescriptor::try_from_gdtr(&gdt(), 0),
        Err(SegmentError::NullDescriptor)
    );
    assert_eq!(
        SegmentDescriptor::try_from_gdtr(&gdt(), 0x3),
        Err(SegmentError::NullDescriptor)
    );
    assert_eq!(
        SegmentDescriptor::try_from_gdtr(&gdt(), 0x40),
        Err(SegmentError::OutOfGdtAccess)
    );
    assert_eq!(
        SegmentDescriptor::try_from_gdtr(&gdt(), 0xfff8),
        Err(SegmentError::OutOfGdtAccess)
    );
    assert_eq!(
        SegmentDescriptor::try_from_gdtr(&Vec::new(), 0x8),
        Err(SegmentError::OutOfGdtAccess)
    );
}

#[test]
fn system_descriptor_at_the_end_of_the_table_is_cut_off() {
    assert_eq!(
        SegmentDescriptor::try_from_gdtr(&gdt(), 0x38),
        Err(SegmentError::OutOfGdtAccess)
    );
    let mut longer = gdt();
    longer.push(0xdead_beef_0000_0001);
    assert_eq!(
        SegmentDescriptor::try_from_gdtr(&longer, 0x38),
        Ok(SegmentDescriptor { low64: 0x0000_8900_0000_0067, upper_base: Some(1) })
    );
    assert_eq!(
        SegmentDescriptor::try_from_gdtr(&longer, 0x38).unwrap().base(),
        0x1_0000_0000
    );
}
