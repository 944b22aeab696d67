use hv::apic_id::{init, processor_id_from, ApicIdMap};

#[test]
fn new_registry_is_empty() {
    let registry = ApicIdMap::new();
    assert_eq!(registry.processor_count(), 0);
    for apic_id in 0..=255u8 {
        assert_eq!(registry.get(apic_id), None);
        assert_eq!(processor_id_from(&registry, apic_id), None);
    }
}

#[test]
fn processors_are_numbered_in_the_order_of_their_registration() {
    let apic_ids = vec![0u8, 2, 4, 6, 1, 3, 5, 7, 255];
    let registry = init(&apic_ids);
    assert_eq!(registry.processor_count(), 9);
    for (index, apic_id) in apic_ids.iter().enumerate() {
        assert_eq!(processor_id_from(&registry, *apic_id), Some(index));
        assert_eq!(registry.get(*apic_id), Some(index));
    }
    assert_eq!(processor_id_from(&registry, 8), None);
    assert_eq!(processor_id_from(&registry, 254), None);
}

#[test]
fn registry_of_no_processor_is_empty() {
    let registry = init(&Vec::new());
    assert_eq!(registry.processor_count(), 0);
    assert_eq!(processor_id_from(&registry, 0), None);
}

#[test]
fn each_new_processor_was_not_present_before() {
    let mut registry = ApicIdMap::new();
    for (index, apic_id) in [7u8, 0, 200, 3].into_iter().enumerate() {
        assert_eq!(registry.get(apic_id), None);
        assert_eq!(registry.insert(apic_id), None);
        assert_eq!(registry.get(apic_id), Some(index));
        assert_eq!(registry.processor_count(), index + 1);
    }
    let all: Vec<u8> = (0..=255).rev().collect();
    let mut full = ApicIdMap::new();
    for apic_id in &all {
        assert_eq!(full.insert(*apic_id), None);
    }
    assert_eq!(full.processor_count(), 256);
    assert_eq!(full.get(255), Some(0));
    assert_eq!(full.get(0), Some(255));
}

#[test]
fn processor_that_is_registered_keeps_its_index() {
    let mut registry = ApicIdMap::new();
    assert_eq!(registry.insert(9), None);
    assert_eq!(registry.insert(4), None);
    assert_eq!(registry.insert(9), Some(0));
    assert_eq!(registry.insert(4), Some(1));
    assert_eq!(registry.processor_count(), 2);
    assert_eq!(registry.insert(5), None);
    assert_eq!(registry.get(5), Some(2));
    assert_eq!(registry.get(9), Some(0));
}

fn apic_id_of_this_processor() -> u8 {
    (x86::cpuid::native_cpuid::cpuid_count(1, 0).ebx >> 24) as u8
}

#[test]
fn current_processor_is_registered_under_its_apic_id() {
    // The thread may move to another processor at any time: the APIC ID is
    // compared where it read the same before and after the registration.
    for _ in 0..100 {
        let before = apic_id_of_this_processor();
        let mut registry = ApicIdMap::new();
        assert_eq!(registry.insert_current(), None);
        let after = apic_id_of_this_processor();
        assert_eq!(registry.processor_count(), 1);
        let registered: Vec<u8> = (0..=255u8)
            .filter(|apic_id| registry.get(*apic_id) == Some(0))
            .collect();
        assert_eq!(registered.len(), 1);
        if before == after {
            assert_eq!(registered[0], before);
            assert_eq!(processor_id_from(&registry, before), Some(0));
            return;
        }
    }
}

#[test]
fn registering_the_current_processor_twice_counts_it_once() {
    let mut registry = ApicIdMap::new();
    for apic_id in 0..=255u8 {
        assert_eq!(registry.insert(apic_id), None);
    }
    let previous = registry.insert_current();
    assert!(matches!(previous, Some(index) if index < 256));
    assert_eq!(registry.processor_count(), 256);
}

#[test]
fn apic_id_that_occurs_twice_is_refused() {
    assert!(hv::apic_id::try_init(&vec![1, 2, 3, 2]).is_none());
    assert!(hv::apic_id::try_init(&vec![0, 0]).is_none());
    let registry = hv::apic_id::try_init(&vec![3, 1, 2]).unwrap();
    assert_eq!(registry.processor_count(), 3);
    assert_eq!(processor_id_from(&registry, 3), Some(0));
    assert_eq!(processor_id_from(&registry, 1), Some(1));
    assert_eq!(processor_id_from(&registry, 2), Some(2));
    assert_eq!(processor_id_from(&registry, 0), None);
    assert_eq!(hv::apic_id::try_init(&Vec::new()).unwrap().processor_count(), 0);
}

#[test]
fn apic_id_is_the_high_byte_of_ebx() {
    assert_eq!(hv::apic_id::local_apic_id(0x1200_0800), 0x12);
    assert_eq!(hv::apic_id::local_apic_id(0x00ff_ffff), 0);
    assert_eq!(hv::apic_id::local_apic_id(0xffff_ffff), 0xff);
    assert_eq!(hv::apic_id::local_apic_id(0x0100_0000), 1);
    let ebx = x86::cpuid::native_cpuid::cpuid_count(1, 0).ebx;
    assert_eq!(u32::from(hv::apic_id::local_apic_id(ebx)), ebx >> 24);
}
