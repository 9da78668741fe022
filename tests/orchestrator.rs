use svm_hv::hv::{Hypervisor, VirtualizationBitset};
use svm_hv::utils::{affinity_mask, disable_svm, enable_svm, is_svm_supported};

#[test]
fn bitset_marks_one_processor() {
    let mut b = VirtualizationBitset::new();
    assert!(!b.is_virtualized(3));
    b.set_virtualized(3);
    assert!(b.is_virtualized(3));
    assert!(!b.is_virtualized(2));
    b.set_virtualized(63);
    assert_eq!(b.bits, (1u64 << 63) | 8);
    b.clear_virtualized(3);
    assert_eq!(b.bits, 1u64 << 63);
}

#[test]
fn second_virtualize_pass_launches_nothing() {
    let mut h = Hypervisor::new();
    assert!(h.allocate_pool(4));
    for p in 0..4 {
        assert!(h.virtualize_cpu(p));
    }
    for p in 0..4 {
        assert!(h.virtualized.is_virtualized(p));
    }
    for p in 0..4 {
        assert!(!h.virtualize_cpu(p));
    }
    assert_eq!(h.virtualized.bits, 0xf);
    assert_eq!(h.svm_on.bits, 0xf);
}

#[test]
fn teardown_frees_pool_once() {
    let mut h = Hypervisor::new();
    assert!(h.allocate_pool(3));
    for p in 0..3 {
        h.virtualize_cpu(p);
    }
    h.devirtualized_cpu(0);
    h.devirtualized_cpu(1);
    assert_eq!(h.release_pool(), None);
    assert_eq!(h.pool, Some(3));
    h.devirtualized_cpu(2);
    assert_eq!(h.svm_on.bits, 0);
    assert_eq!(h.release_pool(), Some(3));
    assert_eq!(h.pool, None);
    assert_eq!(h.virtualized.bits, 0);
    assert_eq!(h.release_pool(), None);
}

#[test]
fn pool_is_allocated_once() {
    let mut h = Hypervisor::new();
    assert!(!h.allocate_pool(65));
    assert_eq!(h.pool, None);
    assert!(h.allocate_pool(64));
    assert!(!h.allocate_pool(2));
    assert_eq!(h.pool, Some(64));
}

#[test]
fn svm_enable_bit_of_efer() {
    assert_eq!(enable_svm(0x0d01), 0x1d01);
    assert_eq!(enable_svm(0x1d01), 0x1d01);
    assert_eq!(disable_svm(0x1d01), 0x0d01);
    assert_eq!(disable_svm(0x0500), 0x0500);
}

#[test]
fn svm_support_decision() {
    assert!(is_svm_supported(true, 0));
    assert!(is_svm_supported(true, 0x08));
    assert!(!is_svm_supported(true, 0x10));
    assert!(!is_svm_supported(false, 0));
}

#[test]
fn affinity_mask_in_and_out_of_range() {
    assert_eq!(affinity_mask(0, 4), Some(1));
    assert_eq!(affinity_mask(3, 4), Some(8));
    assert_eq!(affinity_mask(4, 4), None);
    assert_eq!(affinity_mask(63, 64), Some(1u64 << 63));
    assert_eq!(affinity_mask(64, 80), None);
}
