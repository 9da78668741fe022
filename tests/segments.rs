use svm_hv::segments::{descriptor_address, segment_access_right};

#[test]
fn descriptor_address_drops_rpl_bits() {
    let gdt_base: u64 = 0xffff_f800_1234_0000;
    assert_eq!(descriptor_address(0x10, gdt_base), Some(gdt_base + 0x10));
    assert_eq!(descriptor_address(0x2b, gdt_base), Some(gdt_base + 0x28));
    assert_eq!(descriptor_address(0x0, gdt_base), Some(gdt_base));
}

#[test]
fn descriptor_address_overflow_is_none() {
    assert_eq!(descriptor_address(0x18, u64::MAX - 8), None);
    assert_eq!(descriptor_address(0x13, u64::MAX - 0x10), Some(u64::MAX));
}

#[test]
fn access_right_of_64_bit_code_segment() {
    // type 0xb, S, DPL 0, present, L
    assert_eq!(segment_access_right(0x0020_9b00_0000_0000), 0x029b);
}

#[test]
fn access_right_of_flat_data_segment() {
    // type 0x3, S, DPL 0, present, D/B, G, limit 0xfffff
    assert_eq!(segment_access_right(0x00cf_9300_0000_ffff), 0x0c93);
}

#[test]
fn access_right_of_user_code_segment() {
    // type 0xb, S, DPL 3, present, L
    assert_eq!(segment_access_right(0x0020_fb00_0000_0000), 0x02fb);
}

#[test]
fn access_right_field_by_field() {
    // each field alone, from a descriptor in a synthetic GDT at a known base
    let gdt_base: u64 = 0x1000;
    let gdt: Vec<u64> = vec![
        0,
        0x0000_0a00_0000_0000, // type 0xa
        0x0000_1000_0000_0000, // system
        0x0000_4000_0000_0000, // DPL 2
        0x0000_8000_0000_0000, // present
        0x0010_0000_0000_0000, // AVL
        0x0020_0000_0000_0000, // long mode
        0x0040_0000_0000_0000, // default bit
        0x0080_0000_0000_0000, // granularity
    ];
    let expected: [u16; 9] = [0, 0xa, 0x10, 0x40, 0x80, 0x100, 0x200, 0x400, 0x800];
    for i in 0..gdt.len() {
        let selector = (i as u16) * 8 | 3;
        let address = descriptor_address(selector, gdt_base).unwrap();
        let read = gdt[((address - gdt_base) / 8) as usize];
        assert_eq!(segment_access_right(read), expected[i]);
    }
}

#[test]
fn access_right_ignores_base_and_limit() {
    assert_eq!(segment_access_right(0xff0f_00ff_ffff_ffff), 0);
    assert_eq!(segment_access_right(u64::MAX), 0x0fff);
}
