//! Decoding of 64-bit GDT segment descriptors into the 12-bit attribute word
//! that the VMCB's segment cache holds.

use vstd::prelude::*;

verus! {

/// Requested-privilege-level bits of a segment selector.
pub const RPL_MASK: u16 = 3;

/// Type field of a descriptor, bits 40..=43.
pub open spec fn descriptor_type(d: u64) -> u64 {
    (d >> 40u64) & 0xf
}

/// System (S) bit of a descriptor, bit 44.
pub open spec fn descriptor_system(d: u64) -> u64 {
    (d >> 44u64) & 1
}

/// Privilege level of a descriptor, bits 45..=46.
pub open spec fn descriptor_dpl(d: u64) -> u64 {
    (d >> 45u64) & 3
}

/// Present bit of a descriptor, bit 47.
pub open spec fn descriptor_present(d: u64) -> u64 {
    (d >> 47u64) & 1
}

/// Available-for-software bit of a descriptor, bit 52.
pub open spec fn descriptor_avl(d: u64) -> u64 {
    (d >> 52u64) & 1
}

/// Long-mode (L) bit of a descriptor, bit 53.
pub open spec fn descriptor_long_mode(d: u64) -> u64 {
    (d >> 53u64) & 1
}

/// Default operand size (D/B) bit of a descriptor, bit 54.
pub open spec fn descriptor_default_bit(d: u64) -> u64 {
    (d >> 54u64) & 1
}

/// Granularity bit of a descriptor, bit 55.
pub open spec fn descriptor_granularity(d: u64) -> u64 {
    (d >> 55u64) & 1
}

/// The attribute word of a descriptor: type in bits 0..=3, system bit 4, DPL
/// bits 5..=6, present bit 7, AVL bit 8, long mode bit 9, default bit 10,
/// granularity bit 11, bits 12..=15 clear.
pub open spec fn access_right_of(d: u64) -> u16 {
    (descriptor_type(d) | descriptor_system(d) << 4u64 | descriptor_dpl(d) << 5u64
        | descriptor_present(d) << 7u64 | descriptor_avl(d) << 8u64 | descriptor_long_mode(d)
        << 9u64 | descriptor_default_bit(d) << 10u64 | descriptor_granularity(d) << 11u64) as u16
}

/// Address of the descriptor that `segment_selector` names in the GDT at
/// `gdt_base`: the selector with its RPL bits cleared is the byte offset.
/// `None` where that address does not fit in 64 bits.
pub fn descriptor_address(segment_selector: u16, gdt_base: u64) -> (r: Option<u64>)
    ensures
        gdt_base + (segment_selector & !RPL_MASK) <= u64::MAX ==> r == Some(
            (gdt_base + (segment_selector & !RPL_MASK)) as u64,
        ),
        gdt_base + (segment_selector & !RPL_MASK) > u64::MAX ==> r is None,
{
    let index: u16 = segment_selector & !RPL_MASK;
    gdt_base.checked_add(index as u64)
}

/// The attribute word of the segment whose 64-bit GDT descriptor is `descriptor`.
pub fn segment_access_right(descriptor: u64) -> (r: u16)
    ensures
        r == access_right_of(descriptor),
{
    let field_type = ((descriptor >> 40u64) & 0xf) as u16;
    let system = (((descriptor >> 44u64) & 1) as u16) << 4u16;
    let dpl = (((descriptor >> 45u64) & 3) as u16) << 5u16;
    let present = (((descriptor >> 47u64) & 1) as u16) << 7u16;
    let avl = (((descriptor >> 52u64) & 1) as u16) << 8u16;
    let long_mode = (((descriptor >> 53u64) & 1) as u16) << 9u16;
    let default_bit = (((descriptor >> 54u64) & 1) as u16) << 10u16;
    let granularity = (((descriptor >> 55u64) & 1) as u16) << 11u16;
    let attribute = field_type | system | dpl | present | avl | long_mode | default_bit
        | granularity;
    proof {
        lemma_access_right_bits(descriptor, attribute);
    }
    attribute
}

proof fn lemma_access_right_bits(d: u64, a: u16)
    requires
        a == ((((d >> 40u64) & 0xf) as u16) | ((((d >> 44u64) & 1) as u16) << 4u16) | ((((d
            >> 45u64) & 3) as u16) << 5u16) | ((((d >> 47u64) & 1) as u16) << 7u16) | ((((d
            >> 52u64) & 1) as u16) << 8u16) | ((((d >> 53u64) & 1) as u16) << 9u16) | ((((d
            >> 54u64) & 1) as u16) << 10u16) | ((((d >> 55u64) & 1) as u16) << 11u16)),
    ensures
        a == access_right_of(d),
{
    assert(a == ((((d >> 40u64) & 0xf) | ((d >> 44u64) & 1) << 4u64 | ((d >> 45u64) & 3) << 5u64
        | ((d >> 47u64) & 1) << 7u64 | ((d >> 52u64) & 1) << 8u64 | ((d >> 53u64) & 1) << 9u64
        | ((d >> 54u64) & 1) << 10u64 | ((d >> 55u64) & 1) << 11u64) as u16)) by (bit_vector)
        requires
            a == ((((d >> 40u64) & 0xf) as u16) | ((((d >> 44u64) & 1) as u16) << 4u16) | ((((d
                >> 45u64) & 3) as u16) << 5u16) | ((((d >> 47u64) & 1) as u16) << 7u16) | ((((d
                >> 52u64) & 1) as u16) << 8u16) | ((((d >> 53u64) & 1) as u16) << 9u16) | ((((d
                >> 54u64) & 1) as u16) << 10u16) | ((((d >> 55u64) & 1) as u16) << 11u16)),
    ;
}

/// Each field of the attribute word is the descriptor's field of the same name:
/// type in bits 0..=3, system bit 4, DPL bits 5..=6, present bit 7, AVL bit 8,
/// long mode bit 9, default bit 10, granularity bit 11; bits 12..=15 are clear.
pub proof fn lemma_access_right_fields(d: u64)
    ensures
        (access_right_of(d) & 0xf) as u64 == descriptor_type(d),
        ((access_right_of(d) >> 4u16) & 1) as u64 == descriptor_system(d),
        ((access_right_of(d) >> 5u16) & 3) as u64 == descriptor_dpl(d),
        ((access_right_of(d) >> 7u16) & 1) as u64 == descriptor_present(d),
        ((access_right_of(d) >> 8u16) & 1) as u64 == descriptor_avl(d),
        ((access_right_of(d) >> 9u16) & 1) as u64 == descriptor_long_mode(d),
        ((access_right_of(d) >> 10u16) & 1) as u64 == descriptor_default_bit(d),
        ((access_right_of(d) >> 11u16) & 1) as u64 == descriptor_granularity(d),
        access_right_of(d) >> 12u16 == 0,
{
    let a = access_right_of(d);
    assert(a == ((((d >> 40u64) & 0xf) | ((d >> 44u64) & 1) << 4u64 | ((d >> 45u64) & 3) << 5u64
        | ((d >> 47u64) & 1) << 7u64 | ((d >> 52u64) & 1) << 8u64 | ((d >> 53u64) & 1) << 9u64
        | ((d >> 54u64) & 1) << 10u64 | ((d >> 55u64) & 1) << 11u64) as u16));
    assert((a & 0xf) as u64 == (d >> 40u64) & 0xf && ((a >> 4u16) & 1) as u64 == (d >> 44u64) & 1
        && ((a >> 5u16) & 3) as u64 == (d >> 45u64) & 3 && ((a >> 7u16) & 1) as u64 == (d
        >> 47u64) & 1 && ((a >> 8u16) & 1) as u64 == (d >> 52u64) & 1 && ((a >> 9u16) & 1) as u64
        == (d >> 53u64) & 1 && ((a >> 10u16) & 1) as u64 == (d >> 54u64) & 1 && ((a >> 11u16)
        & 1) as u64 == (d >> 55u64) & 1 && a >> 12u16 == 0) by (bit_vector)
        requires
            a == ((((d >> 40u64) & 0xf) | ((d >> 44u64) & 1) << 4u64 | ((d >> 45u64) & 3) << 5u64
                | ((d >> 47u64) & 1) << 7u64 | ((d >> 52u64) & 1) << 8u64 | ((d >> 53u64) & 1)
                << 9u64 | ((d >> 54u64) & 1) << 10u64 | ((d >> 55u64) & 1) << 11u64) as u16),
    ;
}

} // verus!
