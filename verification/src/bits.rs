//! Bit fields of a byte-wide register.
//!
//! A field is a run of adjacent bits, given by the position of its lowest bit
//! and by a mask that has one bit set for each bit of the field, counted from
//! bit zero. The spec functions here say what reading and replacing a field
//! mean; the lemmas state that a write is read back and leaves the bits
//! outside the field alone.
use vstd::prelude::*;

verus! {

/// The field of `reg` that starts at bit `lsb` and is as wide as `mask`.
pub open spec fn field(reg: u8, lsb: u8, mask: u8) -> u8 {
    (reg >> lsb) & mask
}

/// `reg` with that field replaced by the low bits of `val`.
pub open spec fn with_field(reg: u8, lsb: u8, mask: u8, val: u8) -> u8 {
    (reg & !(mask << lsb)) | ((val & mask) << lsb)
}

/// The single bit `bit` of `reg`.
pub open spec fn flag(reg: u8, bit: u8) -> bool {
    (reg >> bit) & 1 != 0
}

/// `reg` with the single bit `bit` set to `val`.
pub open spec fn with_flag(reg: u8, bit: u8, val: bool) -> u8 {
    with_field(reg, bit, 1, if val { 1 } else { 0 })
}

/// A field fits in the byte when shifting its mask into place loses no bit.
pub open spec fn fits(lsb: u8, mask: u8) -> bool {
    lsb < 8 && (mask << lsb) >> lsb == mask
}

/// Two fields are disjoint when their masks, shifted into place, share no bit.
pub open spec fn disjoint(lsb_a: u8, mask_a: u8, lsb_b: u8, mask_b: u8) -> bool {
    (mask_a << lsb_a) & (mask_b << lsb_b) == 0
}

/// A field that was written reads back as the written value, cut to the
/// field's width.
pub proof fn lemma_field_of_with_field(reg: u8, lsb: u8, mask: u8, val: u8)
    requires
        fits(lsb, mask),
    ensures
        field(with_field(reg, lsb, mask, val), lsb, mask) == val & mask,
{
    assert((lsb < 8 && (mask << lsb) >> lsb == mask) ==> ((((reg & !(mask << lsb)) | ((val & mask)
        << lsb)) >> lsb) & mask == val & mask)) by (bit_vector);
}

/// Writing one field leaves every disjoint field as it was.
pub proof fn lemma_field_of_other_field(
    reg: u8,
    lsb_a: u8,
    mask_a: u8,
    val: u8,
    lsb_b: u8,
    mask_b: u8,
)
    requires
        fits(lsb_a, mask_a),
        fits(lsb_b, mask_b),
        disjoint(lsb_a, mask_a, lsb_b, mask_b),
    ensures
        field(with_field(reg, lsb_a, mask_a, val), lsb_b, mask_b) == field(reg, lsb_b, mask_b),
{
    assert((lsb_a < 8 && lsb_b < 8 && (mask_a << lsb_a) >> lsb_a == mask_a && (mask_b << lsb_b)
        >> lsb_b == mask_b && (mask_a << lsb_a) & (mask_b << lsb_b) == 0) ==> ((((reg & !(mask_a
        << lsb_a)) | ((val & mask_a) << lsb_a)) >> lsb_b) & mask_b == (reg >> lsb_b) & mask_b))
        by (bit_vector);
}

/// Writing a field twice is the same as writing the second value once.
pub proof fn lemma_with_field_twice(reg: u8, lsb: u8, mask: u8, first: u8, second: u8)
    requires
        lsb < 8,
    ensures
        with_field(with_field(reg, lsb, mask, first), lsb, mask, second) == with_field(
            reg,
            lsb,
            mask,
            second,
        ),
{
    assert(lsb < 8 ==> ((((reg & !(mask << lsb)) | ((first & mask) << lsb)) & !(mask << lsb)) | ((
    second & mask) << lsb)) == ((reg & !(mask << lsb)) | ((second & mask) << lsb))) by (bit_vector);
}

/// Writing back what a field holds changes nothing.
pub proof fn lemma_with_field_of_field(reg: u8, lsb: u8, mask: u8)
    requires
        fits(lsb, mask),
    ensures
        with_field(reg, lsb, mask, field(reg, lsb, mask)) == reg,
{
    assert((lsb < 8 && (mask << lsb) >> lsb == mask) ==> ((reg & !(mask << lsb)) | ((((reg >> lsb)
        & mask) & mask) << lsb)) == reg) by (bit_vector);
}

/// A flag that was written reads back as written.
pub proof fn lemma_flag_of_with_flag(reg: u8, bit: u8, val: bool)
    requires
        bit < 8,
    ensures
        flag(with_flag(reg, bit, val), bit) == val,
{
    let v: u8 = if val { 1 } else { 0 };
    assert(bit < 8 ==> (1u8 << bit) >> bit == 1u8) by (bit_vector);
    lemma_field_of_with_field(reg, bit, 1, v);
    assert(1u8 & 1u8 == 1u8 && 0u8 & 1u8 == 0u8) by (bit_vector);
}

} // verus!
