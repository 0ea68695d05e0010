//! Facts about setting, toggling and replacing bits of a field, which the
//! header views rest on.

use vstd::prelude::*;

verus! {

/// `bits` with the bits of `mask` replaced by the low bits of `val`, moved up
/// by `shift`.
pub open spec fn with_field(bits: u16, mask: u16, shift: u16, val: u8) -> u16 {
    (bits & !mask) | (((val as u16) << shift) & mask)
}

/// `byte` with its low four bits replaced by those of `val`.
pub open spec fn with_low_nibble(byte: u8, val: u8) -> u8 {
    (byte & 0xF0) | (val & 0x0F)
}

/// `byte` with its high four bits replaced by the low four bits of `val`.
pub open spec fn with_high_nibble(byte: u8, val: u8) -> u8 {
    (byte & 0x0F) | ((val & 0x0F) << 4)
}

/// Setting the bits of `mask` sets them, and leaves every bit as it was that
/// is not in `mask`.
pub proof fn lemma_set_bits(bits: u16, mask: u16, other: u16)
    ensures
        (bits | mask) & mask == mask,
        (bits | mask) & !mask == bits & !mask,
        mask & other == 0 ==> (bits | mask) & other == bits & other,
{
    assert((bits | mask) & mask == mask && (bits | mask) & !mask == bits & !mask && (mask & other
        == 0 ==> (bits | mask) & other == bits & other)) by (bit_vector);
}

/// Toggling the bits of `mask` inverts them, leaves every bit as it was that
/// is not in `mask`, and is undone by toggling again.
pub proof fn lemma_toggle_bits(bits: u16, mask: u16, other: u16)
    ensures
        (bits ^ mask) & mask == !bits & mask,
        (bits ^ mask) & !mask == bits & !mask,
        mask & other == 0 ==> (bits ^ mask) & other == bits & other,
        (bits ^ mask) ^ mask == bits,
{
    assert((bits ^ mask) & mask == !bits & mask && (bits ^ mask) & !mask == bits & !mask && (mask
        & other == 0 ==> (bits ^ mask) & other == bits & other) && (bits ^ mask) ^ mask == bits)
        by (bit_vector);
}

/// Toggling one bit makes the test for it give the opposite answer.
pub proof fn lemma_toggle_bit(bits: u16)
    ensures
        ((bits ^ 0x4000) & 0x4000 != 0) == !(bits & 0x4000 != 0),
        ((bits ^ 0x2000) & 0x2000 != 0) == !(bits & 0x2000 != 0),
{
    assert((((bits ^ 0x4000) & 0x4000 != 0) == !(bits & 0x4000 != 0)) && (((bits ^ 0x2000) & 0x2000
        != 0) == !(bits & 0x2000 != 0))) by (bit_vector);
}

/// Replacing a field of four or of two bits stores the low bits of the value
/// and leaves every bit outside the field as it was.
pub proof fn lemma_with_field(bits: u16, val: u8, other: u16)
    ensures
        (with_field(bits, 0x00F0, 4, val) & 0x00F0) >> 4 == val & 0x0F,
        with_field(bits, 0x00F0, 4, val) & !0x00F0u16 == bits & !0x00F0u16,
        0x00F0u16 & other == 0 ==> with_field(bits, 0x00F0, 4, val) & other == bits & other,
        with_field(bits, 0x000F, 0, val) == (bits & !0x000Fu16) | ((val as u16) & 0x000F),
        with_field(bits, 0x000F, 0, val) & 0x000F == val & 0x0F,
        with_field(bits, 0x000F, 0, val) & !0x000Fu16 == bits & !0x000Fu16,
        0x000Fu16 & other == 0 ==> with_field(bits, 0x000F, 0, val) & other == bits & other,
        (with_field(bits, 0xC000, 14, val) & 0xC000) >> 14 == val & 0x03,
        with_field(bits, 0xC000, 14, val) & !0xC000u16 == bits & !0xC000u16,
        0xC000u16 & other == 0 ==> with_field(bits, 0xC000, 14, val) & other == bits & other,
{
    let v = val as u16;
    assert(v < 0x100 ==> ({
        let d = (bits & !0x00F0u16) | ((v << 4) & 0x00F0);
        &&& (d & 0x00F0) >> 4 == v & 0x0F
        &&& d & !0x00F0u16 == bits & !0x00F0u16
        &&& (0x00F0u16 & other == 0 ==> d & other == bits & other)
    })) by (bit_vector);
    assert(v < 0x100 ==> ({
        let d = (bits & !0x000Fu16) | ((v << 0) & 0x000F);
        &&& d == (bits & !0x000Fu16) | (v & 0x000F)
        &&& d & 0x000F == v & 0x0F
        &&& d & !0x000Fu16 == bits & !0x000Fu16
        &&& (0x000Fu16 & other == 0 ==> d & other == bits & other)
    })) by (bit_vector);
    assert(v < 0x100 ==> ({
        let d = (bits & !0xC000u16) | ((v << 14) & 0xC000);
        &&& (d & 0xC000) >> 14 == v & 0x03
        &&& d & !0xC000u16 == bits & !0xC000u16
        &&& (0xC000u16 & other == 0 ==> d & other == bits & other)
    })) by (bit_vector);
    assert(v & 0x0F == (val & 0x0F) as u16 && v & 0x03 == (val & 0x03) as u16) by (bit_vector)
        requires
            v == val as u16,
    ;
}

/// Replacing one half of a byte stores the low four bits of the value there
/// and leaves the other half as it was.
pub proof fn lemma_nibbles(byte: u8, val: u8)
    ensures
        with_low_nibble(byte, val) & 0x0F == val & 0x0F,
        with_low_nibble(byte, val) & 0xF0 == byte & 0xF0,
        with_high_nibble(byte, val) & 0x0F == byte & 0x0F,
        with_high_nibble(byte, val) >> 4 == val & 0x0F,
        val & 0x0F <= 15,
{
    assert(((byte & 0xF0) | (val & 0x0F)) & 0x0F == val & 0x0F && ((byte & 0xF0) | (val & 0x0F))
        & 0xF0 == byte & 0xF0 && ((byte & 0x0F) | ((val & 0x0F) << 4)) & 0x0F == byte & 0x0F && (
    (byte & 0x0F) | ((val & 0x0F) << 4)) >> 4 == val & 0x0F && val & 0x0F <= 15) by (bit_vector);
}

} // verus!
