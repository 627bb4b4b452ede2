//! Integers as bytes in big and little endian order.

use vstd::prelude::*;

verus! {

/// Two's complement representation of a signed number.
pub open spec fn unsigned_bits(value: i16) -> u16 {
    if value >= 0 {
        value as u16
    } else {
        (value + 0x1_0000) as u16
    }
}

/// Signed number with the given two's complement representation.
pub open spec fn signed_value(bits: u16) -> i16 {
    if bits < 0x8000 {
        bits as i16
    } else {
        (bits - 0x1_0000) as i16
    }
}

/// Number with the given bytes, the most significant one first.
pub open spec fn join_u16(high: u8, low: u8) -> u16 {
    (high * 0x100 + low) as u16
}

/// Signed number with the given bytes, the most significant one first.
pub open spec fn join_i16(high: u8, low: u8) -> i16 {
    signed_value(join_u16(high, low))
}

/// Number with the given bytes, the most significant one first.
pub open spec fn join_u32(b0: u8, b1: u8, b2: u8, b3: u8) -> u32 {
    (b0 * 0x100_0000 + b1 * 0x1_0000 + b2 * 0x100 + b3) as u32
}

/// Big endian bytes of a signed number.
pub open spec fn be_i16(value: i16) -> Seq<u8> {
    seq![(unsigned_bits(value) / 0x100) as u8, (unsigned_bits(value) % 0x100) as u8]
}

/// Little endian bytes of a signed number.
pub open spec fn le_i16(value: i16) -> Seq<u8> {
    seq![(unsigned_bits(value) % 0x100) as u8, (unsigned_bits(value) / 0x100) as u8]
}

/// Big endian bytes of a number.
pub open spec fn be_u32(value: u32) -> Seq<u8> {
    seq![
        (value / 0x100_0000) as u8,
        (value / 0x1_0000 % 0x100) as u8,
        (value / 0x100 % 0x100) as u8,
        (value % 0x100) as u8,
    ]
}

/// The bytes of a signed number give the number back in either order, and every two bytes are
/// the bytes of a number.
pub proof fn law_i16_bytes_roundtrip(value: i16, high: u8, low: u8)
    ensures
        join_i16(be_i16(value)[0], be_i16(value)[1]) == value,
        join_i16(le_i16(value)[1], le_i16(value)[0]) == value,
        be_i16(join_i16(high, low)) == seq![high, low],
        le_i16(join_i16(high, low)) == seq![low, high],
{
}

/// The bytes of a number give the number back, and every four bytes are the bytes of a number.
pub proof fn law_u32_bytes_roundtrip(value: u32, b0: u8, b1: u8, b2: u8, b3: u8)
    ensures
        join_u32(be_u32(value)[0], be_u32(value)[1], be_u32(value)[2], be_u32(value)[3]) == value,
        be_u32(join_u32(b0, b1, b2, b3)) == seq![b0, b1, b2, b3],
{
    assert((value / 0x100_0000) * 0x100_0000 + (value / 0x1_0000 % 0x100) * 0x1_0000 + (value
        / 0x100 % 0x100) * 0x100 + (value % 0x100) == value) by (bit_vector);
    assert(value / 0x100_0000 < 0x100) by (bit_vector);
    let joined = join_u32(b0, b1, b2, b3);
    assert(joined / 0x100_0000 == b0 && joined / 0x1_0000 % 0x100 == b1 && joined / 0x100 % 0x100
        == b2 && joined % 0x100 == b3) by (bit_vector)
        requires
            joined == b0 * 0x100_0000 + b1 * 0x1_0000 + b2 * 0x100 + b3,
    ;
}

/// Signed number with the given bytes.
pub fn i16_from_bytes(high: u8, low: u8) -> (value: i16)
    ensures
        value == join_i16(high, low),
{
    let bits: i32 = high as i32 * 0x100 + low as i32;
    if bits < 0x8000 {
        bits as i16
    } else {
        (bits - 0x1_0000) as i16
    }
}

/// Number with the given bytes, the most significant one first.
pub fn u32_from_bytes(b0: u8, b1: u8, b2: u8, b3: u8) -> (value: u32)
    ensures
        value == join_u32(b0, b1, b2, b3),
{
    b0 as u32 * 0x100_0000 + b1 as u32 * 0x1_0000 + b2 as u32 * 0x100 + b3 as u32
}

/// Most and least significant byte of a signed number.
pub fn i16_to_bytes(value: i16) -> (bytes: (u8, u8))
    ensures
        be_i16(value) == seq![bytes.0, bytes.1],
        le_i16(value) == seq![bytes.1, bytes.0],
{
    let bits: u16 = if value >= 0 {
        value as u16
    } else {
        (value as i32 + 0x1_0000) as u16
    };
    ((bits / 0x100) as u8, (bits % 0x100) as u8)
}

/// Appends the big endian bytes of a signed number.
pub fn push_be_i16(buf: &mut Vec<u8>, value: i16)
    ensures
        final(buf)@ == old(buf)@ + be_i16(value),
{
    let (high, low) = i16_to_bytes(value);
    buf.push(high);
    buf.push(low);
    assert(buf@ =~= old(buf)@ + be_i16(value));
}

/// Appends the big endian bytes of a number.
pub fn push_be_u32(buf: &mut Vec<u8>, value: u32)
    ensures
        final(buf)@ == old(buf)@ + be_u32(value),
{
    buf.push((value / 0x100_0000) as u8);
    buf.push((value / 0x1_0000 % 0x100) as u8);
    buf.push((value / 0x100 % 0x100) as u8);
    buf.push((value % 0x100) as u8);
    assert(buf@ =~= old(buf)@ + be_u32(value));
}

/// Value of a signed number in two's complement.
pub open spec fn twos_complement(value: i16) -> int {
    if value < 0 {
        value + 0x1_0000
    } else {
        value as int
    }
}

/// The bytes of a signed number are its two's complement, with the most significant byte at the
/// start in big endian order and at the end in little endian order.
pub proof fn law_signed_bytes(value: i16, high: u8, low: u8)
    ensures
        be_i16(value).len() == 2,
        be_i16(value)[0] * 0x100 + be_i16(value)[1] == twos_complement(value),
        le_i16(value).len() == 2,
        le_i16(value)[1] * 0x100 + le_i16(value)[0] == twos_complement(value),
        twos_complement(join_i16(high, low)) == high * 0x100 + low,
{
}

/// The bytes of a number have the weights of their positions.
pub proof fn law_unsigned_bytes(value: u32, b0: u8, b1: u8, b2: u8, b3: u8)
    ensures
        ({
            let bytes = be_u32(value);
            &&& bytes.len() == 4
            &&& bytes[0] * 0x100_0000 + bytes[1] * 0x1_0000 + bytes[2] * 0x100 + bytes[3] == value
        }),
        join_u16(b0, b1) == b0 * 0x100 + b1,
        join_u32(b0, b1, b2, b3) == b0 * 0x100_0000 + b1 * 0x1_0000 + b2 * 0x100 + b3,
{
    assert((value / 0x100_0000) * 0x100_0000 + (value / 0x1_0000 % 0x100) * 0x1_0000 + (value
        / 0x100 % 0x100) * 0x100 + (value % 0x100) == value) by (bit_vector);
    assert(value / 0x100_0000 < 0x100) by (bit_vector);
}

} // verus!
