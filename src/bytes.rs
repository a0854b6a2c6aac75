use vstd::prelude::*;

verus! {

/// The value of two bytes read as a big-endian unsigned integer.
pub open spec fn be_u16_value(b: Seq<u8>) -> int {
    b[0] as int * 0x100 + b[1] as int
}

/// The value of four bytes read as a big-endian unsigned integer.
pub open spec fn be_u32_value(b: Seq<u8>) -> int {
    b[0] as int * 0x1000000 + b[1] as int * 0x10000 + b[2] as int * 0x100 + b[3] as int
}

/// The value of four bytes read as a big-endian two's complement integer.
pub open spec fn be_i32_value(b: Seq<u8>) -> int {
    let u = be_u32_value(b);
    if u >= 0x80000000 {
        u - 0x100000000
    } else {
        u
    }
}

/// Relies on byteorder's `BigEndian::read_u16`, which reads the first two
/// bytes of its buffer, most significant first.
#[verifier::external_body]
pub(crate) fn read_be_u16(b: &[u8]) -> (r: u16)
    requires
        b@.len() == 2,
    ensures
        r as int == be_u16_value(b@),
{
    <byteorder::BigEndian as byteorder::ByteOrder>::read_u16(b)
}

/// Relies on byteorder's `BigEndian::read_i32`, which reads the first four
/// bytes of its buffer, most significant first, as a two's complement value.
#[verifier::external_body]
pub(crate) fn read_be_i32(b: &[u8]) -> (r: i32)
    requires
        b@.len() == 4,
    ensures
        r as int == be_i32_value(b@),
{
    <byteorder::BigEndian as byteorder::ByteOrder>::read_i32(b)
}

} // verus!
