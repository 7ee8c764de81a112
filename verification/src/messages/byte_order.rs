//! Big-endian 16-bit fields, through `byteorder`.

use byteorder::ByteOrder;
use vstd::prelude::*;

verus! {

/// Calls `byteorder::BigEndian::read_u16` on the first two bytes of `buf`; the contract
/// states the big-endian value that the crate's documentation describes. The crate panics
/// on fewer than two bytes, which `requires` leaves out.
#[verifier::external_body]
pub(crate) fn read_u16_be(buf: &[u8]) -> (v: u16)
    requires
        buf.len() >= 2,
    ensures
        v == buf@[0] * 256 + buf@[1],
{
    byteorder::BigEndian::read_u16(buf)
}

/// Calls `byteorder::BigEndian::write_u16` into a two-byte buffer; the contract states the
/// big-endian bytes that the crate's documentation describes.
#[verifier::external_body]
pub(crate) fn write_u16_be(v: u16) -> (b: [u8; 2])
    ensures
        b@[0] == v / 256,
        b@[1] == v % 256,
{
    let mut b = [0u8; 2];
    byteorder::BigEndian::write_u16(&mut b, v);
    b
}

} // verus!
