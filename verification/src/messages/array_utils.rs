//! Copying variable-length byte strings into fixed-size protocol fields.

use vstd::prelude::*;
use crate::messages::payload_error::PayloadEncodeError;

verus! {

/// `src` padded with zero bytes to `n` bytes.
pub open spec fn zero_padded(src: Seq<u8>, n: nat) -> Seq<u8> {
    Seq::new(n, |i: int| if i < src.len() { src[i] } else { 0u8 })
}

/// `src` in a field of `N` bytes, padded with zeros; an error naming the field when `src`
/// is longer than `N`.
pub fn encode_array<const N: usize>(field_name: &str, src: &[u8]) -> (result: Result<
    [u8; N],
    PayloadEncodeError,
>)
    ensures
        src.len() <= N ==> result is Ok && result->Ok_0@ == zero_padded(src@, N as nat),
        src.len() > N ==> (result matches Err(PayloadEncodeError::FieldTooLong { field_name: f, len, max })
            && f@ == field_name@ && len == src.len() && max == N),
{
    let mut arr = [0u8; N];
    encode_array_internal(field_name, &mut arr, src)?;
    Ok(arr)
}

fn encode_array_internal(field_name: &str, dst: &mut [u8], src: &[u8]) -> (result: Result<(), PayloadEncodeError>)
    requires
        forall|i: int| 0 <= i < old(dst)@.len() ==> old(dst)@[i] == 0u8,
    ensures
        src.len() <= old(dst)@.len() ==> result is Ok && final(dst)@ == zero_padded(src@, old(dst)@.len()),
        src.len() > old(dst)@.len() ==> (result matches Err(PayloadEncodeError::FieldTooLong { field_name: f, len, max })
            && f@ == field_name@ && len == src.len() && max == old(dst)@.len()),
        final(dst)@.len() == old(dst)@.len(),
{
    let max = dst.len();
    if src.len() > max {
        return Err(PayloadEncodeError::FieldTooLong { field_name: field_name.to_owned(), len: src.len(), max });
    }
    let mut index: usize = 0;
    while index < src.len()
        invariant
            index <= src.len() <= max,
            max == dst@.len(),
            dst@.len() == old(dst)@.len(),
            forall|i: int| 0 <= i < index ==> dst@[i] == src@[i],
            forall|i: int| index <= i < max ==> dst@[i] == 0u8,
        decreases src.len() - index,
    {
        dst[index] = src[index];
        index = index + 1;
    }
    assert(dst@ =~= zero_padded(src@, max as nat));
    Ok(())
}

} // verus!
