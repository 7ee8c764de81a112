//! ASCII renderings of numbers and byte strings, as the logs print them.

use vstd::prelude::*;
use vstd::utf8::{encode_utf8, is_ascii_chars, is_ascii_chars_encode_utf8};
use crate::messages::settings::string_from_utf8;

verus! {

/// The uppercase hexadecimal digit of a value below 16.
pub open spec fn upper_hex_char(v: nat) -> u8 {
    if v < 10 { (0x30 + v) as u8 } else { (0x41 + v - 10) as u8 }
}

/// The uppercase hexadecimal digits of `n`, without leading zeros.
pub open spec fn hex_digits(n: nat) -> Seq<u8>
    decreases n,
{
    if n < 16 {
        seq![upper_hex_char(n)]
    } else {
        hex_digits(n / 16) + seq![upper_hex_char(n % 16)]
    }
}

/// `n` in uppercase hexadecimal, padded with a zero to at least two digits.
pub open spec fn hex2(n: nat) -> Seq<u8> {
    if n < 16 { seq![0x30u8, upper_hex_char(n)] } else { hex_digits(n) }
}

/// The decimal digits of `n`, without leading zeros.
pub open spec fn dec_digits(n: nat) -> Seq<u8>
    decreases n,
{
    if n < 10 {
        seq![(0x30 + n) as u8]
    } else {
        dec_digits(n / 10) + seq![(0x30 + n % 10) as u8]
    }
}

/// Each byte as two uppercase hexadecimal digits followed by a space.
pub open spec fn hex_bytes_text(p: Seq<u8>) -> Seq<u8>
    decreases p.len(),
{
    if p.len() == 0 {
        Seq::empty()
    } else {
        hex_bytes_text(p.drop_last()) + hex2(p.last() as nat) + seq![0x20u8]
    }
}

/// Every byte is ASCII.
pub open spec fn all_ascii(s: Seq<u8>) -> bool {
    forall|i: int| 0 <= i < s.len() ==> #[trigger] s[i] < 128
}

proof fn lemma_ascii_concat(a: Seq<u8>, b: Seq<u8>)
    requires
        all_ascii(a),
        all_ascii(b),
    ensures
        all_ascii(a + b),
{
    assert forall|i: int| 0 <= i < (a + b).len() implies #[trigger] (a + b)[i] < 128 by {
        if i < a.len() {
            assert((a + b)[i] == a[i]);
        } else {
            assert((a + b)[i] == b[i - a.len()]);
        }
    }
}

/// Appends the hexadecimal digits of `n`.
fn push_hex_digits(out: &mut Vec<u8>, n: usize)
    requires
        all_ascii(old(out)@),
    ensures
        final(out)@ == old(out)@ + hex_digits(n as nat),
        all_ascii(final(out)@),
    decreases n,
{
    if n >= 16 {
        push_hex_digits(out, n / 16);
    }
    let d = n % 16;
    let c: u8 = if d < 10 { 0x30 + d as u8 } else { 0x41 + (d - 10) as u8 };
    let ghost before = out@;
    out.push(c);
    proof {
        if n >= 16 {
            assert(out@ =~= old(out)@ + hex_digits(n as nat));
        } else {
            assert(out@ =~= old(out)@ + hex_digits(n as nat));
        }
        assert forall|i: int| 0 <= i < out@.len() implies #[trigger] out@[i] < 128 by {
            if i < before.len() {
                assert(out@[i] == before[i]);
            }
        }
    }
}

/// Appends `n` in hexadecimal, as in `hex2`.
pub(crate) fn push_hex2(out: &mut Vec<u8>, n: usize)
    requires
        all_ascii(old(out)@),
    ensures
        final(out)@ == old(out)@ + hex2(n as nat),
        all_ascii(final(out)@),
{
    if n < 16 {
        out.push(0x30);
        let c: u8 = if n < 10 { 0x30 + n as u8 } else { 0x41 + (n - 10) as u8 };
        out.push(c);
        proof {
            assert(out@ =~= old(out)@ + hex2(n as nat));
            assert forall|i: int| 0 <= i < out@.len() implies #[trigger] out@[i] < 128 by {
                if i < old(out)@.len() {
                    assert(out@[i] == old(out)@[i]);
                }
            }
        }
    } else {
        push_hex_digits(out, n);
    }
}

/// Appends the decimal digits of `n`.
pub(crate) fn push_decimal(out: &mut Vec<u8>, n: usize)
    requires
        all_ascii(old(out)@),
    ensures
        final(out)@ == old(out)@ + dec_digits(n as nat),
        all_ascii(final(out)@),
    decreases n,
{
    if n >= 10 {
        push_decimal(out, n / 10);
    }
    let c: u8 = 0x30 + (n % 10) as u8;
    let ghost before = out@;
    out.push(c);
    proof {
        assert(out@ =~= old(out)@ + dec_digits(n as nat));
        assert forall|i: int| 0 <= i < out@.len() implies #[trigger] out@[i] < 128 by {
            if i < before.len() {
                assert(out@[i] == before[i]);
            }
        }
    }
}

/// Appends each byte of `bytes` as two hexadecimal digits and a space.
pub(crate) fn push_hex_bytes(out: &mut Vec<u8>, bytes: &[u8])
    requires
        all_ascii(old(out)@),
    ensures
        final(out)@ == old(out)@ + hex_bytes_text(bytes@),
        all_ascii(final(out)@),
{
    let mut i: usize = 0;
    while i < bytes.len()
        invariant
            i <= bytes@.len(),
            out@ == old(out)@ + hex_bytes_text(bytes@.subrange(0, i as int)),
            all_ascii(out@),
        decreases bytes@.len() - i,
    {
        push_hex2(out, bytes[i] as usize);
        let ghost mid = out@;
        out.push(0x20);
        proof {
            let next = bytes@.subrange(0, i + 1);
            assert(next.drop_last() =~= bytes@.subrange(0, i as int));
            assert(out@ =~= old(out)@ + hex_bytes_text(next));
            assert forall|k: int| 0 <= k < out@.len() implies #[trigger] out@[k] < 128 by {
                if k < out@.len() - 1 {
                    assert(out@[k] == mid[k]);
                }
            }
        }
        i = i + 1;
    }
    assert(bytes@.subrange(0, i as int) =~= bytes@);
}

/// Text for ASCII bytes.
pub(crate) fn ascii_string(bytes: Vec<u8>) -> (s: String)
    requires
        all_ascii(bytes@),
    ensures
        encode_utf8(s@) == bytes@,
{
    let ghost chars = bytes@.map_values(|b: u8| b as char);
    proof {
        assert(is_ascii_chars(chars));
        is_ascii_chars_encode_utf8(chars);
        assert(encode_utf8(chars) =~= bytes@);
    }
    match string_from_utf8(bytes) {
        Some(s) => s,
        None => {
            proof {
                assert(encode_utf8(chars) == bytes@);
            }
            String::new()
        },
    }
}

} // verus!
