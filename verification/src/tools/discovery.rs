//! The answer that a Wi-Fi module sends to a discovery broadcast: its host name on the
//! first line and its MAC address, as hexadecimal bytes separated by dashes, on the second.

use vstd::prelude::*;
use vstd::utf8::encode_utf8;
use crate::messages::settings::string_from_utf8;
use crate::messages::text::{all_ascii, ascii_string};

verus! {

/// Why a discovery answer cannot be read.
#[derive(Debug, PartialEq, Eq, Structural, Clone, Copy)]
pub enum DiscoveryError {
    /// The answer is empty.
    MissingHostname,
    /// The answer has no second line.
    MissingMac,
    /// A line is not UTF-8 text.
    InvalidUtf8,
}

/// Index of the first newline at or after `from`, or the length when there is none.
pub open spec fn line_end(p: Seq<u8>, from: int) -> int
    decreases p.len() - from,
{
    if from >= p.len() {
        p.len() as int
    } else if p[from] == 0x0a {
        from
    } else {
        line_end(p, from + 1)
    }
}

/// The line that starts at `from`: up to the newline, without the newline and without a
/// carriage return before it.
pub open spec fn line_at(p: Seq<u8>, from: int) -> Seq<u8> {
    let end = line_end(p, from);
    if end < p.len() && end > from && p[end - 1] == 0x0d {
        p.subrange(from, end - 1)
    } else {
        p.subrange(from, end)
    }
}

/// The value of an ASCII hexadecimal digit, if `b` is one.
pub open spec fn hex_digit(b: u8) -> Option<u8> {
    if 0x30 <= b <= 0x39 {
        Some((b - 0x30) as u8)
    } else if 0x61 <= b <= 0x66 {
        Some((b - 0x61 + 10) as u8)
    } else if 0x41 <= b <= 0x46 {
        Some((b - 0x41 + 10) as u8)
    } else {
        None
    }
}

/// The number that hexadecimal digits denote, if all of them are digits.
pub open spec fn hex_value(digits: Seq<u8>) -> Option<int>
    decreases digits.len(),
{
    if digits.len() == 0 {
        Some(0)
    } else {
        match (hex_value(digits.drop_last()), hex_digit(digits.last())) {
            (Some(v), Some(d)) => Some(v * 16 + d),
            _ => None,
        }
    }
}

/// What `u8::from_str_radix(text, 16)` accepts: an optional `+`, at least one hexadecimal
/// digit, and a value below 256.
pub open spec fn hex_byte(text: Seq<u8>) -> Option<u8> {
    let digits = if text.len() > 0 && text[0] == 0x2b { text.subrange(1, text.len() as int) } else { text };
    if digits.len() == 0 {
        None
    } else {
        match hex_value(digits) {
            Some(v) => if v < 256 { Some(v as u8) } else { None },
            None => None,
        }
    }
}

/// The bytes of the dash-separated fields of `text` that are hexadecimal bytes, in order;
/// `start` is where the current field began and `i` how far the scan has come.
pub open spec fn mac_bytes_from(text: Seq<u8>, start: int, i: int) -> Seq<u8>
    decreases text.len() - i,
{
    if i >= text.len() {
        match hex_byte(text.subrange(start, text.len() as int)) {
            Some(b) => seq![b],
            None => Seq::empty(),
        }
    } else if text[i] == 0x2d {
        let rest = mac_bytes_from(text, i + 1, i + 1);
        match hex_byte(text.subrange(start, i)) {
            Some(b) => seq![b] + rest,
            None => rest,
        }
    } else {
        mac_bytes_from(text, start, i + 1)
    }
}

/// The lowercase hexadecimal digit of a value below 16.
pub open spec fn hex_char(v: u8) -> u8 {
    if v < 10 { (0x30 + v) as u8 } else { (0x61 + v - 10) as u8 }
}

/// A MAC address as text: two lowercase hexadecimal digits per byte, separated by colons.
pub open spec fn mac_text(mac: Seq<u8>) -> Seq<u8>
    decreases mac.len(),
{
    if mac.len() == 0 {
        Seq::empty()
    } else {
        let pair = seq![hex_char(mac[0] / 16), hex_char(mac[0] % 16)];
        if mac.len() == 1 {
            pair
        } else {
            pair + seq![0x3au8] + mac_text(mac.subrange(1, mac.len() as int))
        }
    }
}

/// Index of the first newline at or after `from`, or the length.
fn find_line_end(p: &[u8], from: usize) -> (end: usize)
    requires
        from <= p@.len(),
    ensures
        end == line_end(p@, from as int),
        from <= end <= p@.len(),
    decreases p@.len() - from,
{
    if from >= p.len() {
        p.len()
    } else if p[from] == 0x0a {
        from
    } else {
        find_line_end(p, from + 1)
    }
}

/// The line starting at `from`, as in `line_at`.
fn line_bytes(p: &[u8], from: usize) -> (line: Vec<u8>)
    requires
        from <= p@.len(),
    ensures
        line@ == line_at(p@, from as int),
{
    let end = find_line_end(p, from);
    let stop = if end < p.len() && end > from && p[end - 1] == 0x0d { end - 1 } else { end };
    let mut line: Vec<u8> = Vec::new();
    let mut i: usize = from;
    while i < stop
        invariant
            from <= i <= stop,
            stop <= p@.len(),
            line@ == p@.subrange(from as int, i as int),
        decreases stop - i,
    {
        line.push(p[i]);
        i = i + 1;
    }
    line
}

/// The value of a hexadecimal digit.
fn hex_digit_of(b: u8) -> (d: Option<u8>)
    ensures
        d == hex_digit(b),
{
    if 0x30 <= b && b <= 0x39 {
        Some(b - 0x30)
    } else if 0x61 <= b && b <= 0x66 {
        Some(b - 0x61 + 10)
    } else if 0x41 <= b && b <= 0x46 {
        Some(b - 0x41 + 10)
    } else {
        None
    }
}

proof fn lemma_hex_value_grows(digits: Seq<u8>, i: int)
    requires
        0 <= i <= digits.len(),
        hex_value(digits) is Some,
    ensures
        hex_value(digits.subrange(0, i)) is Some,
        hex_value(digits.subrange(0, i))->Some_0 <= hex_value(digits)->Some_0,
        hex_value(digits)->Some_0 >= 0,
    decreases digits.len(),
{
    if digits.len() > 0 {
        lemma_hex_value_grows(digits.drop_last(), if i < digits.len() { i } else { digits.len() - 1 });
        if i == digits.len() {
            assert(digits.subrange(0, i) =~= digits);
        } else {
            assert(digits.drop_last().subrange(0, i) =~= digits.subrange(0, i));
        }
    }
}

/// `u8::from_str_radix(text, 16)`, on the bytes of the text.
fn parse_hex_byte(text: &[u8], start: usize, end: usize) -> (b: Option<u8>)
    requires
        start <= end <= text@.len(),
    ensures
        b == hex_byte(text@.subrange(start as int, end as int)),
{
    let ghost field = text@.subrange(start as int, end as int);
    let first = if start < end && text[start] == 0x2b { start + 1 } else { start };
    let ghost digits = text@.subrange(first as int, end as int);
    assert(digits =~= (if field.len() > 0 && field[0] == 0x2b { field.subrange(1, field.len() as int) } else { field }));
    if first == end {
        return None;
    }
    let mut value: u32 = 0;
    let mut i: usize = first;
    while i < end
        invariant
            first <= i <= end,
            first < end,
            end <= text@.len(),
            digits == text@.subrange(first as int, end as int),
            field == text@.subrange(start as int, end as int),
            digits == (if field.len() > 0 && field[0] == 0x2b { field.subrange(1, field.len() as int) } else { field }),
            hex_value(text@.subrange(first as int, i as int)) == Some(value as int),
            value < 256,
        decreases end - i,
    {
        let ghost prefix = text@.subrange(first as int, i + 1);
        assert(prefix.drop_last() =~= text@.subrange(first as int, i as int));
        assert(prefix.last() == text@[i as int]);
        match hex_digit_of(text[i]) {
            None => {
                proof {
                    assert(hex_value(prefix) is None);
                    if hex_value(digits) is Some {
                        lemma_hex_value_grows(digits, i + 1 - first);
                        assert(digits.subrange(0, i + 1 - first) =~= prefix);
                    }
                }
                return None;
            },
            Some(d) => {
                let next = value * 16 + d as u32;
                if next >= 256 {
                    proof {
                        if hex_value(digits) is Some {
                            lemma_hex_value_grows(digits, i + 1 - first);
                            assert(digits.subrange(0, i + 1 - first) =~= prefix);
                        }
                    }
                    return None;
                }
                value = next;
            },
        }
        i = i + 1;
    }
    assert(text@.subrange(first as int, i as int) =~= digits);
    Some(value as u8)
}

/// The hexadecimal bytes of the dash-separated fields of `text`, as in `mac_bytes_from`.
fn mac_bytes(text: &[u8]) -> (out: Vec<u8>)
    ensures
        out@ == mac_bytes_from(text@, 0, 0),
{
    let mut out: Vec<u8> = Vec::new();
    let mut start: usize = 0;
    let mut i: usize = 0;
    while i < text.len()
        invariant
            start <= i <= text@.len(),
            out@ + mac_bytes_from(text@, start as int, i as int) == mac_bytes_from(text@, 0, 0),
        decreases text@.len() - i,
    {
        if text[i] == 0x2d {
            let field = parse_hex_byte(text, start, i);
            let ghost before = out@;
            match field {
                Some(b) => {
                    out.push(b);
                    assert(before + (seq![b] + mac_bytes_from(text@, i + 1, i + 1)) =~= out@ + mac_bytes_from(text@, i + 1, i + 1));
                },
                None => {},
            }
            start = i + 1;
        }
        i = i + 1;
    }
    let last = parse_hex_byte(text, start, text.len());
    let ghost before = out@;
    match last {
        Some(b) => {
            out.push(b);
            assert(before + seq![b] =~= out@);
        },
        None => {
            assert(before + Seq::<u8>::empty() =~= out@);
        },
    }
    out
}

/// Reads a discovery answer: the host name (the first line) and the bytes of the dash-
/// separated MAC fields that are hexadecimal bytes (the second line); the caller checks
/// that there are six.
pub fn parse_discovery_packet(packet: &[u8]) -> (result: Result<(String, Vec<u8>), DiscoveryError>)
    ensures
        packet@.len() == 0 ==> result == Err::<(String, Vec<u8>), DiscoveryError>(DiscoveryError::MissingHostname),
        packet@.len() > 0 ==> {
            let name = line_at(packet@, 0);
            let first_end = line_end(packet@, 0);
            let has_mac = first_end + 1 < packet@.len();
            let mac_line = line_at(packet@, first_end + 1);
            let name_ok = exists|chars: Seq<char>| #[trigger] encode_utf8(chars) == name;
            let mac_ok = exists|chars: Seq<char>| #[trigger] encode_utf8(chars) == mac_line;
            &&& !name_ok ==> result == Err::<(String, Vec<u8>), DiscoveryError>(DiscoveryError::InvalidUtf8)
            &&& name_ok && !has_mac ==> result == Err::<(String, Vec<u8>), DiscoveryError>(DiscoveryError::MissingMac)
            &&& name_ok && has_mac && !mac_ok ==> result == Err::<(String, Vec<u8>), DiscoveryError>(DiscoveryError::InvalidUtf8)
            &&& name_ok && has_mac && mac_ok ==> (result matches Ok((n, mac)) && encode_utf8(n@) == name
                && mac@ == mac_bytes_from(mac_line, 0, 0))
        },
{
    if packet.len() == 0 {
        return Err(DiscoveryError::MissingHostname);
    }
    let name_bytes = line_bytes(packet, 0);
    let name = match string_from_utf8(name_bytes) {
        Some(n) => n,
        None => {
            return Err(DiscoveryError::InvalidUtf8);
        },
    };
    let first_end = find_line_end(packet, 0);
    if first_end >= packet.len() - 1 {
        return Err(DiscoveryError::MissingMac);
    }
    let mac_line = line_bytes(packet, first_end + 1);
    let mac = mac_bytes(mac_line.as_slice());
    match string_from_utf8(mac_line) {
        Some(_) => {},
        None => {
            return Err(DiscoveryError::InvalidUtf8);
        },
    }
    Ok((name, mac))
}

/// A MAC address as text, as in `mac_text`.
pub fn format_mac(mac: &[u8; 6]) -> (s: String)
    ensures
        encode_utf8(s@) == mac_text(mac@),
{
    let mut bytes: Vec<u8> = Vec::new();
    let mut i: usize = 6;
    let ghost mut rest: Seq<u8> = Seq::empty();
    while i > 0
        invariant
            i <= 6,
            rest == mac@.subrange(i as int, 6),
            bytes@ == mac_text(rest),
            all_ascii(bytes@),
        decreases i,
    {
        i = i - 1;
        let b = mac[i];
        let hi = b / 16;
        let lo = b % 16;
        let hi_char = if hi < 10 { 0x30 + hi } else { 0x61 + hi - 10 };
        let lo_char = if lo < 10 { 0x30 + lo } else { 0x61 + lo - 10 };
        let mut next: Vec<u8> = Vec::new();
        next.push(hi_char);
        next.push(lo_char);
        if i < 5 {
            next.push(0x3a);
        }
        let ghost old_bytes = bytes@;
        next.append(&mut bytes);
        bytes = next;
        proof {
            let new_rest = mac@.subrange(i as int, 6);
            assert(new_rest.subrange(1, new_rest.len() as int) =~= rest);
            assert(new_rest[0] == b);
            rest = new_rest;
            if i < 5 {
                assert(bytes@ =~= seq![hex_char(b / 16), hex_char(b % 16)] + seq![0x3au8] + old_bytes);
            } else {
                assert(rest.len() == 1);
                assert(old_bytes == mac_text(Seq::<u8>::empty()));
                assert(bytes@ =~= seq![hex_char(b / 16), hex_char(b % 16)]);
            }
        }
    }
    assert(rest =~= mac@);
    ascii_string(bytes)
}

} // verus!
