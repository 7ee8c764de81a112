//! Bounded byte history that keeps only the most recent bytes.

use std::collections::VecDeque;
use std::collections::vec_deque::Iter;
use vstd::prelude::*;
use vstd::std_specs::iter::IteratorSpec;
use vstd::utf8::encode_utf8;
use crate::messages::text::{all_ascii, ascii_string, dec_digits, hex_bytes_text, push_decimal, push_hex2};

verus! {

broadcast use vstd::std_specs::vecdeque::group_vec_dequeue_axioms;

/// Keeps the last `max_size` bytes pushed, and counts the bytes that fell out.
#[derive(Debug)]
pub struct ByteRingBuffer {
    data: VecDeque<u8>,
    max_size: usize,
    dropped_count: usize,
}

impl View for ByteRingBuffer {
    type V = Seq<u8>;

    closed spec fn view(&self) -> Seq<u8> {
        self.data@
    }
}

/// The bytes that a buffer of capacity `max` holds after `held` had `byte` pushed: the
/// last `max` bytes of the whole sequence.
pub open spec fn ring_push(held: Seq<u8>, max: nat, byte: u8) -> Seq<u8> {
    let all = held.push(byte);
    if all.len() > max {
        all.subrange(all.len() - max, all.len() as int)
    } else {
        all
    }
}

impl ByteRingBuffer {
    #[verifier::type_invariant]
    spec fn inv(self) -> bool {
        self.data@.len() <= self.max_size
    }

    /// Capacity of the buffer.
    pub closed spec fn max_size(&self) -> usize {
        self.max_size
    }

    /// Number of bytes that were pushed out since the last `clear`.
    pub closed spec fn dropped_count(&self) -> usize {
        self.dropped_count
    }

    /// Number of bytes that were pushed out since the last `clear`.
    pub fn dropped(&self) -> (n: usize)
        ensures
            n == self.dropped_count(),
    {
        self.dropped_count
    }

    pub fn with_max_size(max_size: usize) -> (b: Self)
        ensures
            b@ == Seq::<u8>::empty(),
            b.max_size() == max_size,
            b.dropped_count() == 0,
    {
        Self { data: VecDeque::with_capacity(max_size), max_size, dropped_count: 0 }
    }

    pub fn clear(&mut self)
        ensures
            final(self)@ == Seq::<u8>::empty(),
            final(self).max_size() == old(self).max_size(),
            final(self).dropped_count() == 0,
    {
        proof {
            use_type_invariant(&*self);
        }
        self.dropped_count = 0;
        self.data = VecDeque::new();
    }

    /// Appends `byte`, dropping the oldest byte when the buffer is full.
    pub fn push(&mut self, byte: u8)
        requires
            old(self).max_size() > 0,
            old(self).dropped_count() < usize::MAX,
        ensures
            final(self)@ == ring_push(old(self)@, old(self).max_size() as nat, byte),
            final(self).max_size() == old(self).max_size(),
            final(self).dropped_count() == old(self).dropped_count() + (
            if old(self)@.len() == old(self).max_size() {
                1int
            } else {
                0int
            }),
            final(self)@.len() <= final(self).max_size(),
    {
        proof {
            use_type_invariant(&*self);
        }
        let ghost old_data = self.data@;
        let ghost old_dropped = self.dropped_count;
        let max_size = self.max_size;
        let mut data: VecDeque<u8> = VecDeque::new();
        std::mem::swap(&mut data, &mut self.data);
        let mut dropped = self.dropped_count;
        while data.len() >= max_size
            invariant
                max_size > 0,
                old_data.len() <= max_size,
                dropped <= old_dropped + 1,
                old_dropped < usize::MAX,
                data@.len() == old_data.len() ==> (data@ == old_data
                    && dropped == old_dropped),
                data@.len() < old_data.len() ==> (old_data.len() == max_size
                    && data@ == old_data.subrange(1, old_data.len() as int)
                    && dropped == old_dropped + 1),
                data@.len() + 1 >= old_data.len(),
                data@.len() <= old_data.len(),
            decreases data@.len(),
        {
            data.pop_front();
            dropped = dropped + 1;
        }
        data.push_back(byte);
        proof {
            let all = old_data.push(byte);
            if old_data.len() == max_size {
                assert(data@ =~= all.subrange(all.len() - max_size, all.len() as int));
            }
        }
        self.data = data;
        self.dropped_count = dropped;
    }

    /// Iterates over the held bytes, oldest first.
    pub fn iter(&self) -> (it: Iter<'_, u8>)
        ensures
            it.remaining() == self@.as_ref(),
    {
        self.data.iter()
    }

    /// The buffer as logs print it, as in `ring_debug_text`.
    pub fn debug_string(&self) -> (s: String)
        ensures
            encode_utf8(s@) == ring_debug_text(self.dropped_count() as nat, self@),
    {
        let mut out: Vec<u8> = Vec::new();
        if self.dropped_count > 0 {
            out.push(0x5b);
            out.push(0x6d);
            out.push(0x69);
            out.push(0x73);
            out.push(0x73);
            out.push(0x69);
            out.push(0x6e);
            out.push(0x67);
            out.push(0x20);
            push_decimal(&mut out, self.dropped_count);
            out.push(0x20);
            out.push(0x62);
            out.push(0x79);
            out.push(0x74);
            out.push(0x65);
            out.push(0x73);
            out.push(0x2e);
            out.push(0x2e);
            out.push(0x2e);
            out.push(0x5d);
            out.push(0x20);
        }
        let ghost head = out@;
        assert(head =~= missing_text(self.dropped_count as nat));
        let mut i: usize = 0;
        while i < self.data.len()
            invariant
                i <= self.data@.len(),
                out@ == head + hex_bytes_text(self.data@.subrange(0, i as int)),
                all_ascii(out@),
            decreases self.data@.len() - i,
        {
            push_hex2(&mut out, self.data[i] as usize);
            let ghost mid = out@;
            out.push(0x20);
            proof {
                let next = self.data@.subrange(0, i + 1);
                assert(next.drop_last() =~= self.data@.subrange(0, i as int));
                assert(out@ =~= head + hex_bytes_text(next));
                assert forall|k: int| 0 <= k < out@.len() implies #[trigger] out@[k] < 128 by {
                    if k < out@.len() - 1 {
                        assert(out@[k] == mid[k]);
                    }
                }
            }
            i = i + 1;
        }
        assert(self.data@.subrange(0, i as int) =~= self.data@);
        ascii_string(out)
    }
}

/// The note on bytes that fell out, when there are any: `[missing N bytes...] `.
pub open spec fn missing_text(dropped: nat) -> Seq<u8> {
    if dropped > 0 {
        seq![0x5bu8, 0x6d, 0x69, 0x73, 0x73, 0x69, 0x6e, 0x67, 0x20] + dec_digits(dropped)
            + seq![0x20u8, 0x62, 0x79, 0x74, 0x65, 0x73, 0x2e, 0x2e, 0x2e, 0x5d, 0x20]
    } else {
        Seq::empty()
    }
}

/// How a ring buffer is written in logs: the note on dropped bytes, then each held byte in
/// two-digit uppercase hexadecimal followed by a space.
pub open spec fn ring_debug_text(dropped: nat, held: Seq<u8>) -> Seq<u8> {
    missing_text(dropped) + hex_bytes_text(held)
}

} // verus!
