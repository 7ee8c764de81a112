//! Byte-at-a-time decoder for framed messages: `0x7e`, message bytes, CRC-8, `0x7e`.

use vstd::prelude::*;
use crate::messages::channel::{is_canonical, Channel};
use crate::messages::checksum::{checksum, crc8};
use crate::messages::message::{lemma_message_bytes_roundtrip, message_bytes, parse_message_bytes, Message};
use crate::messages::frame_encoder::frame_bytes;
use crate::messages::ring_buffer::{ring_push, ByteRingBuffer};

verus! {

/// Capacity of the history of bytes received while the stream is lost.
pub const ERROR_BUF_SIZE: usize = 128;

/// Byte that opens a frame.
pub const START_OF_MESSAGE: u8 = 0x7e;

/// Byte that closes a frame.
pub const END_OF_MESSAGE: u8 = 0x7e;

/// Where the decoder stands within a frame.
#[derive(Debug, PartialEq, Eq, Structural, Clone, Copy)]
pub enum DecoderState {
    Ready,
    GotStart,
    GotLength,
    GotMessage,
    GotCrc,
    LostPlace,
    LostPlaceGotEnd,
}

/// Everything that determines a decoder's behaviour, as plain values.
#[verifier::ext_equal]
pub struct DecoderView {
    pub state: DecoderState,
    pub expected: Option<usize>,
    pub current: Seq<u8>,
    pub errors: usize,
    pub lost: Seq<u8>,
    pub lost_dropped: usize,
}

pub open spec fn is_error_state(s: DecoderState) -> bool {
    s == DecoderState::LostPlace || s == DecoderState::LostPlaceGotEnd
}

/// State change, with its bookkeeping: entering an error state counts one more broken
/// frame and drops the partial message; leaving the error states forgets the lost bytes.
pub open spec fn decoder_move_to(v: DecoderView, new_state: DecoderState) -> DecoderView {
    if v.state == new_state {
        v
    } else if is_error_state(new_state) && !is_error_state(v.state) {
        DecoderView {
            state: new_state,
            errors: (v.errors + 1) as usize,
            expected: None,
            current: Seq::empty(),
            ..v
        }
    } else if !is_error_state(new_state) && is_error_state(v.state) {
        DecoderView { state: new_state, lost: Seq::empty(), lost_dropped: 0, ..v }
    } else {
        DecoderView { state: new_state, ..v }
    }
}

/// How one byte moves the decoder along a frame: whether the byte fits where the decoder
/// stands, and the decoder afterwards.
pub open spec fn decoder_handle_byte(v: DecoderView, byte: u8) -> (bool, DecoderView) {
    match v.state {
        DecoderState::Ready => {
            if byte == START_OF_MESSAGE {
                (true, decoder_move_to(v, DecoderState::GotStart))
            } else {
                (false, v)
            }
        },
        DecoderState::GotStart => {
            if 5 <= byte < START_OF_MESSAGE {
                let v1 = DecoderView {
                    expected: Some((byte - 2) as usize),
                    current: v.current.push(byte),
                    ..v
                };
                (true, decoder_move_to(v1, DecoderState::GotLength))
            } else {
                (false, v)
            }
        },
        DecoderState::GotLength => {
            let k = v.expected->Some_0;
            if k == 0 {
                (false, v)
            } else {
                let v1 = DecoderView {
                    expected: Some((k - 1) as usize),
                    current: v.current.push(byte),
                    ..v
                };
                if k == 1 {
                    (true, decoder_move_to(v1, DecoderState::GotMessage))
                } else {
                    (true, v1)
                }
            }
        },
        DecoderState::GotMessage => {
            if byte == crc8(v.current) {
                (true, decoder_move_to(v, DecoderState::GotCrc))
            } else {
                (false, v)
            }
        },
        DecoderState::GotCrc => {
            if byte == END_OF_MESSAGE {
                (true, decoder_move_to(v, DecoderState::Ready))
            } else {
                (false, v)
            }
        },
        DecoderState::LostPlace => {
            if byte == END_OF_MESSAGE {
                (true, decoder_move_to(v, DecoderState::LostPlaceGotEnd))
            } else {
                (false, v)
            }
        },
        DecoderState::LostPlaceGotEnd => {
            if byte == START_OF_MESSAGE {
                (true, decoder_move_to(v, DecoderState::GotStart))
            } else {
                (false, v)
            }
        },
    }
}

/// While the stream is lost, every byte received goes into the lost-bytes history.
pub open spec fn decoder_record_lost(v: DecoderView, byte: u8) -> DecoderView {
    if is_error_state(v.state) {
        DecoderView {
            lost: ring_push(v.lost, ERROR_BUF_SIZE as nat, byte),
            lost_dropped: if v.lost.len() == ERROR_BUF_SIZE {
                (v.lost_dropped + 1) as usize
            } else {
                v.lost_dropped
            },
            ..v
        }
    } else {
        v
    }
}

/// The effect of `FrameDecoder::accept`: the decoder afterwards, and the channel, type and
/// payload of the message that the byte completes, if it completes one.
pub open spec fn decoder_accept(v: DecoderView, byte: u8) -> (
    DecoderView,
    Option<(Channel, u8, Seq<u8>)>,
) {
    let (ok, v1) = decoder_handle_byte(v, byte);
    if ok {
        if v1.state == DecoderState::Ready {
            let v2 = DecoderView { current: Seq::empty(), ..v1 };
            match parse_message_bytes(v1.current) {
                Ok(parts) => (v2, Some(parts)),
                Err(_) => (
                    decoder_record_lost(decoder_move_to(v2, DecoderState::LostPlace), byte),
                    None,
                ),
            }
        } else {
            (decoder_record_lost(v1, byte), None)
        }
    } else {
        (decoder_record_lost(decoder_move_to(v1, DecoderState::LostPlace), byte), None)
    }
}

/// A decoder can take one more byte without an error counter overflowing.
pub open spec fn decoder_can_accept(v: DecoderView) -> bool {
    v.errors < usize::MAX && v.lost_dropped < usize::MAX
}

/// Feeding a decoder bytes until one completes a message: the decoder afterwards and that
/// message, if any byte completed one; the bytes after it are not fed.
pub open spec fn decoder_scan(v: DecoderView, bytes: Seq<u8>) -> (DecoderView, Option<(Channel, u8, Seq<u8>)>)
    decreases bytes.len(),
{
    if bytes.len() == 0 {
        (v, None)
    } else {
        let (v1, r) = decoder_accept(v, bytes[0]);
        if r is Some {
            (v1, r)
        } else {
            decoder_scan(v1, bytes.subrange(1, bytes.len() as int))
        }
    }
}

/// Feeding a decoder a sequence of bytes, one `accept` after the other: the decoder
/// afterwards and the messages completed on the way, in order.
pub open spec fn decoder_feed(v: DecoderView, bytes: Seq<u8>) -> (
    DecoderView,
    Seq<(Channel, u8, Seq<u8>)>,
)
    decreases bytes.len(),
{
    if bytes.len() == 0 {
        (v, Seq::empty())
    } else {
        let (v1, r) = decoder_accept(v, bytes[0]);
        let (v2, rest) = decoder_feed(v1, bytes.subrange(1, bytes.len() as int));
        (
            v2,
            match r {
                Some(p) => seq![p] + rest,
                None => rest,
            },
        )
    }
}

/// Feeding `a + b` is feeding `a`, then feeding `b` to the decoder that results.
pub proof fn lemma_decoder_feed_concat(v: DecoderView, a: Seq<u8>, b: Seq<u8>)
    ensures
        decoder_feed(v, a + b) == ({
            let (v1, r1) = decoder_feed(v, a);
            let (v2, r2) = decoder_feed(v1, b);
            (v2, r1 + r2)
        }),
    decreases a.len(),
{
    if a.len() == 0 {
        assert(a + b =~= b);
        assert(Seq::<(Channel, u8, Seq<u8>)>::empty() + decoder_feed(v, b).1 =~= decoder_feed(v, b).1);
    } else {
        let (v1, r) = decoder_accept(v, a[0]);
        let a1 = a.subrange(1, a.len() as int);
        assert((a + b).subrange(1, (a + b).len() as int) =~= a1 + b);
        lemma_decoder_feed_concat(v1, a1, b);
        let (w1, q1) = decoder_feed(v1, a1);
        let (w2, q2) = decoder_feed(w1, b);
        match r {
            Some(p) => {
                assert(seq![p] + (q1 + q2) =~= (seq![p] + q1) + q2);
            },
            None => {},
        }
    }
}

/// Reading the remaining message bytes of a frame: the decoder collects them and then
/// waits for the checksum.
proof fn lemma_decoder_feed_body(v: DecoderView, s: Seq<u8>)
    requires
        v.state == DecoderState::GotLength,
        v.expected == Some(s.len() as usize),
        1 <= s.len() <= usize::MAX,
    ensures
        decoder_feed(v, s) == (
            DecoderView {
                state: DecoderState::GotMessage,
                expected: Some(0usize),
                current: v.current + s,
                ..v
            },
            Seq::<(Channel, u8, Seq<u8>)>::empty(),
        ),
    decreases s.len(),
{
    let (v1, r) = decoder_accept(v, s[0]);
    let s1 = s.subrange(1, s.len() as int);
    if s.len() == 1 {
        assert(v.current.push(s[0]) =~= v.current + s);
        assert(s1.len() == 0);
        assert(decoder_feed(v1, s1) == (v1, Seq::<(Channel, u8, Seq<u8>)>::empty()));
        assert(v1 =~= DecoderView {
            state: DecoderState::GotMessage,
            expected: Some(0usize),
            current: v.current + s,
            ..v
        });
    } else {
        assert(v1.current =~= v.current.push(s[0]));
        lemma_decoder_feed_body(v1, s1);
        assert(v.current.push(s[0]) + s1 =~= v.current + s);
    }
}

/// Reading part of the remaining message bytes of a frame: the decoder collects them, no
/// message is completed, and it waits for the checksum once all expected bytes are in.
proof fn lemma_decoder_feed_part(v: DecoderView, s: Seq<u8>, e: usize)
    requires
        v.state == DecoderState::GotLength,
        v.expected == Some(e),
        1 <= s.len() <= e,
    ensures
        decoder_feed(v, s) == (
            DecoderView {
                state: if s.len() == e { DecoderState::GotMessage } else { DecoderState::GotLength },
                expected: Some((e - s.len()) as usize),
                current: v.current + s,
                ..v
            },
            Seq::<(Channel, u8, Seq<u8>)>::empty(),
        ),
    decreases s.len(),
{
    let (v1, r) = decoder_accept(v, s[0]);
    let s1 = s.subrange(1, s.len() as int);
    if s.len() == 1 {
        assert(v.current.push(s[0]) =~= v.current + s);
        assert(decoder_feed(v1, s1) == (v1, Seq::<(Channel, u8, Seq<u8>)>::empty()));
        assert(v1 =~= DecoderView {
            state: if s.len() == e { DecoderState::GotMessage } else { DecoderState::GotLength },
            expected: Some((e - s.len()) as usize),
            current: v.current + s,
            ..v
        });
    } else {
        assert(v1.current =~= v.current.push(s[0]));
        assert(v1.state == DecoderState::GotLength);
        lemma_decoder_feed_part(v1, s1, (e - 1) as usize);
        assert(v.current.push(s[0]) + s1 =~= v.current + s);
    }
}

/// Fed the frame of a message one byte at a time, a decoder that stands ready completes
/// no message before the frame's last byte and never enters an error state on the way, and
/// its error count stays as it was; the last byte completes the message (see
/// `lemma_decode_encoded_frame`). Stated for payloads of at most 120 bytes and canonical
/// channels.
pub proof fn lemma_decode_frame_bytewise(
    v: DecoderView,
    channel: Channel,
    message_type: u8,
    payload: Seq<u8>,
    i: int,
)
    requires
        v.state == DecoderState::Ready,
        v.current == Seq::<u8>::empty(),
        payload.len() + 5 < START_OF_MESSAGE,
        is_canonical(channel),
        0 <= i < frame_bytes(message_bytes(channel, message_type, payload)).len() - 1,
    ensures
        ({
            let (w, out) = decoder_feed(v, frame_bytes(message_bytes(channel, message_type, payload)).subrange(0, i + 1));
            &&& out == Seq::<(Channel, u8, Seq<u8>)>::empty()
            &&& !is_error_state(w.state)
            &&& w.errors == v.errors
        }),
{
    let mb = message_bytes(channel, message_type, payload);
    let f = frame_bytes(mb);
    let len_byte = mb[0];
    let body = mb.subrange(1, mb.len() as int);
    let crc = crc8(mb);
    let head = seq![START_OF_MESSAGE, len_byte];
    assert(f =~= head + body + seq![crc, END_OF_MESSAGE]);
    let (a1, _) = decoder_accept(v, START_OF_MESSAGE);
    let (a2, _) = decoder_accept(a1, len_byte);
    reveal_with_fuel(decoder_feed, 3);
    assert(head.subrange(1, 2) =~= seq![len_byte]);
    assert(seq![len_byte].subrange(1, 1) =~= Seq::<u8>::empty());
    assert(decoder_feed(v, head).0 == a2);
    assert(decoder_feed(v, head).1 =~= Seq::<(Channel, u8, Seq<u8>)>::empty());
    assert(a2.state == DecoderState::GotLength);
    assert(a2.expected == Some(body.len() as usize));
    let empty = Seq::<(Channel, u8, Seq<u8>)>::empty();
    if i == 0 {
        assert(f.subrange(0, 1) =~= seq![START_OF_MESSAGE]);
        assert(seq![START_OF_MESSAGE].subrange(1, 1) =~= Seq::<u8>::empty());
        assert(decoder_feed(v, seq![START_OF_MESSAGE]).1 =~= empty);
    } else if i == 1 {
        assert(f.subrange(0, 2) =~= head);
    } else if i <= mb.len() {
        let part = body.subrange(0, i - 1);
        assert(f.subrange(0, i + 1) =~= head + part);
        lemma_decoder_feed_concat(v, head, part);
        lemma_decoder_feed_part(a2, part, body.len() as usize);
        assert(empty + empty =~= empty);
    } else {
        assert(i == mb.len() + 1);
        assert(f.subrange(0, i + 1) =~= (head + body) + seq![crc]);
        lemma_decoder_feed_concat(v, head + body, seq![crc]);
        lemma_decoder_feed_concat(v, head, body);
        lemma_decoder_feed_part(a2, body, body.len() as usize);
        assert(body.subrange(0, body.len() as int) =~= body);
        let a3 = decoder_feed(a2, body).0;
        assert(seq![len_byte] + body =~= mb);
        assert(a3.current == mb);
        assert(seq![crc].subrange(1, 1) =~= Seq::<u8>::empty());
        assert(decoder_feed(a3, seq![crc]).1 =~= empty);
        assert(empty + empty =~= empty);
    }
}

/// A decoder that stands ready between frames decodes the frame of a message back into
/// that message's channel, type and payload, and stands ready again, for every payload of
/// at most 120 bytes (the decoder refuses longer frames) and every canonical channel.
pub proof fn lemma_decode_encoded_frame(
    v: DecoderView,
    channel: Channel,
    message_type: u8,
    payload: Seq<u8>,
)
    requires
        v.state == DecoderState::Ready,
        v.current == Seq::<u8>::empty(),
        payload.len() + 5 < START_OF_MESSAGE,
        is_canonical(channel),
    ensures
        decoder_feed(v, frame_bytes(message_bytes(channel, message_type, payload))) == (
            DecoderView {
                state: DecoderState::Ready,
                expected: Some(0usize),
                current: Seq::<u8>::empty(),
                ..v
            },
            seq![(channel, message_type, payload)],
        ),
{
    let mb = message_bytes(channel, message_type, payload);
    let len_byte = mb[0];
    let body = mb.subrange(1, mb.len() as int);
    let crc = crc8(mb);
    assert(frame_bytes(mb) =~= seq![START_OF_MESSAGE, len_byte] + body + seq![crc, END_OF_MESSAGE]);
    lemma_decoder_feed_concat(v, seq![START_OF_MESSAGE, len_byte] + body, seq![crc, END_OF_MESSAGE]);
    lemma_decoder_feed_concat(v, seq![START_OF_MESSAGE, len_byte], body);
    // start byte and length byte
    let (a1, _) = decoder_accept(v, START_OF_MESSAGE);
    let (a2, _) = decoder_accept(a1, len_byte);
    reveal_with_fuel(decoder_feed, 3);
    assert(seq![START_OF_MESSAGE, len_byte].subrange(1, 2) =~= seq![len_byte]);
    assert(seq![len_byte].subrange(1, 1) =~= Seq::<u8>::empty());
    assert(decoder_feed(v, seq![START_OF_MESSAGE, len_byte]).0 == a2);
    assert(decoder_feed(v, seq![START_OF_MESSAGE, len_byte]).1 =~= Seq::<(Channel, u8, Seq<u8>)>::empty());
    assert(a2.state == DecoderState::GotLength);
    assert(a2.current =~= seq![len_byte]);
    // message body
    lemma_decoder_feed_body(a2, body);
    let a3 = decoder_feed(a2, body).0;
    assert(seq![len_byte] + body =~= mb);
    assert(a3.current == mb);
    // checksum and end byte
    let (a4, _) = decoder_accept(a3, crc);
    let (a5, r5) = decoder_accept(a4, END_OF_MESSAGE);
    lemma_message_bytes_roundtrip(channel, message_type, payload);
    assert(r5 == Some((channel, message_type, payload)));
    assert(seq![crc, END_OF_MESSAGE].subrange(1, 2) =~= seq![END_OF_MESSAGE]);
    assert(seq![END_OF_MESSAGE].subrange(1, 1) =~= Seq::<u8>::empty());
    assert(decoder_feed(a3, seq![crc, END_OF_MESSAGE]).1 =~= seq![(channel, message_type, payload)]);
    assert(Seq::<(Channel, u8, Seq<u8>)>::empty() + Seq::<(Channel, u8, Seq<u8>)>::empty()
        + seq![(channel, message_type, payload)] =~= seq![(channel, message_type, payload)]);
}

/// Decodes framed messages from a byte stream, and recovers from corrupted frames by
/// waiting for the next frame boundary.
#[derive(Debug)]
pub struct FrameDecoder {
    state: DecoderState,
    num_bytes_expected: Option<usize>,
    current_message: Vec<u8>,
    frames_with_errors: usize,
    latest_lost_bytes: ByteRingBuffer,
}

impl View for FrameDecoder {
    type V = DecoderView;

    closed spec fn view(&self) -> DecoderView {
        DecoderView {
            state: self.state,
            expected: self.num_bytes_expected,
            current: self.current_message@,
            errors: self.frames_with_errors,
            lost: self.latest_lost_bytes@,
            lost_dropped: self.latest_lost_bytes.dropped_count(),
        }
    }
}

impl FrameDecoder {
    /// Internal consistency: a length is expected while reading the message bytes, and the
    /// lost-bytes history has its fixed capacity.
    pub closed spec fn wf(&self) -> bool {
        &&& self.state == DecoderState::GotLength ==> self.num_bytes_expected is Some
        &&& self.latest_lost_bytes.max_size() == ERROR_BUF_SIZE
        &&& self.latest_lost_bytes@.len() <= ERROR_BUF_SIZE
    }

    pub fn new() -> (d: Self)
        ensures
            d.wf(),
            d@.state == DecoderState::Ready,
            d@.expected is None,
            d@.current == Seq::<u8>::empty(),
            d@.errors == 0,
            d@.lost == Seq::<u8>::empty(),
            d@.lost_dropped == 0,
    {
        Self {
            state: DecoderState::Ready,
            num_bytes_expected: None,
            current_message: Vec::new(),
            frames_with_errors: 0,
            latest_lost_bytes: ByteRingBuffer::with_max_size(ERROR_BUF_SIZE),
        }
    }

    /// Feeds one byte; returns the message that this byte completes, if any.
    pub fn accept(&mut self, byte: u8) -> (result: Option<Message>)
        requires
            old(self).wf(),
            decoder_can_accept(old(self)@),
        ensures
            final(self).wf(),
            final(self)@ == decoder_accept(old(self)@, byte).0,
            match result {
                Some(m) => decoder_accept(old(self)@, byte).1 == Some(m.parts()),
                None => decoder_accept(old(self)@, byte).1 is None,
            },
    {
        if self.handle_byte(byte) {
            if self.state == DecoderState::Ready {
                let message = Message::from_bytes(self.current_message.as_slice());
                self.current_message = Vec::new();
                match message {
                    Ok(message) => {
                        return Some(message);
                    },
                    Err(_) => {
                        self.move_to_state(DecoderState::LostPlace);
                    },
                }
            }
        } else {
            self.move_to_state(DecoderState::LostPlace);
        }
        if self.is_in_error() {
            self.latest_lost_bytes.push(byte);
        }
        None
    }

    fn handle_byte(&mut self, byte: u8) -> (ok: bool)
        requires
            old(self).wf(),
            decoder_can_accept(old(self)@),
        ensures
            final(self).wf(),
            (ok, final(self)@) == decoder_handle_byte(old(self)@, byte),
            final(self)@.errors == old(self)@.errors,
            final(self)@.lost_dropped <= old(self)@.lost_dropped,
    {
        match self.state {
            DecoderState::Ready => {
                if byte == START_OF_MESSAGE {
                    self.move_to_state(DecoderState::GotStart);
                    true
                } else {
                    false
                }
            },
            DecoderState::GotStart => {
                if 5 <= byte && byte < START_OF_MESSAGE {
                    self.num_bytes_expected = Some((byte - 2) as usize);
                    self.current_message.push(byte);
                    self.move_to_state(DecoderState::GotLength);
                    true
                } else {
                    false
                }
            },
            DecoderState::GotLength => {
                let expected = match self.num_bytes_expected {
                    Some(k) => k,
                    None => 0,
                };
                if expected == 0 {
                    false
                } else {
                    self.current_message.push(byte);
                    self.num_bytes_expected = Some(expected - 1);
                    if expected - 1 == 0 {
                        self.move_to_state(DecoderState::GotMessage);
                    }
                    true
                }
            },
            DecoderState::GotMessage => {
                let computed_crc = checksum(self.current_message.as_slice());
                if byte == computed_crc {
                    self.move_to_state(DecoderState::GotCrc);
                    true
                } else {
                    false
                }
            },
            DecoderState::GotCrc => {
                if byte == END_OF_MESSAGE {
                    self.move_to_state(DecoderState::Ready);
                    true
                } else {
                    false
                }
            },
            DecoderState::LostPlace => {
                if byte == END_OF_MESSAGE {
                    self.move_to_state(DecoderState::LostPlaceGotEnd);
                    true
                } else {
                    false
                }
            },
            DecoderState::LostPlaceGotEnd => {
                if byte == START_OF_MESSAGE {
                    self.move_to_state(DecoderState::GotStart);
                    true
                } else {
                    false
                }
            },
        }
    }

    fn move_to_state(&mut self, new_state: DecoderState) -> (moved: bool)
        requires
            old(self).wf() || (new_state != DecoderState::GotLength && old(self).latest_lost_bytes.max_size() == ERROR_BUF_SIZE && old(self).latest_lost_bytes@.len() <= ERROR_BUF_SIZE),
            new_state == DecoderState::GotLength ==> old(self).num_bytes_expected is Some,
            is_error_state(new_state) && !is_error_state(old(self).state) ==> old(self).frames_with_errors < usize::MAX,
        ensures
            final(self).wf(),
            final(self)@ == decoder_move_to(old(self)@, new_state),
            moved == (old(self).state != new_state),
    {
        let old_state = self.state;
        if old_state != new_state {
            let was_in_error = self.is_in_error();
            self.state = new_state;
            let is_in_error = self.is_in_error();
            if is_in_error != was_in_error {
                if is_in_error {
                    self.frames_with_errors = self.frames_with_errors + 1;
                    self.num_bytes_expected = None;
                    self.current_message = Vec::new();
                } else if was_in_error {
                    self.latest_lost_bytes.clear();
                }
            }
            return true;
        }
        false
    }

    /// Number of times the decoder lost its place in the stream.
    pub fn frames_with_errors(&self) -> (n: usize)
        ensures
            n == self@.errors,
    {
        self.frames_with_errors
    }

    /// Whether the decoder is waiting for a frame boundary after a corrupted frame.
    pub fn is_in_error(&self) -> (b: bool)
        ensures
            b == is_error_state(self@.state),
    {
        matches!(self.state, DecoderState::LostPlace | DecoderState::LostPlaceGotEnd)
    }

    /// Whether the error and lost-byte counters leave room for a chunk of `len` bytes.
    pub fn can_take(&self, len: usize) -> (b: bool)
        ensures
            b == (self@.errors + len < usize::MAX && self@.lost_dropped + len < usize::MAX),
    {
        let dropped = self.latest_lost_bytes.dropped();
        len < usize::MAX - self.frames_with_errors && len < usize::MAX - dropped
    }

    /// Feeds the bytes of `chunk` until one completes a message, and returns that message;
    /// the bytes after it are dropped.
    pub fn accept_until_message(&mut self, chunk: &[u8]) -> (result: Option<Message>)
        requires
            old(self).wf(),
            old(self)@.errors + chunk.len() < usize::MAX,
            old(self)@.lost_dropped + chunk.len() < usize::MAX,
        ensures
            final(self).wf(),
            final(self)@ == decoder_scan(old(self)@, chunk@).0,
            match result {
                Some(m) => decoder_scan(old(self)@, chunk@).1 == Some(m.parts()),
                None => decoder_scan(old(self)@, chunk@).1 is None,
            },
    {
        let mut i: usize = 0;
        proof {
            assert(chunk@.subrange(0, chunk.len() as int) =~= chunk@);
        }
        while i < chunk.len()
            invariant
                self.wf(),
                i <= chunk.len(),
                self@.errors + (chunk.len() - i) < usize::MAX,
                self@.lost_dropped + (chunk.len() - i) < usize::MAX,
                decoder_scan(old(self)@, chunk@) == decoder_scan(self@, chunk@.subrange(i as int, chunk.len() as int)),
            decreases chunk.len() - i,
        {
            let result = self.accept(chunk[i]);
            proof {
                let rest = chunk@.subrange(i as int, chunk.len() as int);
                assert(rest[0] == chunk@[i as int]);
                assert(rest.subrange(1, rest.len() as int) =~= chunk@.subrange(i + 1, chunk.len() as int));
            }
            if result.is_some() {
                return result;
            }
            i = i + 1;
        }
        None
    }

    /// Where the decoder stands within a frame.
    pub fn state(&self) -> (s: DecoderState)
        ensures
            s == self@.state,
    {
        self.state
    }

    /// The bytes received since the stream was last lost (at most the last 128).
    pub fn latest_lost_bytes(&self) -> (b: &ByteRingBuffer)
        ensures
            b@ == self@.lost,
    {
        &self.latest_lost_bytes
    }
}

} // verus!
