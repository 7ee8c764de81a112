//! The first framing implementation: a frame reader without a lost-bytes history, which
//! accepts length bytes up to 250 and resynchronises on the next start byte.

use vstd::prelude::*;
use crate::messages::channel::{is_canonical, Channel};
use crate::messages::checksum::{checksum, crc8};
use crate::messages::frame_decoder::{END_OF_MESSAGE, START_OF_MESSAGE};
use crate::messages::frame_encoder::{frame_bytes, wrap_frame};
use crate::messages::message::{
    lemma_message_bytes_roundtrip, message_bytes, parse_message_bytes, EncodeError, Message,
    MAX_PAYLOAD_LEN,
};

verus! {

/// Where the reader stands within a frame.
#[derive(Debug, PartialEq, Eq, Structural, Clone, Copy)]
pub enum ReaderState {
    Ready,
    GotStart,
    GotLength,
    GotMessage,
    GotCrc,
    LostPlace,
}

/// Everything that determines a reader's behaviour, as plain values.
#[verifier::ext_equal]
pub struct ReaderView {
    pub state: ReaderState,
    pub expected: Option<usize>,
    pub current: Seq<u8>,
    pub errors: usize,
}

/// State change: entering `LostPlace` counts one more broken frame and drops the partial
/// message.
pub open spec fn reader_move_to(v: ReaderView, new_state: ReaderState) -> ReaderView {
    if v.state == new_state {
        v
    } else if new_state == ReaderState::LostPlace {
        ReaderView {
            state: new_state,
            errors: (v.errors + 1) as usize,
            expected: None,
            current: Seq::empty(),
        }
    } else {
        ReaderView { state: new_state, ..v }
    }
}

/// Whether one byte fits where the reader stands, and the reader afterwards.
pub open spec fn reader_handle_byte(v: ReaderView, byte: u8) -> (bool, ReaderView) {
    match v.state {
        ReaderState::Ready => {
            if byte == START_OF_MESSAGE {
                (true, reader_move_to(v, ReaderState::GotStart))
            } else {
                (false, v)
            }
        },
        ReaderState::GotStart => {
            if 1 <= byte <= 250 {
                let v1 = ReaderView {
                    expected: Some((byte - 2) as usize),
                    current: v.current.push(byte),
                    ..v
                };
                (true, reader_move_to(v1, ReaderState::GotLength))
            } else {
                (false, v)
            }
        },
        ReaderState::GotLength => {
            let k = v.expected->Some_0;
            if k == 0 {
                (false, v)
            } else {
                let v1 = ReaderView {
                    expected: Some((k - 1) as usize),
                    current: v.current.push(byte),
                    ..v
                };
                if k == 1 {
                    (true, reader_move_to(v1, ReaderState::GotMessage))
                } else {
                    (true, v1)
                }
            }
        },
        ReaderState::GotMessage => {
            if byte == crc8(v.current) {
                (true, reader_move_to(v, ReaderState::GotCrc))
            } else {
                (false, v)
            }
        },
        ReaderState::GotCrc => {
            if byte == END_OF_MESSAGE {
                (true, reader_move_to(v, ReaderState::Ready))
            } else {
                (false, v)
            }
        },
        ReaderState::LostPlace => {
            if byte == START_OF_MESSAGE {
                (true, reader_move_to(v, ReaderState::GotStart))
            } else {
                (false, v)
            }
        },
    }
}

/// The effect of `FramedReader::accept`: the reader afterwards, and the channel, type and
/// payload of the message that the byte completes, if any.
pub open spec fn reader_accept(v: ReaderView, byte: u8) -> (ReaderView, Option<(Channel, u8, Seq<u8>)>) {
    let (ok, v1) = reader_handle_byte(v, byte);
    if ok {
        if v1.state == ReaderState::Ready {
            let v2 = ReaderView { current: Seq::empty(), ..v1 };
            match parse_message_bytes(v1.current) {
                Ok(parts) => (v2, Some(parts)),
                Err(_) => (reader_move_to(v2, ReaderState::LostPlace), None),
            }
        } else {
            (v1, None)
        }
    } else {
        (reader_move_to(v1, ReaderState::LostPlace), None)
    }
}

/// The inputs on which `accept` neither overflows the error counter (which can only grow
/// outside the lost state) nor underflows the expected length (a length byte of 1, which
/// the reader would take as -1 bytes to come).
pub open spec fn reader_can_accept(v: ReaderView, byte: u8) -> bool {
    &&& (v.state == ReaderState::LostPlace || v.errors < usize::MAX)
    &&& !(v.state == ReaderState::GotStart && byte == 1)
}

/// How one byte moves the error count, for every reader and byte: the count grows by one
/// exactly when the reader loses its place, coming from outside the lost state; while lost,
/// a byte counts nothing, and only a start byte leaves the lost state.
pub proof fn lemma_reader_error_state(v: ReaderView, byte: u8)
    requires
        reader_can_accept(v, byte),
    ensures
        ({
            let (w, out) = reader_accept(v, byte);
            &&& w.errors == v.errors || w.errors == v.errors + 1
            &&& w.errors == v.errors + 1 <==> (w.state == ReaderState::LostPlace && v.state != ReaderState::LostPlace)
            &&& w.errors == v.errors + 1 ==> out is None
            &&& v.state == ReaderState::LostPlace ==> {
                &&& w.errors == v.errors
                &&& out is None
                &&& w.state == (if byte == START_OF_MESSAGE { ReaderState::GotStart } else { ReaderState::LostPlace })
            }
        }),
{
}

/// Feeding a reader a sequence of bytes: the reader afterwards and the messages completed.
pub open spec fn reader_feed(v: ReaderView, bytes: Seq<u8>) -> (ReaderView, Seq<(Channel, u8, Seq<u8>)>)
    decreases bytes.len(),
{
    if bytes.len() == 0 {
        (v, Seq::empty())
    } else {
        let (v1, r) = reader_accept(v, bytes[0]);
        let (v2, rest) = reader_feed(v1, bytes.subrange(1, bytes.len() as int));
        (
            v2,
            match r {
                Some(p) => seq![p] + rest,
                None => rest,
            },
        )
    }
}

/// Feeding `a + b` is feeding `a`, then feeding `b` to the reader that results.
pub proof fn lemma_reader_feed_concat(v: ReaderView, a: Seq<u8>, b: Seq<u8>)
    ensures
        reader_feed(v, a + b) == ({
            let (v1, r1) = reader_feed(v, a);
            let (v2, r2) = reader_feed(v1, b);
            (v2, r1 + r2)
        }),
    decreases a.len(),
{
    if a.len() == 0 {
        assert(a + b =~= b);
        assert(Seq::<(Channel, u8, Seq<u8>)>::empty() + reader_feed(v, b).1 =~= reader_feed(v, b).1);
    } else {
        let (v1, r) = reader_accept(v, a[0]);
        let a1 = a.subrange(1, a.len() as int);
        assert((a + b).subrange(1, (a + b).len() as int) =~= a1 + b);
        lemma_reader_feed_concat(v1, a1, b);
        let (w1, q1) = reader_feed(v1, a1);
        let (w2, q2) = reader_feed(w1, b);
        match r {
            Some(p) => {
                assert(seq![p] + (q1 + q2) =~= (seq![p] + q1) + q2);
            },
            None => {},
        }
    }
}

proof fn lemma_reader_feed_body(v: ReaderView, s: Seq<u8>)
    requires
        v.state == ReaderState::GotLength,
        v.expected == Some(s.len() as usize),
        1 <= s.len() <= usize::MAX,
    ensures
        reader_feed(v, s) == (
            ReaderView {
                state: ReaderState::GotMessage,
                expected: Some(0usize),
                current: v.current + s,
                ..v
            },
            Seq::<(Channel, u8, Seq<u8>)>::empty(),
        ),
    decreases s.len(),
{
    let (v1, r) = reader_accept(v, s[0]);
    let s1 = s.subrange(1, s.len() as int);
    if s.len() == 1 {
        assert(v.current.push(s[0]) =~= v.current + s);
        assert(reader_feed(v1, s1) == (v1, Seq::<(Channel, u8, Seq<u8>)>::empty()));
        assert(v1 =~= ReaderView {
            state: ReaderState::GotMessage,
            expected: Some(0usize),
            current: v.current + s,
            ..v
        });
    } else {
        lemma_reader_feed_body(v1, s1);
        assert(v.current.push(s[0]) + s1 =~= v.current + s);
    }
}

/// A reader that stands ready between frames reads the frame of a message back into that
/// message's channel, type and payload, and stands ready again, for every payload of at
/// most 245 bytes (the largest length byte the reader takes is 250) and canonical channel.
pub proof fn lemma_read_written_frame(v: ReaderView, channel: Channel, message_type: u8, payload: Seq<u8>)
    requires
        v.state == ReaderState::Ready,
        v.current == Seq::<u8>::empty(),
        payload.len() + 5 <= 250,
        is_canonical(channel),
    ensures
        reader_feed(v, frame_bytes(message_bytes(channel, message_type, payload))) == (
            ReaderView {
                state: ReaderState::Ready,
                expected: Some(0usize),
                current: Seq::<u8>::empty(),
                ..v
            },
            seq![(channel, message_type, payload)],
        ),
{
    let mb = message_bytes(channel, message_type, payload);
    let len_byte = mb[0];
    let body = mb.subrange(1, mb.len() as int);
    let crc = crc8(mb);
    assert(frame_bytes(mb) =~= seq![START_OF_MESSAGE, len_byte] + body + seq![crc, END_OF_MESSAGE]);
    lemma_reader_feed_concat(v, seq![START_OF_MESSAGE, len_byte] + body, seq![crc, END_OF_MESSAGE]);
    lemma_reader_feed_concat(v, seq![START_OF_MESSAGE, len_byte], body);
    reveal_with_fuel(reader_feed, 3);
    let (a1, _) = reader_accept(v, START_OF_MESSAGE);
    let (a2, _) = reader_accept(a1, len_byte);
    assert(seq![START_OF_MESSAGE, len_byte].subrange(1, 2) =~= seq![len_byte]);
    assert(seq![len_byte].subrange(1, 1) =~= Seq::<u8>::empty());
    assert(reader_feed(v, seq![START_OF_MESSAGE, len_byte]).1 =~= Seq::<(Channel, u8, Seq<u8>)>::empty());
    assert(a2.current =~= seq![len_byte]);
    lemma_reader_feed_body(a2, body);
    let a3 = reader_feed(a2, body).0;
    assert(seq![len_byte] + body =~= mb);
    let (a4, _) = reader_accept(a3, crc);
    let (a5, r5) = reader_accept(a4, END_OF_MESSAGE);
    lemma_message_bytes_roundtrip(channel, message_type, payload);
    assert(r5 == Some((channel, message_type, payload)));
    assert(seq![crc, END_OF_MESSAGE].subrange(1, 2) =~= seq![END_OF_MESSAGE]);
    assert(seq![END_OF_MESSAGE].subrange(1, 1) =~= Seq::<u8>::empty());
    assert(reader_feed(a3, seq![crc, END_OF_MESSAGE]).1 =~= seq![(channel, message_type, payload)]);
    assert(Seq::<(Channel, u8, Seq<u8>)>::empty() + Seq::<(Channel, u8, Seq<u8>)>::empty()
        + seq![(channel, message_type, payload)] =~= seq![(channel, message_type, payload)]);
}

/// Byte-at-a-time frame reader.
#[derive(Debug)]
pub struct FramedReader {
    state: ReaderState,
    num_bytes_expected: Option<usize>,
    current_message: Vec<u8>,
    frames_with_errors: usize,
}

/// Produces frames; holds no state.
#[derive(Default, Debug)]
pub struct FramedWriter {}

impl View for FramedReader {
    type V = ReaderView;

    closed spec fn view(&self) -> ReaderView {
        ReaderView {
            state: self.state,
            expected: self.num_bytes_expected,
            current: self.current_message@,
            errors: self.frames_with_errors,
        }
    }
}

impl FramedReader {
    /// A length is expected while reading the message bytes.
    pub closed spec fn wf(&self) -> bool {
        self.state == ReaderState::GotLength ==> self.num_bytes_expected is Some
    }

    pub fn new() -> (r: Self)
        ensures
            r.wf(),
            r@ == (ReaderView {
                state: ReaderState::Ready,
                expected: None,
                current: Seq::empty(),
                errors: 0,
            }),
    {
        Self {
            state: ReaderState::Ready,
            num_bytes_expected: None,
            current_message: Vec::new(),
            frames_with_errors: 0,
        }
    }

    /// Whether `accept` can take `byte` now.
    pub fn can_accept(&self, byte: u8) -> (b: bool)
        ensures
            b == reader_can_accept(self@, byte),
    {
        (self.state == ReaderState::LostPlace || self.frames_with_errors < usize::MAX) && !(
        self.state == ReaderState::GotStart && byte == 1)
    }

    /// Feeds one byte; returns the message that this byte completes, if any.
    pub fn accept(&mut self, byte: u8) -> (result: Option<Message>)
        requires
            old(self).wf(),
            reader_can_accept(old(self)@, byte),
        ensures
            final(self).wf(),
            final(self)@ == reader_accept(old(self)@, byte).0,
            match result {
                Some(m) => reader_accept(old(self)@, byte).1 == Some(m.parts()),
                None => reader_accept(old(self)@, byte).1 is None,
            },
    {
        if self.handle_byte(byte) {
            if self.state == ReaderState::Ready {
                let message = Message::from_bytes(self.current_message.as_slice());
                self.current_message = Vec::new();
                match message {
                    Ok(message) => {
                        return Some(message);
                    },
                    Err(_) => {
                        self.move_to_state(ReaderState::LostPlace);
                    },
                }
            }
        } else {
            self.move_to_state(ReaderState::LostPlace);
        }
        None
    }

    fn handle_byte(&mut self, byte: u8) -> (ok: bool)
        requires
            old(self).wf(),
            reader_can_accept(old(self)@, byte),
        ensures
            final(self).wf(),
            (ok, final(self)@) == reader_handle_byte(old(self)@, byte),
            final(self)@.errors == old(self)@.errors,
    {
        match self.state {
            ReaderState::Ready => {
                if byte == START_OF_MESSAGE {
                    self.move_to_state(ReaderState::GotStart);
                    true
                } else {
                    false
                }
            },
            ReaderState::GotStart => {
                if 1 <= byte && byte <= 250 {
                    self.num_bytes_expected = Some((byte - 2) as usize);
                    self.current_message.push(byte);
                    self.move_to_state(ReaderState::GotLength);
                    true
                } else {
                    false
                }
            },
            ReaderState::GotLength => {
                let expected = match self.num_bytes_expected {
                    Some(k) => k,
                    None => 0,
                };
                if expected == 0 {
                    false
                } else {
                    self.current_message.push(byte);
                    self.num_bytes_expected = Some(expected - 1);
                    if expected - 1 == 0 {
                        self.move_to_state(ReaderState::GotMessage);
                    }
                    true
                }
            },
            ReaderState::GotMessage => {
                let computed_crc = checksum(self.current_message.as_slice());
                if byte == computed_crc {
                    self.move_to_state(ReaderState::GotCrc);
                    true
                } else {
                    false
                }
            },
            ReaderState::GotCrc => {
                if byte == END_OF_MESSAGE {
                    self.move_to_state(ReaderState::Ready);
                    true
                } else {
                    false
                }
            },
            ReaderState::LostPlace => {
                if byte == START_OF_MESSAGE {
                    self.move_to_state(ReaderState::GotStart);
                    true
                } else {
                    false
                }
            },
        }
    }

    fn move_to_state(&mut self, new_state: ReaderState)
        requires
            new_state == ReaderState::GotLength ==> old(self).num_bytes_expected is Some,
            new_state != ReaderState::GotLength ==> (old(self).wf() || new_state != old(self).state),
            new_state == ReaderState::LostPlace && old(self).state != ReaderState::LostPlace
                ==> old(self).frames_with_errors < usize::MAX,
        ensures
            final(self).wf(),
            final(self)@ == reader_move_to(old(self)@, new_state),
    {
        if self.state != new_state {
            if new_state == ReaderState::LostPlace {
                self.frames_with_errors = self.frames_with_errors + 1;
                self.num_bytes_expected = None;
                self.current_message = Vec::new();
            }
            self.state = new_state;
        }
    }

    /// Number of times the reader lost its place in the stream.
    pub fn frames_with_errors(&self) -> (n: usize)
        ensures
            n == self@.errors,
    {
        self.frames_with_errors
    }

    /// Whether the reader is waiting for the next start byte after a corrupted frame.
    pub fn is_in_error(&self) -> (b: bool)
        ensures
            b == (self@.state == ReaderState::LostPlace),
    {
        self.state == ReaderState::LostPlace
    }

    /// Where the reader stands within a frame.
    pub fn state(&self) -> (s: ReaderState)
        ensures
            s == self@.state,
    {
        self.state
    }
}

impl FramedWriter {
    pub fn new() -> Self {
        FramedWriter {}
    }

    /// The frame of `message`, or the error that encoding the message gives.
    pub fn encode(&self, message: &Message) -> (result: Result<Vec<u8>, EncodeError>)
        ensures
            message.payload.len() <= MAX_PAYLOAD_LEN ==> result is Ok && result->Ok_0@
                == frame_bytes(message.spec_bytes()),
            message.payload.len() > MAX_PAYLOAD_LEN ==> result == Err::<Vec<u8>, EncodeError>(
                EncodeError::MessageTooLong(message.payload.len()),
            ),
    {
        let unwrapped = message.to_bytes()?;
        let crc = checksum(unwrapped.as_slice());
        Ok(wrap_frame(unwrapped.as_slice(), crc))
    }
}

} // verus!
