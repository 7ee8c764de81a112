//! Wraps messages into frames: `0x7e`, message bytes, CRC-8 of the message bytes, `0x7e`.

use vstd::prelude::*;
use crate::messages::checksum::{checksum, crc8};
use crate::messages::frame_decoder::{END_OF_MESSAGE, START_OF_MESSAGE};
use crate::messages::message::{EncodeError, Message, MAX_PAYLOAD_LEN};

verus! {

/// The frame that carries the unframed message bytes `unwrapped`.
pub open spec fn frame_bytes(unwrapped: Seq<u8>) -> Seq<u8> {
    seq![START_OF_MESSAGE] + unwrapped + seq![crc8(unwrapped), END_OF_MESSAGE]
}

/// The frame around the unframed message bytes `unwrapped` and their checksum `crc`.
pub fn wrap_frame(unwrapped: &[u8], crc: u8) -> (wrapped: Vec<u8>)
    ensures
        wrapped@ == seq![START_OF_MESSAGE] + unwrapped@ + seq![crc, END_OF_MESSAGE],
{
    let mut wrapped: Vec<u8> = Vec::new();
    wrapped.push(START_OF_MESSAGE);
    let mut i: usize = 0;
    while i < unwrapped.len()
        invariant
            i <= unwrapped@.len(),
            wrapped@ == seq![START_OF_MESSAGE] + unwrapped@.subrange(0, i as int),
        decreases unwrapped@.len() - i,
    {
        wrapped.push(unwrapped[i]);
        i = i + 1;
    }
    wrapped.push(crc);
    wrapped.push(END_OF_MESSAGE);
    assert(unwrapped@.subrange(0, unwrapped@.len() as int) =~= unwrapped@);
    assert(wrapped@ =~= seq![START_OF_MESSAGE] + unwrapped@ + seq![crc, END_OF_MESSAGE]);
    wrapped
}

/// Produces frames; holds no state.
#[derive(Debug, Default)]
pub struct FrameEncoder {}

impl FrameEncoder {
    pub fn new() -> Self {
        FrameEncoder {}
    }

    /// The frame of `message`, or the error that encoding the message gives.
    pub fn encode(&self, message: &Message) -> (result: Result<Vec<u8>, EncodeError>)
        ensures
            message.payload.len() <= MAX_PAYLOAD_LEN ==> result is Ok && result->Ok_0@
                == frame_bytes(message.spec_bytes()),
            message.payload.len() > MAX_PAYLOAD_LEN ==> result == Err::<Vec<u8>, EncodeError>(
                EncodeError::MessageTooLong(message.payload.len()),
            ),
    {
        let unwrapped = message.to_bytes()?;
        let crc = checksum(unwrapped.as_slice());
        Ok(wrap_frame(unwrapped.as_slice(), crc))
    }
}

} // verus!
