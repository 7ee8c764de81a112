//! A frame encoder bound to a byte sink. The caller writes the frames that `encode`
//! produces to the sink.

use vstd::prelude::*;
use crate::messages::frame_encoder::{frame_bytes, FrameEncoder};
use crate::messages::message::{EncodeError, Message, MAX_PAYLOAD_LEN};

verus! {

/// Encodes messages for a byte sink `W`.
#[derive(Debug)]
pub struct FramedWriter<W> {
    raw_writer: W,
    framed_writer: FrameEncoder,
}

impl<W> FramedWriter<W> {
    pub closed spec fn sink(&self) -> W {
        self.raw_writer
    }

    pub fn new(raw_writer: W) -> (w: Self)
        ensures
            w.sink() == raw_writer,
    {
        Self { raw_writer, framed_writer: FrameEncoder::new() }
    }

    /// The frame to write for `message`.
    pub fn encode(&self, message: &Message) -> (result: Result<Vec<u8>, EncodeError>)
        ensures
            message.payload.len() <= MAX_PAYLOAD_LEN ==> result is Ok && result->Ok_0@
                == frame_bytes(message.spec_bytes()),
            message.payload.len() > MAX_PAYLOAD_LEN ==> result == Err::<Vec<u8>, EncodeError>(
                EncodeError::MessageTooLong(message.payload.len()),
            ),
    {
        self.framed_writer.encode(message)
    }

    /// The byte sink, for writing a frame.
    pub fn raw_writer_mut(&mut self) -> (r: &mut W)
        ensures
            *r == old(self).sink(),
            final(self).sink() == *final(r),
    {
        &mut self.raw_writer
    }
}

} // verus!
