//! A frame decoder bound to a byte source. Reading from the source is done by the caller,
//! which hands each chunk it read to `accept_chunk`.

use vstd::prelude::*;
use crate::messages::frame_decoder::{decoder_scan, DecoderState, DecoderView, FrameDecoder};
use crate::messages::message::Message;

verus! {

/// Decodes the messages of a byte source `R`.
#[derive(Debug)]
pub struct FramedReader<R> {
    raw_reader: R,
    framed_reader: FrameDecoder,
    debug: bool,
}

impl<R> FramedReader<R> {
    /// The state of the decoder inside.
    pub closed spec fn decoder(&self) -> DecoderView {
        self.framed_reader@
    }

    pub closed spec fn wf(&self) -> bool {
        self.framed_reader.wf()
    }

    pub closed spec fn debug(&self) -> bool {
        self.debug
    }

    pub closed spec fn source(&self) -> R {
        self.raw_reader
    }

    pub fn new(raw_reader: R) -> (r: Self)
        ensures
            r.wf(),
            r.source() == raw_reader,
            r.decoder().state == DecoderState::Ready,
            r.decoder().current == Seq::<u8>::empty(),
            r.decoder().errors == 0,
            r.decoder().lost_dropped == 0,
            !r.debug(),
    {
        Self { raw_reader, framed_reader: FrameDecoder::new(), debug: false }
    }

    /// The same reader with logging of every received byte switched on or off.
    pub fn set_debug(self, enable: bool) -> (r: Self)
        ensures
            r.debug() == enable,
            r.decoder() == self.decoder(),
            r.source() == self.source(),
            r.wf() == self.wf(),
    {
        let mut s = self;
        s.debug = enable;
        s
    }

    pub fn is_debug(&self) -> (b: bool)
        ensures
            b == self.debug(),
    {
        self.debug
    }

    /// The byte source, for reading the next chunk.
    pub fn raw_reader_mut(&mut self) -> (r: &mut R)
        ensures
            *r == old(self).source(),
            final(self).source() == *final(r),
            final(self).decoder() == old(self).decoder(),
            final(self).wf() == old(self).wf(),
            final(self).debug() == old(self).debug(),
    {
        &mut self.raw_reader
    }

    /// Whether `accept_chunk` can take a chunk of `len` bytes.
    pub fn can_accept_chunk(&self, len: usize) -> (b: bool)
        ensures
            b == (self.decoder().errors + len < usize::MAX && self.decoder().lost_dropped + len < usize::MAX),
    {
        self.framed_reader.can_take(len)
    }

    /// Decodes a chunk read from the source, up to the first message it completes; the
    /// bytes of the chunk after that message are dropped.
    pub fn accept_chunk(&mut self, chunk: &[u8]) -> (result: Option<Message>)
        requires
            old(self).wf(),
            old(self).decoder().errors + chunk.len() < usize::MAX,
            old(self).decoder().lost_dropped + chunk.len() < usize::MAX,
        ensures
            final(self).wf(),
            final(self).decoder() == decoder_scan(old(self).decoder(), chunk@).0,
            final(self).source() == old(self).source(),
            final(self).debug() == old(self).debug(),
            match result {
                Some(m) => decoder_scan(old(self).decoder(), chunk@).1 == Some(m.parts()),
                None => decoder_scan(old(self).decoder(), chunk@).1 is None,
            },
    {
        self.framed_reader.accept_until_message(chunk)
    }
}

} // verus!
