//! A transport is a pair of a byte source and a byte sink.

use vstd::prelude::*;

verus! {

/// Something that splits into its reading half and its writing half.
pub trait Transport<R, W> {
    fn split(self) -> (R, W);
}

/// A transport made of a given reader and writer.
pub struct StdTransport<R, W> {
    reader: R,
    writer: W,
}

impl<R, W> StdTransport<R, W> {
    pub closed spec fn reader(&self) -> R {
        self.reader
    }

    pub closed spec fn writer(&self) -> W {
        self.writer
    }

    pub fn new(reader: R, writer: W) -> (t: Self)
        ensures
            t.reader() == reader,
            t.writer() == writer,
    {
        Self { reader, writer }
    }
}

impl<R, W> Transport<R, W> for StdTransport<R, W> {
    /// The reader and the writer that the transport was made of.
    fn split(self) -> (parts: (R, W))
        ensures
            parts.0 == self.reader(),
            parts.1 == self.writer(),
    {
        (self.reader, self.writer)
    }
}

} // verus!
