//! Sharing one transport among several parties, as on an RS485 bus: each party receives
//! every chunk read from the line and every chunk that another party wrote, and all write
//! through the same line. This module holds the bookkeeping: the listeners and which of
//! them stay, the buffers of each party, and the decisions of the reading and writing
//! loops. The threads and the blocking channel operations are the caller's.

use std::io;
use std::sync::mpsc::{Receiver, SyncSender};
use vstd::prelude::*;
use crate::common::transport::Transport;

verus! {

#[verifier::external_type_specification]
#[verifier::external_body]
pub struct ExIoError(io::Error);

#[verifier::external_type_specification]
#[verifier::external_body]
pub struct ExIoErrorKind(io::ErrorKind);

#[verifier::external_type_specification]
#[verifier::external_body]
#[verifier::reject_recursive_types(T)]
pub struct ExReceiver<T>(Receiver<T>);

#[verifier::external_type_specification]
#[verifier::external_body]
#[verifier::reject_recursive_types(T)]
pub struct ExSyncSender<T>(SyncSender<T>);

/// Largest number of bytes a party may write before it flushes.
pub const MAX_WRITE_BUFFER_SIZE: usize = 2048;

/// Bytes read from the line at a time, by default.
pub const DEFAULT_RECV_BUFFER_SIZE: usize = 128;

/// Chunks that may wait for each party, by default.
pub const DEFAULT_RECV_QUEUE_LEN: usize = 8;

/// A chunk read from the line or written by another party, or the read error.
#[derive(Debug)]
pub struct ReadEvent(pub Result<Vec<u8>, io::Error>);

/// The acknowledgement of a write: its outcome.
#[derive(Debug)]
pub struct WriteAckEvent(pub Result<(), io::Error>);

/// A party's flushed bytes, who wrote them, and where to acknowledge the write.
#[derive(Debug)]
pub struct WriteAndFlushEvent {
    pub data: Vec<u8>,
    pub listener_handle: ListenerHandle,
    pub ack: SyncSender<WriteAckEvent>,
}

/// Identifies a party among the listeners: its position when it was added.
#[derive(Debug, Copy, Clone, PartialEq, Eq, Structural)]
pub struct ListenerHandle(pub usize);

/// A party that receives what is read: its handle and where its chunks go.
#[derive(Debug)]
#[verifier::reject_recursive_types(T)]
pub struct Listener<T> {
    handle: ListenerHandle,
    tx: SyncSender<T>,
}

/// Calls `std::sync::mpsc::sync_channel`: a channel holding up to `bound` messages.
#[verifier::external_body]
pub(crate) fn bounded_channel<T>(bound: usize) -> (SyncSender<T>, Receiver<T>) {
    std::sync::mpsc::sync_channel(bound)
}

/// Calls `SyncSender::clone`: another sender into the same channel.
#[verifier::external_body]
pub(crate) fn clone_sender<T>(tx: &SyncSender<T>) -> SyncSender<T> {
    tx.clone()
}

/// Calls `SyncSender::send`. Whether the message is delivered depends on whether its
/// receiver still exists, so nothing is claimed of the result.
#[verifier::external_body]
fn deliver(tx: &SyncSender<ReadEvent>, event: ReadEvent) -> bool {
    tx.send(event).is_ok()
}

/// The kind of an I/O error: what `io::Error::kind` returns for it.
pub uninterp spec fn io_error_kind(e: io::Error) -> io::ErrorKind;

/// Calls `io::Error::new` with the kind of `e` and a message that quotes it, so that each
/// party gets an error of its own. The contract claims what `io::Error::new` documents:
/// the new error has the kind it was made with, the kind of `e`.
#[verifier::external_body]
fn copy_io_error(e: &io::Error) -> (r: io::Error)
    ensures
        io_error_kind(r) == io_error_kind(*e),
{
    io::Error::new(e.kind(), format!("forwarded: {e}"))
}

/// What a listener was handed: a copy of some bytes, or an error of some kind.
pub enum SentView {
    Data(Seq<u8>),
    Failure(io::ErrorKind),
}

/// A listener as plain values: its handle and the sender its chunks go to.
pub type ListenerEntry = (ListenerHandle, SyncSender<ReadEvent>);

/// One attempted delivery: the sender it went to, what it carried, and whether it was
/// delivered (`false` when the receiver was gone).
pub type SentRecord = (SyncSender<ReadEvent>, SentView, bool);

/// What sending `result` hands over.
pub open spec fn sent_view(result: Result<&[u8], &io::Error>) -> SentView {
    match result {
        Ok(data) => SentView::Data(data@),
        Err(e) => SentView::Failure(io_error_kind(*e)),
    }
}

/// What an owned read result carries.
pub open spec fn carried_view(owned: Result<Vec<u8>, io::Error>) -> SentView {
    match owned {
        Ok(v) => SentView::Data(v@),
        Err(e) => SentView::Failure(io_error_kind(e)),
    }
}

/// The listeners of a list, as plain values.
pub closed spec fn entries_of(listeners: Seq<Listener<ReadEvent>>) -> Seq<ListenerEntry> {
    listeners.map_values(|l: Listener<ReadEvent>| (l.handle, l.tx))
}

/// The handles of a list of listener entries.
pub open spec fn handles_in(entries: Seq<ListenerEntry>) -> Seq<ListenerHandle> {
    entries.map_values(|e: ListenerEntry| e.0)
}

/// The listeners that stay after a broadcast: the excluded one, and each other one whose
/// delivery succeeded (`delivered[i]` for the listener at `i`), in their order.
pub open spec fn retained(entries: Seq<ListenerEntry>, delivered: Seq<bool>, exclude: Option<ListenerHandle>) -> Seq<ListenerEntry>
    decreases entries.len(),
{
    if entries.len() == 0 {
        Seq::empty()
    } else {
        let last = entries.len() - 1;
        let rest = retained(entries.subrange(0, last), delivered.subrange(0, last), exclude);
        if exclude == Some(entries[last].0) || delivered[last] {
            rest.push(entries[last])
        } else {
            rest
        }
    }
}

/// The deliveries that a broadcast of `ev` attempts: one to each listener but the excluded
/// one, in the listeners' order, each with its outcome (`delivered[i]` for the listener at
/// `i`).
pub open spec fn broadcast_log(
    entries: Seq<ListenerEntry>,
    ev: SentView,
    exclude: Option<ListenerHandle>,
    delivered: Seq<bool>,
) -> Seq<SentRecord>
    decreases entries.len(),
{
    if entries.len() == 0 {
        Seq::empty()
    } else {
        let last = entries.len() - 1;
        let rest = broadcast_log(entries.subrange(0, last), ev, exclude, delivered.subrange(0, last));
        if exclude == Some(entries[last].0) {
            rest
        } else {
            rest.push((entries[last].1, ev, delivered[last]))
        }
    }
}

/// What a broadcast of `ev` to `entries`, but `exclude`, did from `before` to `after` (the
/// listeners and the delivery log of each): for some outcome of each delivery, every
/// listener but the excluded one was sent `ev`, in order, and the listeners kept are the
/// excluded one and those whose delivery succeeded.
pub open spec fn broadcast_done(
    entries: Seq<ListenerEntry>,
    log: Seq<SentRecord>,
    ev: SentView,
    exclude: Option<ListenerHandle>,
    entries_after: Seq<ListenerEntry>,
    log_after: Seq<SentRecord>,
) -> bool {
    exists|delivered: Seq<bool>| {
        &&& delivered.len() == entries.len()
        &&& #[trigger] retained(entries, delivered, exclude) == entries_after
        &&& log_after == log + broadcast_log(entries, ev, exclude, delivered)
    }
}

/// Handles numbered 0, 1, 2, … in order, as listeners added one after the other get them.
pub open spec fn numbered(hs: Seq<ListenerHandle>) -> bool {
    forall|i: int| 0 <= i < hs.len() ==> #[trigger] hs[i] == ListenerHandle(i as usize)
}

/// Adding the next listener keeps handles numbered in order, and numbered handles are
/// pairwise distinct: after `k` additions the handles are 0 to `k - 1`, each once.
pub proof fn lemma_numbered_handles(hs: Seq<ListenerHandle>)
    requires
        numbered(hs),
        hs.len() < usize::MAX,
    ensures
        numbered(hs.push(ListenerHandle(hs.len() as usize))),
        forall|i: int, j: int| 0 <= i < hs.len() && 0 <= j < hs.len() && i != j ==> #[trigger] hs[i] != #[trigger] hs[j],
{
    assert forall|i: int, j: int| 0 <= i < hs.len() && 0 <= j < hs.len() && i != j implies #[trigger] hs[i] != #[trigger] hs[j] by {
        assert(hs[i] == ListenerHandle(i as usize));
        assert(hs[j] == ListenerHandle(j as usize));
    }
}

/// The parties that receive what is read from the line, and the record of what was sent
/// to them.
pub struct ReadListeners {
    listeners: Vec<Listener<ReadEvent>>,
    sent: Ghost<Seq<SentRecord>>,
}

impl ReadListeners {
    /// The listeners, in order.
    pub closed spec fn entries(&self) -> Seq<ListenerEntry> {
        entries_of(self.listeners@)
    }

    /// The listeners' handles, in order.
    pub open spec fn handles(&self) -> Seq<ListenerHandle> {
        handles_in(self.entries())
    }

    /// Every delivery attempted so far, in order.
    pub closed spec fn sent(&self) -> Seq<SentRecord> {
        self.sent@
    }

    /// No listeners, nothing sent.
    pub fn new() -> (r: Self)
        ensures
            r.entries() == Seq::<ListenerEntry>::empty(),
            r.sent() == Seq::<SentRecord>::empty(),
    {
        let r = Self { listeners: Vec::new(), sent: Ghost(Seq::empty()) };
        assert(r.entries() =~= Seq::<ListenerEntry>::empty());
        r
    }

    /// Adds a listener that sends to `tx`; its handle is the number of listeners before it.
    pub fn add_listener(&mut self, tx: SyncSender<ReadEvent>) -> (handle: ListenerHandle)
        ensures
            handle == ListenerHandle(old(self).entries().len() as usize),
            final(self).entries() == old(self).entries().push((handle, tx)),
            numbered(old(self).handles()) ==> numbered(final(self).handles()),
            final(self).sent() == old(self).sent(),
    {
        let next_index = self.listeners.len();
        let handle = ListenerHandle(next_index);
        let ghost before = self.listeners@;
        let ghost sender = tx;
        self.listeners.push(Listener { handle, tx });
        assert(entries_of(self.listeners@) =~= entries_of(before).push((handle, sender)));
        assert(handles_in(entries_of(self.listeners@)) =~= handles_in(entries_of(before)).push(handle));
        handle
    }

    /// Sends a copy of `result` to every listener.
    pub fn broadcast_to_all(&mut self, result: Result<&[u8], &io::Error>)
        ensures
            broadcast_done(old(self).entries(), old(self).sent(), sent_view(result), None, final(self).entries(), final(self).sent()),
    {
        self.broadcast_to_some(result, None)
    }

    /// Sends a copy of `result` (the same bytes, or an error of the same kind) to every
    /// listener but `exclude`, in order; a listener whose receiver is gone is dropped.
    /// Which deliveries succeed depends on the receivers.
    pub fn broadcast_to_some(&mut self, result: Result<&[u8], &io::Error>, exclude: Option<ListenerHandle>)
        ensures
            broadcast_done(old(self).entries(), old(self).sent(), sent_view(result), exclude, final(self).entries(), final(self).sent()),
    {
        let mut rest: Vec<Listener<ReadEvent>> = Vec::new();
        std::mem::swap(&mut rest, &mut self.listeners);
        let ghost es = entries_of(rest@);
        let ghost ev = sent_view(result);
        assert(es == old(self).entries());
        let ghost mut delivered: Seq<bool> = Seq::empty();
        let ghost mut log: Seq<SentRecord> = Seq::empty();
        let ghost mut k: int = 0;
        let mut kept: Vec<Listener<ReadEvent>> = Vec::new();
        proof {
            assert(es.subrange(0, 0) =~= Seq::<ListenerEntry>::empty());
            assert(entries_of(kept@) =~= Seq::<ListenerEntry>::empty());
            assert(entries_of(rest@) =~= es.subrange(0, es.len() as int));
        }
        while rest.len() > 0
            invariant
                0 <= k <= es.len(),
                entries_of(rest@) == es.subrange(k, es.len() as int),
                delivered.len() == k,
                entries_of(kept@) == retained(es.subrange(0, k), delivered, exclude),
                log == broadcast_log(es.subrange(0, k), ev, exclude, delivered),
                ev == sent_view(result),
                es == old(self).entries(),
            decreases rest.len(),
        {
            let ghost before_rest = rest@;
            let ghost before_kept = kept@;
            let listener = rest.remove(0);
            proof {
                assert(rest@ =~= before_rest.subrange(1, before_rest.len() as int));
                lemma_entries_drop_first(before_rest);
                assert(es.subrange(k, es.len() as int)[0] == es[k]);
                assert(es[k] == (listener.handle, listener.tx));
                assert(es.subrange(k, es.len() as int).subrange(1, es.len() - k) =~= es.subrange(k + 1, es.len() as int));
                assert(entries_of(rest@) =~= es.subrange(k + 1, es.len() as int));
            }
            let excluded = match exclude {
                Some(h) => h == listener.handle,
                None => false,
            };
            let keep = if !excluded {
                let owned = match result {
                    Ok(data) => Ok(copy_bytes(data)),
                    Err(e) => Err(copy_io_error(e)),
                };
                assert(carried_view(owned) == ev);
                let ok = deliver(&listener.tx, ReadEvent(owned));
                proof {
                    log = log.push((listener.tx, ev, ok));
                }
                ok
            } else {
                true
            };
            let ghost entry = (listener.handle, listener.tx);
            if keep {
                kept.push(listener);
            }
            proof {
                let next = es.subrange(0, k + 1);
                let d2 = delivered.push(keep);
                assert(next.subrange(0, k) =~= es.subrange(0, k));
                assert(d2.subrange(0, k) =~= delivered);
                assert(next[k] == entry);
                assert(excluded == (exclude == Some(entry.0)));
                if keep {
                    assert(entries_of(kept@) =~= entries_of(before_kept).push(entry));
                } else {
                    assert(entries_of(kept@) =~= entries_of(before_kept));
                }
                assert(entries_of(kept@) == retained(next, d2, exclude));
                assert(log == broadcast_log(next, ev, exclude, d2));
                delivered = d2;
                k = k + 1;
            }
        }
        proof {
            assert(entries_of(rest@).len() == 0);
            assert(k == es.len());
            assert(es.subrange(0, k) =~= es);
            assert(retained(es, delivered, exclude) == entries_of(kept@));
        }
        self.listeners = kept;
        self.sent = Ghost(self.sent@ + log);
        assert(self.entries() == retained(old(self).entries(), delivered, exclude));
        assert(self.sent() == old(self).sent() + broadcast_log(old(self).entries(), ev, exclude, delivered));
    }

    /// Whether any listener is left.
    pub fn has_listeners(&self) -> (b: bool)
        ensures
            b == (self.entries().len() != 0),
    {
        self.listeners.len() != 0
    }
}

proof fn lemma_entries_drop_first(s: Seq<Listener<ReadEvent>>)
    requires
        s.len() > 0,
    ensures
        entries_of(s).len() == s.len(),
        entries_of(s)[0] == (s[0].handle, s[0].tx),
        entries_of(s.subrange(1, s.len() as int)) == entries_of(s).subrange(1, s.len() as int),
{
    assert(entries_of(s.subrange(1, s.len() as int)) =~= entries_of(s).subrange(1, s.len() as int));
}

/// A copy of `data`.
fn copy_bytes(data: &[u8]) -> (v: Vec<u8>)
    ensures
        v@ == data@,
{
    let mut v: Vec<u8> = Vec::new();
    let mut i: usize = 0;
    while i < data.len()
        invariant
            i <= data@.len(),
            v@ == data@.subrange(0, i as int),
        decreases data@.len() - i,
    {
        v.push(data[i]);
        i = i + 1;
    }
    assert(v@ =~= data@);
    v
}

/// A channel-end pair for the writes of all parties: the receiving end for the writing
/// loop and a sending end from which each party's sender is cloned.
pub struct BusSwitch<R, W> {
    raw_reader: R,
    raw_writer: W,
    recv_buffer_size: usize,
    recv_queue_len: usize,
    read_listeners: ReadListeners,
    writer_rx: Receiver<WriteAndFlushEvent>,
    writer_tx_tmp: SyncSender<WriteAndFlushEvent>,
}

impl<R, W> BusSwitch<R, W> {
    pub closed spec fn listeners(&self) -> Seq<ListenerHandle> {
        self.read_listeners.handles()
    }

    pub closed spec fn recv_buffer_size(&self) -> usize {
        self.recv_buffer_size
    }

    pub closed spec fn recv_queue_len(&self) -> usize {
        self.recv_queue_len
    }

    /// A switch over the two halves of `transport`, reading `recv_buffer_size` bytes at a
    /// time and queueing up to `recv_queue_len` chunks for each party; no party yet.
    pub fn from_existing(transport: impl Transport<R, W>, recv_buffer_size: usize, recv_queue_len: usize) -> (s: Self)
        ensures
            s.listeners() == Seq::<ListenerHandle>::empty(),
            numbered(s.listeners()),
            s.recv_buffer_size() == recv_buffer_size,
            s.recv_queue_len() == recv_queue_len,
    {
        let (raw_reader, raw_writer) = transport.split();
        let read_listeners = ReadListeners::new();
        assert(handles_in(read_listeners.entries()) =~= Seq::<ListenerHandle>::empty());
        let (writer_tx_tmp, writer_rx) = bounded_channel(0);
        Self {
            raw_reader,
            raw_writer,
            recv_buffer_size,
            recv_queue_len,
            read_listeners,
            writer_rx,
            writer_tx_tmp,
        }
    }

    /// A new party on the bus; its handle is the number of parties before it, and its
    /// read queue is made to hold up to `recv_queue_len` chunks.
    pub fn new_connection(&mut self) -> (t: BusTransport)
        ensures
            t.handle() == ListenerHandle(old(self).listeners().len() as usize),
            t.queue_capacity() == old(self).recv_queue_len(),
            final(self).listeners() == old(self).listeners().push(t.handle()),
            numbered(old(self).listeners()) ==> numbered(final(self).listeners()),
            final(self).recv_buffer_size() == old(self).recv_buffer_size(),
            final(self).recv_queue_len() == old(self).recv_queue_len(),
    {
        let (reader_tx, rx) = bounded_channel(self.recv_queue_len);
        let ghost before = self.read_listeners.entries();
        let listener_handle = self.read_listeners.add_listener(reader_tx);
        assert(handles_in(self.read_listeners.entries()) =~= handles_in(before).push(listener_handle));
        let tx = clone_sender(&self.writer_tx_tmp);
        BusTransport { rx, tx, listener_handle, queue_capacity: Ghost(self.recv_queue_len) }
    }

    /// The reading loop and the writing loop of the switch, each with the current parties.
    /// The switch's own writing sender is dropped, so that the writing loop ends once every
    /// party has gone.
    pub fn into_runners(self) -> (runners: (ReaderRunner<R>, WriterRunner<W>))
        ensures
            handles_in(runners.0.listeners()) == self.listeners(),
            handles_in(runners.1.listeners()) == self.listeners(),
            runners.0.buffer_size() == self.recv_buffer_size(),
    {
        let listeners_for_reader = self.read_listeners.duplicate();
        let reader = ReaderRunner {
            reader: self.raw_reader,
            listeners: listeners_for_reader,
            buffer_size: self.recv_buffer_size,
        };
        let writer = WriterRunner {
            writer: self.raw_writer,
            rx: self.writer_rx,
            listeners: self.read_listeners,
        };
        (reader, writer)
    }
}

impl ReadListeners {
    /// Another list with the same listeners, each with a sender of its own, and nothing
    /// sent yet.
    pub fn duplicate(&self) -> (r: Self)
        ensures
            r.handles() == self.handles(),
            r.sent() == Seq::<SentRecord>::empty(),
    {
        let mut listeners: Vec<Listener<ReadEvent>> = Vec::new();
        let mut i: usize = 0;
        while i < self.listeners.len()
            invariant
                i <= self.listeners@.len(),
                handles_in(entries_of(listeners@)) == handles_in(entries_of(self.listeners@)).subrange(0, i as int),
            decreases self.listeners@.len() - i,
        {
            let ghost before = listeners@;
            let l = &self.listeners[i];
            let tx = clone_sender(&l.tx);
            let ghost sender = tx;
            listeners.push(Listener { handle: l.handle, tx });
            proof {
                assert(entries_of(listeners@) =~= entries_of(before).push((l.handle, sender)));
                assert(handles_in(entries_of(listeners@)) =~= handles_in(entries_of(before)).push(l.handle));
                assert(handles_in(entries_of(self.listeners@)).subrange(0, i + 1) =~= handles_in(entries_of(self.listeners@)).subrange(0, i as int).push(l.handle));
            }
            i = i + 1;
        }
        proof {
            assert(handles_in(entries_of(self.listeners@)).subrange(0, i as int) =~= handles_in(entries_of(self.listeners@)));
        }
        Self { listeners, sent: Ghost(Seq::empty()) }
    }
}

/// The loop that reads the line and hands every chunk to all parties.
pub struct ReaderRunner<R> {
    reader: R,
    listeners: ReadListeners,
    buffer_size: usize,
}

impl<R> ReaderRunner<R> {
    pub closed spec fn listeners(&self) -> Seq<ListenerEntry> {
        self.listeners.entries()
    }

    /// Every delivery attempted so far.
    pub closed spec fn sent(&self) -> Seq<SentRecord> {
        self.listeners.sent()
    }

    pub closed spec fn buffer_size(&self) -> usize {
        self.buffer_size
    }

    pub closed spec fn source(&self) -> R {
        self.reader
    }

    /// Bytes to read at a time.
    pub fn buffer_size_exec(&self) -> (n: usize)
        ensures
            n == self.buffer_size(),
    {
        self.buffer_size
    }

    /// The line, for reading the next chunk.
    pub fn reader_mut(&mut self) -> (r: &mut R)
        ensures
            *r == old(self).source(),
            final(self).source() == *final(r),
            final(self).listeners() == old(self).listeners(),
            final(self).sent() == old(self).sent(),
            final(self).buffer_size() == old(self).buffer_size(),
    {
        &mut self.reader
    }

    /// A chunk was read: every party gets a copy. The loop stops when the chunk is empty
    /// (the line has ended) or when no listener is left.
    pub fn on_read(&mut self, data: &[u8]) -> (stop: bool)
        ensures
            broadcast_done(old(self).listeners(), old(self).sent(), SentView::Data(data@), None, final(self).listeners(), final(self).sent()),
            stop == (final(self).listeners().len() == 0 || data@.len() == 0),
            final(self).source() == old(self).source(),
            final(self).buffer_size() == old(self).buffer_size(),
    {
        self.listeners.broadcast_to_all(Ok(data));
        !self.listeners.has_listeners() || data.len() == 0
    }

    /// Reading failed: every party gets an error of the same kind, and the loop stops with
    /// it.
    pub fn on_read_error(&mut self, e: &io::Error)
        ensures
            broadcast_done(old(self).listeners(), old(self).sent(), SentView::Failure(io_error_kind(*e)), None, final(self).listeners(), final(self).sent()),
            final(self).source() == old(self).source(),
            final(self).buffer_size() == old(self).buffer_size(),
    {
        self.listeners.broadcast_to_all(Err(e));
    }
}

/// The loop that writes each party's flushed bytes to the line and echoes them to the
/// other parties.
pub struct WriterRunner<W> {
    writer: W,
    rx: Receiver<WriteAndFlushEvent>,
    listeners: ReadListeners,
}

impl<W> WriterRunner<W> {
    pub closed spec fn listeners(&self) -> Seq<ListenerEntry> {
        self.listeners.entries()
    }

    /// Every delivery attempted so far.
    pub closed spec fn sent(&self) -> Seq<SentRecord> {
        self.listeners.sent()
    }

    pub closed spec fn sink(&self) -> W {
        self.writer
    }

    /// The line to write to, and where the writes come from.
    pub fn parts_mut(&mut self) -> (p: (&mut W, &Receiver<WriteAndFlushEvent>))
        ensures
            *p.0 == old(self).sink(),
            final(self).sink() == *final(p.0),
            final(self).listeners() == old(self).listeners(),
            final(self).sent() == old(self).sent(),
    {
        (&mut self.writer, &self.rx)
    }

    /// A party's bytes were written: every other party gets a copy, the writer none.
    pub fn on_written(&mut self, data: &[u8], writer: ListenerHandle)
        ensures
            broadcast_done(old(self).listeners(), old(self).sent(), SentView::Data(data@), Some(writer), final(self).listeners(), final(self).sent()),
            final(self).sink() == old(self).sink(),
    {
        self.listeners.broadcast_to_some(Ok(data), Some(writer));
    }
}

/// One party's end of the bus.
pub struct BusTransport {
    rx: Receiver<ReadEvent>,
    tx: SyncSender<WriteAndFlushEvent>,
    listener_handle: ListenerHandle,
    queue_capacity: Ghost<usize>,
}

impl BusTransport {
    pub closed spec fn handle(&self) -> ListenerHandle {
        self.listener_handle
    }

    /// The number of chunks that its read queue was made to hold.
    pub closed spec fn queue_capacity(&self) -> usize {
        self.queue_capacity@
    }

    /// A switch over `transport` with the default buffer size and queue length.
    pub fn new_switch<T, R, W>(transport: T) -> (s: BusSwitch<R, W>)
        where
            T: Transport<R, W>,
        ensures
            s.listeners() == Seq::<ListenerHandle>::empty(),
            numbered(s.listeners()),
            s.recv_buffer_size() == DEFAULT_RECV_BUFFER_SIZE,
            s.recv_queue_len() == DEFAULT_RECV_QUEUE_LEN,
    {
        BusSwitch::from_existing(transport, DEFAULT_RECV_BUFFER_SIZE, DEFAULT_RECV_QUEUE_LEN)
    }

    /// The receiving end, the writing end, and the party's handle.
    pub fn into_parts(self) -> (p: (Receiver<ReadEvent>, SyncSender<WriteAndFlushEvent>, ListenerHandle))
        ensures
            p.2 == self.handle(),
    {
        (self.rx, self.tx, self.listener_handle)
    }
}

/// The chunk a party is reading from, and how far it has read.
pub struct RecvBuffer {
    buffer: Vec<u8>,
    position: usize,
}

impl RecvBuffer {
    /// The position never passes the end of the chunk.
    #[verifier::type_invariant]
    spec fn inv(self) -> bool {
        self.position <= self.buffer@.len()
    }

    /// The bytes not read yet.
    pub closed spec fn remaining(&self) -> Seq<u8> {
        self.buffer@.subrange(self.position as int, self.buffer@.len() as int)
    }

    pub fn new() -> (b: Self)
        ensures
            b.remaining() == Seq::<u8>::empty(),
    {
        let b = Self { buffer: Vec::new(), position: 0 };
        assert(b.remaining() =~= Seq::<u8>::empty());
        b
    }

    /// Whether every byte of the chunk has been read.
    pub fn is_drained(&self) -> (b: bool)
        ensures
            b == (self.remaining().len() == 0),
    {
        proof {
            use_type_invariant(self);
        }
        self.position >= self.buffer.len()
    }

    /// The bytes not read yet.
    pub fn unread(&self) -> (s: &[u8])
        ensures
            s@ == self.remaining(),
    {
        proof {
            use_type_invariant(self);
        }
        vstd::slice::slice_subrange(self.buffer.as_slice(), self.position, self.buffer.len())
    }

    /// Starts on a new chunk.
    pub fn refill(&mut self, data: Vec<u8>)
        ensures
            final(self).remaining() == data@,
    {
        *self = Self { buffer: data, position: 0 };
        assert(self.remaining() =~= data@);
    }

    /// Takes up to `max` unread bytes.
    pub fn take(&mut self, max: usize) -> (out: Vec<u8>)
        ensures
            out@.len() == if max < old(self).remaining().len() { max as int } else { old(self).remaining().len() as int },
            old(self).remaining() == out@ + final(self).remaining(),
    {
        proof {
            use_type_invariant(&*self);
        }
        let available = self.buffer.len() - self.position;
        let len = if max < available { max } else { available };
        let out = vstd::slice::slice_to_vec(vstd::slice::slice_subrange(
            self.buffer.as_slice(),
            self.position,
            self.position + len,
        ));
        let ghost before = self.remaining();
        self.consume(len);
        assert(before =~= out@ + self.remaining());
        out
    }

    /// Marks `amt` more bytes as read.
    pub fn consume(&mut self, amt: usize)
        requires
            amt <= old(self).remaining().len(),
        ensures
            final(self).remaining() == old(self).remaining().subrange(amt as int, old(self).remaining().len() as int),
    {
        proof {
            use_type_invariant(&*self);
        }
        let len = self.buffer.len();
        let ghost old_remaining = self.remaining();
        self.position = self.position + amt;
        assert(self.remaining() =~= old_remaining.subrange(amt as int, old_remaining.len() as int));
    }
}

/// The bytes a party has written and not yet flushed, up to a limit.
pub struct WriteBuffer {
    buffer: Vec<u8>,
    max_buffer_size: usize,
}

impl WriteBuffer {
    pub closed spec fn pending(&self) -> Seq<u8> {
        self.buffer@
    }

    pub closed spec fn limit(&self) -> usize {
        self.max_buffer_size
    }

    /// An empty buffer holding at most 2048 bytes.
    pub fn new() -> (b: Self)
        ensures
            b.pending() == Seq::<u8>::empty(),
            b.limit() == MAX_WRITE_BUFFER_SIZE,
    {
        Self { buffer: Vec::new(), max_buffer_size: MAX_WRITE_BUFFER_SIZE }
    }

    /// Appends `buf` when it fits under the limit; refuses it whole otherwise.
    pub fn write(&mut self, buf: &[u8]) -> (accepted: bool)
        ensures
            accepted == (old(self).pending().len() + buf@.len() <= old(self).limit()),
            accepted ==> final(self).pending() == old(self).pending() + buf@,
            !accepted ==> final(self).pending() == old(self).pending(),
            final(self).limit() == old(self).limit(),
    {
        if buf.len() > self.max_buffer_size || self.buffer.len() > self.max_buffer_size - buf.len() {
            return false;
        }
        let mut i: usize = 0;
        let ghost before = self.buffer@;
        while i < buf.len()
            invariant
                i <= buf@.len(),
                self.buffer@ == before + buf@.subrange(0, i as int),
                self.max_buffer_size == old(self).max_buffer_size,
            decreases buf@.len() - i,
        {
            self.buffer.push(buf[i]);
            i = i + 1;
        }
        assert(buf@.subrange(0, i as int) =~= buf@);
        true
    }

    /// Takes the pending bytes, leaving the buffer empty.
    pub fn take(&mut self) -> (data: Vec<u8>)
        ensures
            data@ == old(self).pending(),
            final(self).pending() == Seq::<u8>::empty(),
            final(self).limit() == old(self).limit(),
    {
        let mut data: Vec<u8> = Vec::new();
        std::mem::swap(&mut data, &mut self.buffer);
        data
    }
}

} // verus!
