//! The decisions of the first mock main board: which received messages it accepts, what it
//! answers, what it sends on each of its 67 timer ticks per cycle, and which client it
//! then clears to send. Reading, writing, timers and threads are left to the caller.

use std::sync::mpsc::SyncSender;
use std::time::{Duration, Instant};
use vstd::prelude::*;
use crate::common::transport::Transport;
use crate::messages::channel::{byte_of_channel, channel_of_byte, Channel, CLIENT_CTS_RANGE_LEN};
use crate::messages::clock::{duration_as_nanos, duration_from_millis, duration_nanos, instant_elapsed, instant_now};
use crate::messages::frame_encoder::frame_bytes;
use crate::messages::framing::{reader_accept, reader_can_accept, FramedReader, FramedWriter, ReaderView};
use crate::messages::message::{EncodeError, Message, MAX_PAYLOAD_LEN};
use crate::messages::message_types::{be16, kind_of, message_decodable, message_decoding, MessageType};
use crate::messages::settings::{InformationResponseMessage, SettingsRequestMessage};
use crate::messages::status_update::{status_v1_bytes, status_v1_encodable};
use crate::mock_mainboard::channel_tracker::{device_number, DeviceKey};
use crate::mock_mainboard::handling_error::{ErrorDetail, HandlingError};
use crate::mock_mainboard::main_board::{acknowledged_only, mock_information, mock_information_bytes};
use crate::mock_mainboard::mock_spa::{MockSpa, MockSpaState};
use crate::protocol::device_channels::{
    device_channel_pairs, table_get_by_left, table_get_by_right, table_insert, table_is_empty, table_len,
    table_new, DeviceTable,
};

verus! {

/// Milliseconds before the main board starts running normally, by default.
pub const DEFAULT_INIT_DELAY_MILLIS: u64 = 5000;

/// Milliseconds that a client has to answer a clear-to-send before it is dropped, by
/// default.
pub const DEFAULT_CLEAR_TO_SEND_WINDOW_MILLIS: u64 = 30;

/// Timer ticks in one cycle of the schedule.
pub const TICKS_PER_CYCLE: usize = 67;

/// A main board on a transport, before it runs.
pub struct MainBoard<R, W> {
    framed_reader: FramedReader,
    framed_writer: FramedWriter,
    raw_reader: R,
    raw_writer: W,
    init_delay: Duration,
    clear_to_send_window: Duration,
}

impl<R, W> MainBoard<R, W> {
    pub closed spec fn spec_init_delay(&self) -> Duration {
        self.init_delay
    }

    pub closed spec fn spec_clear_to_send_window(&self) -> Duration {
        self.clear_to_send_window
    }

    pub closed spec fn spec_raw_reader(&self) -> R {
        self.raw_reader
    }

    pub closed spec fn spec_raw_writer(&self) -> W {
        self.raw_writer
    }

    pub closed spec fn spec_reader(&self) -> ReaderView {
        self.framed_reader@
    }

    pub closed spec fn wf(&self) -> bool {
        self.framed_reader.wf()
    }

    /// A main board on the two halves of `transport`, with a 5 s initialization delay and
    /// a 30 ms clear-to-send window.
    pub fn new(transport: impl Transport<R, W>) -> (b: Self)
        ensures
            b.wf(),
            duration_nanos(b.spec_init_delay()) == DEFAULT_INIT_DELAY_MILLIS * 1_000_000,
            duration_nanos(b.spec_clear_to_send_window()) == DEFAULT_CLEAR_TO_SEND_WINDOW_MILLIS * 1_000_000,
    {
        let framed_reader = FramedReader::new();
        let framed_writer = FramedWriter::new();
        let (raw_reader, raw_writer) = transport.split();
        Self {
            framed_reader,
            framed_writer,
            raw_reader,
            raw_writer,
            init_delay: duration_from_millis(DEFAULT_INIT_DELAY_MILLIS),
            clear_to_send_window: duration_from_millis(DEFAULT_CLEAR_TO_SEND_WINDOW_MILLIS),
        }
    }

    /// The same board with initialization delay `init_delay`.
    pub fn set_init_delay(self, init_delay: Duration) -> (b: Self)
        ensures
            b.spec_init_delay() == init_delay,
            b.spec_clear_to_send_window() == self.spec_clear_to_send_window(),
            b.spec_raw_reader() == self.spec_raw_reader(),
            b.spec_raw_writer() == self.spec_raw_writer(),
            b.spec_reader() == self.spec_reader(),
            b.wf() == self.wf(),
    {
        let mut b = self;
        b.init_delay = init_delay;
        b
    }

    /// The same board with clear-to-send window `window`.
    pub fn set_clear_to_send_window(self, window: Duration) -> (b: Self)
        ensures
            b.spec_clear_to_send_window() == window,
            b.spec_init_delay() == self.spec_init_delay(),
            b.spec_raw_reader() == self.spec_raw_reader(),
            b.spec_raw_writer() == self.spec_raw_writer(),
            b.spec_reader() == self.spec_reader(),
            b.wf() == self.wf(),
    {
        let mut b = self;
        b.clear_to_send_window = window;
        b
    }

    /// Takes the board apart for running: the message reader over the byte source, the
    /// byte sink with its frame writer, the initialization delay, and the event handler's
    /// state.
    pub fn into_parts(self, message_tx: SyncSender<Event>) -> (parts: (MessageReader<R>, FramedWriter, W, Duration, MainBoardState))
        requires
            self.wf(),
        ensures
            parts.0.wf(),
            parts.0.reader() == self.spec_reader(),
            parts.0.source() == self.spec_raw_reader(),
            parts.2 == self.spec_raw_writer(),
            parts.3 == self.spec_init_delay(),
            parts.4.wf(),
            parts.4.spa().is_default(),
            parts.4.pairs().len() == 0,
            parts.4.authorized() is None,
            parts.4.tick() == 0,
            parts.4.window() == self.spec_clear_to_send_window(),
    {
        let reader = MessageReader {
            framed_reader: self.framed_reader,
            raw_reader: self.raw_reader,
            message_tx,
        };
        let state = MainBoardState::new(self.clear_to_send_window);
        (reader, self.framed_writer, self.raw_writer, self.init_delay, state)
    }
}

/// The timers of the event loop.
#[derive(Debug, PartialEq, Eq, Structural, Clone, Copy)]
pub enum TimerId {
    Update66Hz,
}

/// What the event loop hands to the event handler.
#[derive(Debug)]
pub enum Event {
    ReceivedMessage(TimeSensitiveMessage),
    ReadError,
    InitFinished,
    TimerTick(TimerId),
    Shutdown,
}

/// A received message and when it arrived.
#[derive(Debug)]
pub struct TimeSensitiveMessage {
    creation: Instant,
    message: Message,
}

impl TimeSensitiveMessage {
    pub closed spec fn spec_message(&self) -> Message {
        self.message
    }

    /// `message`, received now.
    pub fn from_now(message: Message) -> (m: Self)
        ensures
            m.spec_message() == message,
    {
        Self { creation: instant_now(), message }
    }

    /// The message that was received.
    pub fn message(&self) -> (m: &Message)
        ensures
            *m == self.spec_message(),
    {
        &self.message
    }
}

/// A message to send, and the channel then cleared to send, if any.
#[derive(Debug)]
pub struct SendMessage {
    pub message: Message,
    pub expect_reply_on: Option<Channel>,
}

impl SendMessage {
    /// `message`, clearing its own channel to send.
    pub fn expect_reply(message: Message) -> (s: Self)
        ensures
            s.message == message,
            s.expect_reply_on == Some(message.channel),
    {
        let channel = message.channel;
        Self { message, expect_reply_on: Some(channel) }
    }

    /// `message`, clearing `channel` to send.
    pub fn expect_reply_on_channel(message: Message, channel: Channel) -> (s: Self)
        ensures
            s.message == message,
            s.expect_reply_on == Some(channel),
    {
        Self { message, expect_reply_on: Some(channel) }
    }

    /// `message`, clearing nobody to send.
    pub fn no_reply(message: Message) -> (s: Self)
        ensures
            s.message == message,
            s.expect_reply_on is None,
    {
        Self { message, expect_reply_on: None }
    }
}

/// Calls `SyncSender::send`. Whether the event is delivered depends on the receiving side,
/// so nothing is claimed of the result.
#[verifier::external_body]
fn send_event(tx: &SyncSender<Event>, event: Event) -> bool {
    tx.send(event).is_ok()
}

/// Asks the running main board to stop.
pub struct ShutdownHandle {
    tx: SyncSender<Event>,
}

impl ShutdownHandle {
    /// The sender that shutdown requests go to.
    pub closed spec fn sender(&self) -> SyncSender<Event> {
        self.tx
    }

    pub fn new(tx: SyncSender<Event>) -> (h: Self)
        ensures
            h.sender() == tx,
    {
        Self { tx }
    }

    /// Sends a shutdown request; a main board that has stopped already is not an error.
    pub fn request_shutdown(&self) {
        let _ = send_event(&self.tx, Event::Shutdown);
    }
}

impl Drop for ShutdownHandle {
    /// Calls `SyncSender::send` with a shutdown request, as `request_shutdown` does.
    #[verifier::external_body]
    fn drop(&mut self)
        opens_invariants none
        no_unwind
    {
        let _ = self.tx.send(Event::Shutdown);
    }
}

/// Feeding bytes to a frame reader: the reader afterwards and the messages completed, or
/// `None` when some byte is one that the reader cannot take.
pub open spec fn reader_feed_checked(v: ReaderView, bytes: Seq<u8>) -> Option<(ReaderView, Seq<(Channel, u8, Seq<u8>)>)>
    decreases bytes.len(),
{
    if bytes.len() == 0 {
        Some((v, Seq::empty()))
    } else if !reader_can_accept(v, bytes[0]) {
        None
    } else {
        let (v1, r) = reader_accept(v, bytes[0]);
        match reader_feed_checked(v1, bytes.subrange(1, bytes.len() as int)) {
            None => None,
            Some((v2, rest)) => Some(
                (
                    v2,
                    match r {
                        Some(p) => seq![p] + rest,
                        None => rest,
                    },
                ),
            ),
        }
    }
}

/// Reads frames from a byte source and hands each message to the event loop.
pub struct MessageReader<R> {
    framed_reader: FramedReader,
    raw_reader: R,
    message_tx: SyncSender<Event>,
}

impl<R> MessageReader<R> {
    pub closed spec fn reader(&self) -> ReaderView {
        self.framed_reader@
    }

    pub closed spec fn source(&self) -> R {
        self.raw_reader
    }

    pub closed spec fn wf(&self) -> bool {
        self.framed_reader.wf()
    }

    /// The byte source, for reading the next chunk.
    pub fn raw_reader_mut(&mut self) -> (r: &mut R)
        ensures
            *r == old(self).source(),
            final(self).source() == *final(r),
            final(self).reader() == old(self).reader(),
            final(self).wf() == old(self).wf(),
    {
        &mut self.raw_reader
    }

    /// Passes an event to the event loop; `false` when the loop has gone.
    pub fn send(&self, event: Event) -> bool {
        send_event(&self.message_tx, event)
    }

    /// Feeds a chunk of received bytes to the frame reader and returns the messages it
    /// completes, in order; `Err` with the position of the first byte that the reader
    /// cannot take (a length byte of 1, or an error count at its maximum), where the
    /// reader would overflow.
    pub fn handle_data(&mut self, data: &[u8]) -> (result: Result<Vec<Message>, usize>)
        requires
            old(self).wf(),
        ensures
            final(self).wf(),
            final(self).source() == old(self).source(),
            match reader_feed_checked(old(self).reader(), data@) {
                Some((v, parts)) => result matches Ok(messages) && final(self).reader() == v
                    && messages@.map_values(|m: Message| m.parts()) == parts,
                None => result is Err,
            },
    {
        let ghost start = self.framed_reader@;
        let mut messages: Vec<Message> = Vec::new();
        let mut i: usize = 0;
        proof {
            assert(data@.subrange(0, data@.len() as int) =~= data@);
            match reader_feed_checked(start, data@) {
                None => {},
                Some((v, rest)) => {
                    assert(messages@.map_values(|m: Message| m.parts()) + rest =~= rest);
                },
            }
        }
        while i < data.len()
            invariant
                self.framed_reader.wf(),
                i <= data@.len(),
                reader_feed_checked(start, data@) == match reader_feed_checked(
                    self.framed_reader@,
                    data@.subrange(i as int, data@.len() as int),
                ) {
                    None => None,
                    Some((v, rest)) => Some((v, messages@.map_values(|m: Message| m.parts()) + rest)),
                },
                self.raw_reader == old(self).raw_reader,
                start == old(self).framed_reader@,
            decreases data@.len() - i,
        {
            let byte = data[i];
            let ghost before = self.framed_reader@;
            let ghost tail = data@.subrange(i as int, data@.len() as int);
            assert(tail[0] == byte);
            assert(tail.subrange(1, tail.len() as int) =~= data@.subrange(i + 1, data@.len() as int));
            if !self.framed_reader.can_accept(byte) {
                proof {
                    assert(reader_feed_checked(before, tail) is None);
                }
                return Err(i);
            }
            let accepted = self.framed_reader.accept(byte);
            match accepted {
                Some(m) => {
                    let ghost prev = messages@;
                    messages.push(m);
                    proof {
                        assert(messages@.map_values(|m: Message| m.parts()) =~= prev.map_values(|m: Message| m.parts()).push(m.parts()));
                        match reader_feed_checked(self.framed_reader@, data@.subrange(i + 1, data@.len() as int)) {
                            None => {},
                            Some((v, rest)) => {
                                assert(messages@.map_values(|m: Message| m.parts()) + rest =~= prev.map_values(|m: Message| m.parts()) + (seq![m.parts()] + rest));
                            },
                        }
                    }
                },
                None => {},
            }
            i = i + 1;
        }
        proof {
            assert(data@.subrange(i as int, data@.len() as int) =~= Seq::<u8>::empty());
            assert(messages@.map_values(|m: Message| m.parts()) + Seq::empty() =~= messages@.map_values(|m: Message| m.parts()));
        }
        Ok(messages)
    }
}

/// Who was last cleared to send, and when.
#[derive(Debug)]
pub struct AuthorizedSender {
    authorized_at: Instant,
    channel: Channel,
}

impl AuthorizedSender {
    pub closed spec fn channel(&self) -> Channel {
        self.channel
    }
}

/// The event handler's state: the simulated spa, the table of devices and channels, the
/// client cleared to send, the tick of the current cycle and the clear-to-send window.
pub struct MainBoardState {
    mock_spa: MockSpa,
    channels: DeviceTable,
    authorized_sender: Option<AuthorizedSender>,
    timer_tick: usize,
    clear_to_send_window: Duration,
}

/// The channel that a device with number `n` gets: the one it holds, else the next client
/// channel while fewer than 32 are held.
pub open spec fn assigned_channel(pairs: Map<u32, u8>, n: u32) -> Option<Channel> {
    if pairs.contains_key(n) {
        Some(channel_of_byte(pairs[n]))
    } else if pairs.len() < CLIENT_CTS_RANGE_LEN {
        Some(Channel::Client((0x10 + pairs.len()) as u8))
    } else {
        None
    }
}

/// The table after device `n` asked for a channel: unchanged when it holds one or when
/// all 32 are taken; otherwise the next channel byte is paired with `n` (and taken from
/// any device that held it).
pub open spec fn pairs_after_request(pairs: Map<u32, u8>, n: u32) -> Map<u32, u8> {
    if !pairs.contains_key(n) && pairs.len() < CLIENT_CTS_RANGE_LEN {
        let b = (0x10 + pairs.len()) as u8;
        pairs.restrict(pairs.dom().filter(|k: u32| k != n && pairs[k] != b)).insert(n, b)
    } else {
        pairs
    }
}

/// No two devices hold the same channel byte.
pub open spec fn one_channel_per_device(pairs: Map<u32, u8>) -> bool {
    forall|a: u32, b: u32| #[trigger] pairs.contains_key(a) && #[trigger] pairs.contains_key(b) && a != b ==> pairs[a] != pairs[b]
}

/// A device that asks again for a channel gets the one it was given, and asking again
/// changes nothing; no two devices ever share a channel.
pub proof fn lemma_channel_assignment_stable(pairs: Map<u32, u8>, n: u32)
    requires
        pairs.dom().finite(),
        assigned_channel(pairs, n) is Some,
    ensures
        assigned_channel(pairs_after_request(pairs, n), n) == assigned_channel(pairs, n),
        pairs_after_request(pairs_after_request(pairs, n), n) == pairs_after_request(pairs, n),
        one_channel_per_device(pairs) ==> one_channel_per_device(pairs_after_request(pairs, n)),
{
    let after = pairs_after_request(pairs, n);
    if !pairs.contains_key(n) {
        let b = (0x10 + pairs.len()) as u8;
        assert(after.contains_key(n) && after[n] == b);
        assert(channel_of_byte(b) == Channel::Client(b));
    }
}

/// Whether some device holds channel byte `b`.
pub open spec fn holds_channel_byte(pairs: Map<u32, u8>, b: u8) -> bool {
    exists|left: u32| #[trigger] pairs.contains_key(left) && pairs[left] == b
}

/// The check of a received message on `channel`: client channels must be held, and must be
/// the one cleared to send, within its window (`expired` tells whether it has closed); the
/// channel-assignment channel is always accepted; other channels are refused.
pub open spec fn validate_verdict(pairs: Map<u32, u8>, authorized: Option<Channel>, channel: Channel, expired: bool) -> Result<(), HandlingError> {
    match channel {
        Channel::Client(_) => {
            if !holds_channel_byte(pairs, byte_of_channel(channel)) {
                Err(HandlingError::ClientNeedsReconnect(ErrorDetail::UnassignedChannel(channel)))
            } else {
                match authorized {
                    Some(a) => if a != channel {
                        Err(HandlingError::ClientNeedsReconnect(ErrorDetail::WaitingForSender(Some(a))))
                    } else if expired {
                        Err(HandlingError::ClientNeedsReconnect(ErrorDetail::WindowExpired(channel)))
                    } else {
                        Ok(())
                    },
                    None => Err(HandlingError::ClientNeedsReconnect(ErrorDetail::NoAuthorizedSenders)),
                }
            }
        },
        Channel::MulticastChannelAssignment => Ok(()),
        _ => Err(HandlingError::ClientUnsupported(ErrorDetail::UnexpectedChannel(channel))),
    }
}

/// What answering `parsed`, received on `src`, gives: a channel assignment, the
/// information, nothing for other settings requests and for messages only taken note of,
/// or an error for messages that a main board does not receive.
pub open spec fn protocol_answers(pairs: Map<u32, u8>, parsed: MessageType, src: Channel, result: Result<Option<SendMessage>, HandlingError>) -> bool {
    match parsed {
        MessageType::ChannelAssignmentRequest { device_type, client_hash } => match assigned_channel(
            pairs,
            device_number(DeviceKey { device_type, client_hash }),
        ) {
            Some(ch) => result matches Ok(Some(s)) && s.expect_reply_on == Some(ch) && s.message.parts() == (
                Channel::MulticastChannelAssignment,
                0x02u8,
                seq![byte_of_channel(ch)] + be16(client_hash),
            ),
            None => result == Err::<Option<SendMessage>, HandlingError>(
                HandlingError::ClientNeedsReconnect(ErrorDetail::ChannelOverflow),
            ),
        },
        MessageType::SettingsRequest(SettingsRequestMessage::Information) => result matches Ok(Some(s))
            && s.expect_reply_on is None && s.message.parts() == (src, 0x24u8, mock_information_bytes()),
        MessageType::SettingsRequest(_) => result == Ok::<Option<SendMessage>, HandlingError>(None),
        _ => if acknowledged_only(parsed) {
            result == Ok::<Option<SendMessage>, HandlingError>(None)
        } else {
            result == Err::<Option<SendMessage>, HandlingError>(
                HandlingError::ClientUnsupported(ErrorDetail::UnsupportedMessage(kind_of(parsed))),
            )
        },
    }
}

/// The tick that follows `tick`: ticks run 1 to 67 and start over.
pub open spec fn next_timer_tick(tick: usize) -> usize {
    ((if tick >= TICKS_PER_CYCLE { 0 } else { tick }) + 1) as usize
}

/// The message of tick `tick` when nobody is cleared to send: new-client clear-to-send on
/// tick 1, the status of `spa` (at some time of day) on tick 2, then clear-to-send to the
/// clients in turn.
pub open spec fn timer_message(tick: usize, num_channels: nat, spa: MockSpa, result: Result<Option<SendMessage>, HandlingError>) -> bool {
    if tick == 1 {
        result matches Ok(Some(s)) && s.expect_reply_on is None && s.message.parts() == (
            Channel::MulticastChannelAssignment,
            0x00u8,
            Seq::<u8>::empty(),
        )
    } else if tick == 2 {
        result matches Ok(Some(s)) && s.expect_reply_on is None && s.message.channel
            == Channel::MulticastBroadcast && s.message.message_type == 0x13
            && spa.status_payload(s.message.payload@)
    } else if num_channels == 0 {
        result == Ok::<Option<SendMessage>, HandlingError>(None)
    } else {
        let index = (tick - 2) % (num_channels as int);
        if index < CLIENT_CTS_RANGE_LEN {
            let target = Channel::Client((0x10 + index) as u8);
            result matches Ok(Some(s)) && s.expect_reply_on == Some(target) && s.message.parts() == (
                target,
                0x06u8,
                Seq::<u8>::empty(),
            )
        } else {
            result == Err::<Option<SendMessage>, HandlingError>(
                HandlingError::FatalError(ErrorDetail::ChannelOverflow),
            )
        }
    }
}

impl MainBoardState {
    pub closed spec fn spa(&self) -> MockSpa {
        self.mock_spa
    }

    pub closed spec fn pairs(&self) -> Map<u32, u8> {
        device_channel_pairs(self.channels)
    }

    pub closed spec fn authorized(&self) -> Option<Channel> {
        match self.authorized_sender {
            Some(a) => Some(a.channel),
            None => None,
        }
    }

    pub closed spec fn tick(&self) -> usize {
        self.timer_tick
    }

    pub closed spec fn window(&self) -> Duration {
        self.clear_to_send_window
    }

    /// The tick stays within a cycle and the table is finite.
    pub closed spec fn wf(&self) -> bool {
        &&& self.timer_tick <= TICKS_PER_CYCLE
        &&& device_channel_pairs(self.channels).dom().finite()
    }

    /// A fresh state: a default spa, no channels, nobody cleared, tick 0.
    pub fn new(clear_to_send_window: Duration) -> (s: Self)
        ensures
            s.wf(),
            s.spa().is_default(),
            s.pairs().len() == 0,
            s.authorized() is None,
            s.tick() == 0,
            s.window() == clear_to_send_window,
    {
        let channels = table_new();
        proof {
            assert(device_channel_pairs(channels).dom() =~= Set::<u32>::empty());
        }
        Self {
            mock_spa: MockSpa::new(),
            channels,
            authorized_sender: None,
            timer_tick: 0,
            clear_to_send_window,
        }
    }

    /// Checks a received message against the channel table and clear-to-send; the client
    /// cleared to send is forgotten either way.
    pub fn validate_message(&mut self, message: &Message) -> (result: Result<(), HandlingError>)
        requires
            old(self).wf(),
        ensures
            final(self).wf(),
            final(self).authorized() is None,
            final(self).spa() == old(self).spa(),
            final(self).pairs() == old(self).pairs(),
            final(self).tick() == old(self).tick(),
            final(self).window() == old(self).window(),
            exists|elapsed: Duration| result == validate_verdict(
                old(self).pairs(),
                old(self).authorized(),
                message.channel,
                #[trigger] duration_nanos(elapsed) > duration_nanos(old(self).window()),
            ),
    {
        let authorized_sender = self.authorized_sender.take();
        let channel = message.channel;
        let ghost mut witness: Duration = self.clear_to_send_window;
        let (authorized, expired) = match authorized_sender {
            Some(a) => {
                let expired = if a.channel == channel {
                    let elapsed = instant_elapsed(&a.authorized_at);
                    proof {
                        witness = elapsed;
                    }
                    duration_as_nanos(&elapsed) > duration_as_nanos(&self.clear_to_send_window)
                } else {
                    false
                };
                (Some(a.channel), expired)
            },
            None => (None, false),
        };
        let result = self.message_verdict(authorized, channel, expired);
        assert(expired == (duration_nanos(witness) > duration_nanos(self.clear_to_send_window)));
        result
    }

    /// The verdict on a message received on `channel` while `authorized` is cleared to send,
    /// when its window has (`expired`) or has not passed (see `validate_verdict`).
    pub fn message_verdict(&self, authorized: Option<Channel>, channel: Channel, expired: bool) -> (result: Result<(), HandlingError>)
        requires
            self.wf(),
        ensures
            result == validate_verdict(self.pairs(), authorized, channel, expired),
    {
        match channel {
            Channel::Client(_) => {
                match table_get_by_right(&self.channels, u8::from(&channel)) {
                    None => {
                        return Err(HandlingError::ClientNeedsReconnect(ErrorDetail::UnassignedChannel(channel)));
                    },
                    Some(left) => {
                        proof {
                            assert(self.pairs().contains_key(left) && self.pairs()[left] == byte_of_channel(channel));
                        }
                    },
                }
                match authorized {
                    Some(a) => {
                        if a != channel {
                            return Err(HandlingError::ClientNeedsReconnect(ErrorDetail::WaitingForSender(Some(a))));
                        }
                        if expired {
                            return Err(HandlingError::ClientNeedsReconnect(ErrorDetail::WindowExpired(channel)));
                        }
                        Ok(())
                    },
                    None => Err(HandlingError::ClientNeedsReconnect(ErrorDetail::NoAuthorizedSenders)),
                }
            },
            Channel::MulticastChannelAssignment => Ok(()),
            _ => Err(HandlingError::ClientUnsupported(ErrorDetail::UnexpectedChannel(channel))),
        }
    }

    /// The answer to a parsed message received on `src_channel` (see `protocol_answers`); a
    /// device that asks for a channel for the first time is given the next one.
    pub fn handle_and_generate_response(&mut self, src_channel: Channel, parsed: MessageType) -> (result: Result<Option<SendMessage>, HandlingError>)
        requires
            old(self).wf(),
        ensures
            final(self).wf(),
            final(self).spa() == old(self).spa(),
            final(self).authorized() == old(self).authorized(),
            final(self).tick() == old(self).tick(),
            final(self).window() == old(self).window(),
            protocol_answers(old(self).pairs(), parsed, src_channel, result),
            final(self).pairs() == match parsed {
                MessageType::ChannelAssignmentRequest { device_type, client_hash } => pairs_after_request(
                    old(self).pairs(),
                    device_number(DeviceKey { device_type, client_hash }),
                ),
                _ => old(self).pairs(),
            },
    {
        match parsed {
            MessageType::ChannelAssignmentRequest { device_type, client_hash } => {
                let key = DeviceKey { device_type, client_hash };
                let n = ((device_type as u32) * 0x10000 + (client_hash as u32)) as u32;
                assert(n == device_number(key));
                let selected_channel = match table_get_by_left(&self.channels, n) {
                    Some(b) => Channel::from(b),
                    None => {
                        let len = table_len(&self.channels);
                        if len >= CLIENT_CTS_RANGE_LEN {
                            return Err(HandlingError::ClientNeedsReconnect(ErrorDetail::ChannelOverflow));
                        }
                        let channel = match Channel::new_client_channel(len) {
                            Ok(c) => c,
                            Err(_) => {
                                return Err(HandlingError::ClientNeedsReconnect(ErrorDetail::ChannelOverflow));
                            },
                        };
                        let ghost before = device_channel_pairs(self.channels);
                        table_insert(&mut self.channels, n, u8::from(&channel));
                        proof {
                            let after = device_channel_pairs(self.channels);
                            let kept = before.dom().filter(|k: u32| k != n && before[k] != byte_of_channel(channel));
                            assert(kept.subset_of(before.dom()));
                            vstd::set_lib::lemma_len_subset(kept, before.dom());
                            assert(after.dom() =~= kept.insert(n));
                        }
                        channel
                    },
                };
                let response = MessageType::ChannelAssignmentResponse { channel: selected_channel, client_hash };
                match response.to_message(Channel::MulticastChannelAssignment) {
                    Ok(m) => Ok(Some(SendMessage::expect_reply_on_channel(m, selected_channel))),
                    Err(_) => {
                        proof {
                            assert(false);
                        }
                        Err(HandlingError::ClientUnsupported(ErrorDetail::PayloadEncode))
                    },
                }
            },
            MessageType::SettingsRequest(settings) => match settings {
                SettingsRequestMessage::Information => {
                    let info = mock_information();
                    match MessageType::InformationResponse(info).to_message(src_channel) {
                        Ok(m) => Ok(Some(SendMessage::no_reply(m))),
                        Err(_) => {
                            proof {
                                assert(false);
                            }
                            Err(HandlingError::ClientUnsupported(ErrorDetail::PayloadEncode))
                        },
                    }
                },
                _ => Ok(None),
            },
            MessageType::ChannelAssignmentAck() => Ok(None),
            MessageType::NothingToSend() => Ok(None),
            MessageType::ToggleItemRequest { .. } => Ok(None),
            MessageType::SetTemperatureRequest { .. } => Ok(None),
            MessageType::SetTimeRequest { .. } => Ok(None),
            MessageType::FilterCycles { .. } => Ok(None),
            MessageType::SetPreferenceRequest(_) => Ok(None),
            MessageType::ChangeSetupRequest { .. } => Ok(None),
            MessageType::LockRequest(_) => Ok(None),
            MessageType::ToggleTestSettingRequest(_) => Ok(None),
            other => Err(HandlingError::ClientUnsupported(ErrorDetail::UnsupportedMessage(other.kind()))),
        }
    }

    /// Handles a received message: checks it (see `validate_verdict`), then decodes and
    /// answers it; a payload that does not decode makes the client unsupported.
    pub fn handle_message(&mut self, bundle: &TimeSensitiveMessage) -> (result: Result<Option<SendMessage>, HandlingError>)
        requires
            old(self).wf(),
            message_decodable(bundle.spec_message().message_type, bundle.spec_message().payload@),
        ensures
            final(self).wf(),
            final(self).spa() == old(self).spa(),
            final(self).authorized() is None,
            final(self).tick() == old(self).tick(),
            final(self).window() == old(self).window(),
            exists|elapsed: Duration| {
                let verdict = validate_verdict(
                    old(self).pairs(),
                    old(self).authorized(),
                    bundle.spec_message().channel,
                    #[trigger] duration_nanos(elapsed) > duration_nanos(old(self).window()),
                );
                match verdict {
                    Err(e) => result == Err::<Option<SendMessage>, HandlingError>(e) && final(self).pairs() == old(self).pairs(),
                    Ok(_) => exists|parsed: Result<MessageType, crate::messages::payload_error::PayloadParseError>| {
                        &&& #[trigger] message_decoding(bundle.spec_message().message_type, bundle.spec_message().payload@, parsed)
                        &&& match parsed {
                            Err(pe) => result == Err::<Option<SendMessage>, HandlingError>(
                                HandlingError::ClientUnsupported(ErrorDetail::PayloadParse(pe)),
                            ),
                            Ok(p) => protocol_answers(old(self).pairs(), p, bundle.spec_message().channel, result),
                        }
                    },
                }
            },
    {
        let message = bundle.message();
        match self.validate_message(message) {
            Err(e) => {
                return Err(e);
            },
            Ok(_) => {},
        }
        let parsed = MessageType::from_message(message);
        proof {
            assert(message_decoding(message.message_type, message.payload@, parsed));
        }
        match parsed {
            Ok(p) => self.handle_and_generate_response(message.channel, p),
            Err(e) => Err(HandlingError::ClientUnsupported(ErrorDetail::PayloadParse(e))),
        }
    }

    /// Handles a timer tick: the tick advances (1 to 67, then over again). A client cleared
    /// to send keeps the line until its window closes, when it is forgotten; otherwise the
    /// tick's message is sent (see `timer_message`). Whether the window has closed is that
    /// of `handle_timer_with` for the time elapsed since the clearance.
    pub fn handle_timer(&mut self, timer_id: TimerId) -> (result: Result<Option<SendMessage>, HandlingError>)
        requires
            old(self).wf(),
        ensures
            final(self).wf(),
            final(self).spa() == old(self).spa(),
            final(self).pairs() == old(self).pairs(),
            final(self).window() == old(self).window(),
            final(self).tick() == next_timer_tick(old(self).tick()),
            match old(self).authorized() {
                Some(_) => result == Ok::<Option<SendMessage>, HandlingError>(None)
                    && (final(self).authorized() is None || final(self).authorized() == old(self).authorized()),
                None => final(self).authorized() is None && timer_message(final(self).tick(), old(self).pairs().len(), old(self).spa(), result),
            },
    {
        let window_passed = match &self.authorized_sender {
            Some(authorized) => {
                let elapsed = instant_elapsed(&authorized.authorized_at);
                duration_as_nanos(&elapsed) > duration_as_nanos(&self.clear_to_send_window)
            },
            None => false,
        };
        self.handle_timer_with(timer_id, window_passed)
    }

    /// A timer tick when the window of the client cleared to send has (`window_passed`) or
    /// has not closed: the tick advances (1 to 67, then over again); a client cleared to
    /// send keeps the line, and is forgotten once its window has passed; otherwise the
    /// tick's message is sent (see `timer_message`).
    pub fn handle_timer_with(&mut self, timer_id: TimerId, window_passed: bool) -> (result: Result<Option<SendMessage>, HandlingError>)
        requires
            old(self).wf(),
        ensures
            final(self).wf(),
            final(self).spa() == old(self).spa(),
            final(self).pairs() == old(self).pairs(),
            final(self).window() == old(self).window(),
            final(self).tick() == next_timer_tick(old(self).tick()),
            match old(self).authorized() {
                Some(_) => result == Ok::<Option<SendMessage>, HandlingError>(None)
                    && final(self).authorized() == (if window_passed { None } else { old(self).authorized() }),
                None => final(self).authorized() is None && timer_message(final(self).tick(), old(self).pairs().len(), old(self).spa(), result),
            },
    {
        match timer_id {
            TimerId::Update66Hz => {
                if self.timer_tick >= TICKS_PER_CYCLE {
                    self.timer_tick = 0;
                }
                self.timer_tick = self.timer_tick + 1;
                match &self.authorized_sender {
                    Some(_) => {
                        if window_passed {
                            self.authorized_sender = None;
                        }
                        Ok(None)
                    },
                    None => {
                        let tick = self.timer_tick;
                        if tick == 1 {
                            match MessageType::NewClientClearToSend().to_message(Channel::MulticastChannelAssignment) {
                                Ok(m) => Ok(Some(SendMessage::no_reply(m))),
                                Err(_) => {
                                    proof {
                                        assert(false);
                                    }
                                    Err(HandlingError::ClientUnsupported(ErrorDetail::PayloadEncode))
                                },
                            }
                        } else if tick == 2 {
                            let status = self.mock_spa.as_status();
                            proof {
                                assert(status_v1_encodable(status.v1));
                            }
                            let ghost v1 = status.v1;
                            match MessageType::StatusUpdate(status).to_message(Channel::MulticastBroadcast) {
                                Ok(m) => {
                                    assert(status_v1_bytes(v1) == m.payload@);
                                    assert(self.mock_spa.status_payload(m.payload@));
                                    Ok(Some(SendMessage::no_reply(m)))
                                },
                                Err(_) => {
                                    proof {
                                        assert(false);
                                    }
                                    Err(HandlingError::ClientUnsupported(ErrorDetail::PayloadEncode))
                                },
                            }
                        } else if table_is_empty(&self.channels) {
                            Ok(None)
                        } else {
                            let num_channels = table_len(&self.channels);
                            let client_index = (tick - 2) % num_channels;
                            if client_index >= CLIENT_CTS_RANGE_LEN {
                                return Err(HandlingError::FatalError(ErrorDetail::ChannelOverflow));
                            }
                            let target = match Channel::new_client_channel(client_index) {
                                Ok(c) => c,
                                Err(_) => {
                                    return Err(HandlingError::FatalError(ErrorDetail::ChannelOverflow));
                                },
                            };
                            match MessageType::ClearToSend().to_message(target) {
                                Ok(m) => Ok(Some(SendMessage::expect_reply(m))),
                                Err(_) => {
                                    proof {
                                        assert(false);
                                    }
                                    Err(HandlingError::ClientUnsupported(ErrorDetail::PayloadEncode))
                                },
                            }
                        }
                    },
                }
            },
        }
    }

    /// Gets `send` ready to go out: its frame, after which the channel it expects a reply
    /// on is the one cleared to send, from now. A payload too long for a frame is refused.
    pub fn prepare_send(&mut self, send: SendMessage) -> (result: Result<Vec<u8>, HandlingError>)
        requires
            old(self).wf(),
        ensures
            final(self).wf(),
            final(self).spa() == old(self).spa(),
            final(self).pairs() == old(self).pairs(),
            final(self).tick() == old(self).tick(),
            final(self).window() == old(self).window(),
            send.message.payload.len() <= MAX_PAYLOAD_LEN ==> {
                &&& result matches Ok(frame) && frame@ == frame_bytes(send.message.spec_bytes())
                &&& final(self).authorized() == send.expect_reply_on
            },
            send.message.payload.len() > MAX_PAYLOAD_LEN ==> {
                &&& result == Err::<Vec<u8>, HandlingError>(
                    HandlingError::ClientUnsupported(ErrorDetail::ReplyTooLong(send.message.payload.len())),
                )
                &&& final(self).authorized() == old(self).authorized()
            },
    {
        let encoded = match FramedWriter::new().encode(&send.message) {
            Ok(frame) => frame,
            Err(EncodeError::MessageTooLong(size)) => {
                return Err(HandlingError::ClientUnsupported(ErrorDetail::ReplyTooLong(size)));
            },
        };
        self.authorized_sender = match send.expect_reply_on {
            Some(channel) => Some(AuthorizedSender { authorized_at: instant_now(), channel }),
            None => None,
        };
        Ok(encoded)
    }

    /// Handles one event of the event loop: a message or a timer tick as above, the end of
    /// initialization (the spa starts heating), a read error (fatal) or a shutdown request.
    pub fn handle_event(&mut self, event: Event) -> (result: Result<Option<SendMessage>, HandlingError>)
        requires
            old(self).wf(),
            event matches Event::ReceivedMessage(m) ==> message_decodable(
                m.spec_message().message_type,
                m.spec_message().payload@,
            ),
        ensures
            final(self).wf(),
            event is ReadError ==> result == Err::<Option<SendMessage>, HandlingError>(
                HandlingError::FatalError(ErrorDetail::TransportFailure),
            ),
            event is Shutdown ==> result == Err::<Option<SendMessage>, HandlingError>(HandlingError::ShutdownRequested),
            event is InitFinished ==> result == Ok::<Option<SendMessage>, HandlingError>(None)
                && final(self).spa().run_state == MockSpaState::Heating,
            event is TimerTick ==> final(self).tick() == next_timer_tick(old(self).tick()),
            event is ReceivedMessage ==> final(self).authorized() is None,
    {
        match event {
            Event::ReceivedMessage(bundle) => self.handle_message(&bundle),
            Event::ReadError => Err(HandlingError::FatalError(ErrorDetail::TransportFailure)),
            Event::TimerTick(timer_id) => self.handle_timer(timer_id),
            Event::InitFinished => {
                self.mock_spa.run_state = MockSpaState::Heating;
                Ok(None)
            },
            Event::Shutdown => Err(HandlingError::ShutdownRequested),
        }
    }
}

} // verus!
