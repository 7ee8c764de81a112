//! How a client gets its channel from the main board: it answers a new-client
//! clear-to-send with a channel assignment request, waits for the response that carries
//! its own hash, and acknowledges it on the assigned channel. Without a response within
//! two seconds it asks again at the next new-client clear-to-send.

use std::time::{Duration, Instant};
use vstd::prelude::*;
use crate::common::channel_filter::{filter_result, ChannelFilter, FilterResult};
use crate::messages::channel::{byte_of_channel, Channel};
use crate::messages::clock::{duration_as_nanos, duration_nanos, instant_elapsed, instant_now};
use crate::messages::message::Message;
use crate::messages::message_types::{be16, MessageType};

verus! {

/// Nanoseconds after a channel assignment request before a new one is made.
pub const NEW_CLIENT_RETRY_WAIT_NANOS: u128 = 2_000_000_000;

/// The identity a client presents when it asks for a channel.
#[derive(Debug, PartialEq, Eq, Structural, Clone, Copy)]
pub struct ClientIdent {
    pub device_type: u8,
    pub client_hash: u16,
}

impl Default for ClientIdent {
    fn default() -> (c: Self)
        ensures
            c.device_type == 0,
            c.client_hash == 0,
    {
        Self { device_type: 0, client_hash: 0 }
    }
}

/// The client's identity and the channel it got, until taken.
#[derive(Debug)]
pub struct CtsContext {
    client_ident: ClientIdent,
    got_channel: Option<Channel>,
}

impl CtsContext {
    pub closed spec fn ident(&self) -> ClientIdent {
        self.client_ident
    }

    pub closed spec fn got(&self) -> Option<Channel> {
        self.got_channel
    }
}

impl Default for CtsContext {
    fn default() -> (c: Self)
        ensures
            c.ident() == (ClientIdent { device_type: 0, client_hash: 0 }),
            c.got() is None,
    {
        Self { client_ident: ClientIdent::default(), got_channel: None }
    }
}

/// The state in which a client starts: waiting for a new-client clear-to-send.
#[derive(Debug, Default)]
pub struct StateWaitingForNewClientCTS;

/// The states of getting a channel.
#[derive(Debug, PartialEq, Eq, Structural, Clone, Copy)]
pub enum CtsStateKind {
    WaitingForNewClientCTS,
    WaitingForChannelAssignment,
    ChannelAssigned,
}

/// A state with what it remembers: when the request was made, or the channel assigned.
#[derive(Debug)]
enum CtsState {
    WaitingForNewClientCTS(StateWaitingForNewClientCTS),
    WaitingForChannelAssignment { ident: ClientIdent, requested_at: Instant },
    ChannelAssigned(Channel),
}

/// A state as plain values: its kind, the identity a pending request was made with, and
/// the channel once assigned.
pub struct CtsStateView {
    pub kind: CtsStateKind,
    pub ident: ClientIdent,
    pub channel: Option<Channel>,
}

/// Why handling a message failed.
#[derive(Debug)]
pub enum MessageHandlingError {
    /// Unrecoverable; the reply could not be encoded.
    FatalError(String),
}

/// One message handled in state `s` by a client with identity `me`, with `retry_due` telling
/// whether two seconds have passed since the pending request: the state afterwards, the
/// channel, type and payload of the reply, if any, and the channel obtained, if any.
pub open spec fn cts_step(s: CtsStateView, me: ClientIdent, channel: Channel, mt: MessageType, retry_due: bool) -> (CtsStateView, Option<(Channel, u8, Seq<u8>)>, Option<Channel>) {
    match s.kind {
        CtsStateKind::WaitingForNewClientCTS => match (channel, mt) {
            (Channel::MulticastChannelAssignment, MessageType::NewClientClearToSend()) => (
                CtsStateView { kind: CtsStateKind::WaitingForChannelAssignment, ident: me, channel: None },
                Some((Channel::MulticastChannelAssignment, 0x01u8, seq![me.device_type] + be16(me.client_hash))),
                None,
            ),
            _ => (s, None, None),
        },
        CtsStateKind::WaitingForChannelAssignment => match (channel, mt) {
            (Channel::MulticastChannelAssignment, MessageType::NewClientClearToSend()) => if retry_due {
                (CtsStateView { kind: CtsStateKind::WaitingForNewClientCTS, ident: me, channel: None }, None, None)
            } else {
                (s, None, None)
            },
            (Channel::MulticastChannelAssignment, MessageType::ChannelAssignmentResponse { channel: c, client_hash }) => {
                if s.ident.client_hash == client_hash {
                    (
                        CtsStateView { kind: CtsStateKind::ChannelAssigned, ident: me, channel: Some(c) },
                        Some((c, 0x03u8, Seq::<u8>::empty())),
                        Some(c),
                    )
                } else {
                    (s, None, None)
                }
            },
            _ => (s, None, None),
        },
        CtsStateKind::ChannelAssigned => (s, None, None),
    }
}

/// A client obtains a channel only while waiting for its assignment, only from a response
/// on the channel-assignment channel that carries the hash it asked with, and then
/// acknowledges on that channel; once assigned, it ignores every message.
pub proof fn lemma_channel_only_from_own_response(s: CtsStateView, me: ClientIdent, channel: Channel, mt: MessageType, retry_due: bool)
    ensures
        cts_step(s, me, channel, mt, retry_due).2 matches Some(c) ==> {
            &&& s.kind == CtsStateKind::WaitingForChannelAssignment
            &&& channel == Channel::MulticastChannelAssignment
            &&& mt == (MessageType::ChannelAssignmentResponse { channel: c, client_hash: s.ident.client_hash })
            &&& cts_step(s, me, channel, mt, retry_due).1 == Some((c, 0x03u8, Seq::<u8>::empty()))
            &&& cts_step(s, me, channel, mt, retry_due).0.channel == Some(c)
        },
        s.kind == CtsStateKind::ChannelAssigned ==> cts_step(s, me, channel, mt, retry_due) == (s, None::<(Channel, u8, Seq<u8>)>, None::<Channel>),
{
}

/// Whether handling `mt` on `channel` took the machine from `before` to `after` with
/// `result` as `cts_step` says, for the given answer to whether the retry wait is over.
pub open spec fn cts_outcome(
    before: CtsStateMachine,
    after: CtsStateMachine,
    channel: Channel,
    mt: MessageType,
    retry_due: bool,
    result: Result<Option<Message>, MessageHandlingError>,
) -> bool {
    let (next, reply, got) = cts_step(before.view_state(), before.ctx().ident(), channel, mt, retry_due);
    &&& after.view_state() == next
    &&& after.ctx().got() == (if got is Some { got } else { before.ctx().got() })
    &&& match reply {
        Some(parts) => result matches Ok(Some(m)) && m.parts() == parts,
        None => result matches Ok(None),
    }
}

/// The client side of channel assignment, driven by the messages it receives.
#[derive(Debug)]
pub struct CtsStateMachine {
    state: CtsState,
    context: CtsContext,
    channel_filter: ChannelFilter,
}

impl CtsStateMachine {
    pub closed spec fn view_state(&self) -> CtsStateView {
        match self.state {
            CtsState::WaitingForNewClientCTS(_) => CtsStateView {
                kind: CtsStateKind::WaitingForNewClientCTS,
                ident: self.context.client_ident,
                channel: None,
            },
            CtsState::WaitingForChannelAssignment { ident, .. } => CtsStateView {
                kind: CtsStateKind::WaitingForChannelAssignment,
                ident,
                channel: None,
            },
            CtsState::ChannelAssigned(c) => CtsStateView {
                kind: CtsStateKind::ChannelAssigned,
                ident: self.context.client_ident,
                channel: Some(c),
            },
        }
    }

    pub closed spec fn filter(&self) -> ChannelFilter {
        self.channel_filter
    }

    pub closed spec fn ctx(&self) -> CtsContext {
        self.context
    }

    /// The client's identity and the channel it got.
    pub fn context(&self) -> (c: &CtsContext)
        ensures
            *c == self.ctx(),
    {
        &self.context
    }

    /// A machine waiting for a new-client clear-to-send, with the default identity and no
    /// channel filter.
    pub fn new() -> (m: Self)
        ensures
            m.view_state().kind == CtsStateKind::WaitingForNewClientCTS,
            m.ctx().ident() == (ClientIdent { device_type: 0, client_hash: 0 }),
            m.ctx().got() is None,
            m.filter() == ChannelFilter::AllowAll,
    {
        Self {
            state: CtsState::WaitingForNewClientCTS(StateWaitingForNewClientCTS),
            context: CtsContext::default(),
            channel_filter: ChannelFilter::AllowAll,
        }
    }

    /// Messages on channels that `channel_filter` blocks are ignored from now on.
    pub fn set_channel_filter(&mut self, channel_filter: ChannelFilter)
        ensures
            final(self).filter() == channel_filter,
            final(self).view_state() == old(self).view_state(),
            final(self).ctx() == old(self).ctx(),
    {
        self.channel_filter = channel_filter;
    }

    pub fn state_kind(&self) -> (k: CtsStateKind)
        ensures
            k == self.view_state().kind,
    {
        match self.state {
            CtsState::WaitingForNewClientCTS(_) => CtsStateKind::WaitingForNewClientCTS,
            CtsState::WaitingForChannelAssignment { .. } => CtsStateKind::WaitingForChannelAssignment,
            CtsState::ChannelAssigned(_) => CtsStateKind::ChannelAssigned,
        }
    }

    /// The channel obtained since the last call, if any.
    pub fn take_got_channel(&mut self) -> (c: Option<Channel>)
        ensures
            c == old(self).ctx().got(),
            final(self).ctx().got() is None,
            final(self).ctx().ident() == old(self).ctx().ident(),
            final(self).view_state() == old(self).view_state(),
            final(self).filter() == old(self).filter(),
    {
        self.context.got_channel.take()
    }

    /// Handles a message received on `channel`: ignored when the filter blocks the channel,
    /// otherwise one step of `cts_step` (whether the retry wait is over depends on the
    /// time). Returns the reply to send, if any.
    pub fn handle_message(&mut self, channel: &Channel, mt: &MessageType) -> (result: Result<Option<Message>, MessageHandlingError>)
        ensures
            final(self).filter() == old(self).filter(),
            final(self).ctx().ident() == old(self).ctx().ident(),
            filter_result(old(self).filter(), *channel) == FilterResult::Blocked ==> {
                &&& result matches Ok(None)
                &&& final(self).view_state() == old(self).view_state()
                &&& final(self).ctx().got() == old(self).ctx().got()
            },
            filter_result(old(self).filter(), *channel) != FilterResult::Blocked ==> {
                ||| cts_outcome(*old(self), *final(self), *channel, *mt, false, result)
                ||| cts_outcome(*old(self), *final(self), *channel, *mt, true, result)
            },
    {
        if self.channel_filter.apply(channel) == FilterResult::Blocked {
            return Ok(None);
        }
        let retry_due = match (&self.state, channel, mt) {
            (
                CtsState::WaitingForChannelAssignment { requested_at, .. },
                Channel::MulticastChannelAssignment,
                MessageType::NewClientClearToSend(),
            ) => {
                let elapsed = instant_elapsed(requested_at);
                duration_as_nanos(&elapsed) >= NEW_CLIENT_RETRY_WAIT_NANOS
            },
            _ => false,
        };
        self.step_message(channel, mt, retry_due)
    }

    /// One step of `cts_step` on a message that the filter lets through, with `retry_due`
    /// telling whether two seconds have passed since the pending request. Returns the reply
    /// to send, if any.
    pub fn step_message(&mut self, channel: &Channel, mt: &MessageType, retry_due: bool) -> (result: Result<Option<Message>, MessageHandlingError>)
        ensures
            final(self).filter() == old(self).filter(),
            final(self).ctx().ident() == old(self).ctx().ident(),
            cts_outcome(*old(self), *final(self), *channel, *mt, retry_due, result),
    {
        match &self.state {
            CtsState::WaitingForNewClientCTS(_) => {
                match (channel, mt) {
                    (Channel::MulticastChannelAssignment, MessageType::NewClientClearToSend()) => {
                        let ident = self.context.client_ident;
                        let request = MessageType::ChannelAssignmentRequest {
                            device_type: ident.device_type,
                            client_hash: ident.client_hash,
                        };
                        let reply = match request.to_message(Channel::MulticastChannelAssignment) {
                            Ok(m) => m,
                            Err(_) => {
                                proof {
                                    assert(false);
                                }
                                return Err(MessageHandlingError::FatalError("encoding failed".to_owned()));
                            },
                        };
                        self.state = CtsState::WaitingForChannelAssignment { ident, requested_at: instant_now() };
                        Ok(Some(reply))
                    },
                    _ => Ok(None),
                }
            },
            CtsState::WaitingForChannelAssignment { ident, .. } => {
                let ident = *ident;
                match (channel, mt) {
                    (Channel::MulticastChannelAssignment, MessageType::NewClientClearToSend()) => {
                        if retry_due {
                            self.state = CtsState::WaitingForNewClientCTS(StateWaitingForNewClientCTS);
                        }
                        Ok(None)
                    },
                    (
                        Channel::MulticastChannelAssignment,
                        MessageType::ChannelAssignmentResponse { channel: assigned, client_hash },
                    ) => {
                        if ident.client_hash == *client_hash {
                            let assigned = *assigned;
                            let reply = match MessageType::ChannelAssignmentAck().to_message(assigned) {
                                Ok(m) => m,
                                Err(_) => {
                                    proof {
                                        assert(false);
                                    }
                                    return Err(MessageHandlingError::FatalError("encoding failed".to_owned()));
                                },
                            };
                            self.context.got_channel = Some(assigned);
                            self.state = CtsState::ChannelAssigned(assigned);
                            Ok(Some(reply))
                        } else {
                            Ok(None)
                        }
                    },
                    _ => {
                        Ok(None)
                    },
                }
            },
            CtsState::ChannelAssigned(_) => {
                Ok(None)
            },
        }
    }
}

} // verus!
