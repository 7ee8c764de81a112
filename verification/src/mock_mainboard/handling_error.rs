//! How handling a message or a timer tick can fail.

use vstd::prelude::*;
use crate::messages::channel::Channel;
use crate::messages::message_kind::MessageTypeKind;
use crate::messages::payload_error::PayloadParseError;

verus! {

/// What went wrong, in terms of the protocol.
#[derive(Debug, PartialEq, Eq, Structural, Clone, Copy)]
pub enum ErrorDetail {
    /// No client channel is left to hand out.
    ChannelOverflow,
    /// A client sent without having been cleared to send.
    NoAuthorizedSenders,
    /// A client sent while another channel was cleared to send.
    WaitingForSender(Option<Channel>),
    /// A client answered after its clear-to-send window had closed.
    WindowExpired(Channel),
    /// A message came on a client channel that is not assigned.
    UnassignedChannel(Channel),
    /// A message came on a channel that clients do not send on.
    UnexpectedChannel(Channel),
    /// A cleared-to-send channel is not in the channel table.
    AuthorizedChannelNotFound(Channel),
    /// A reply cannot be sent because the clear-to-send window of another client is open.
    ReplyBlockedByCts(Channel),
    /// The payload of a received message could not be decoded.
    PayloadParse(PayloadParseError),
    /// The message type is not one that the main board handles.
    UnsupportedMessage(MessageTypeKind),
    /// A reply could not be encoded.
    PayloadEncode,
    /// A reply's payload is too long; carries its length.
    ReplyTooLong(usize),
    /// The transport failed to read or write.
    TransportFailure,
}

/// Failure of handling an event, by what the main board should do about it.
#[derive(Debug, PartialEq, Eq, Structural, Clone, Copy)]
pub enum HandlingError {
    /// The main board must halt.
    FatalError(ErrorDetail),
    /// The client should negotiate its channel again.
    ClientNeedsReconnect(ErrorDetail),
    /// The client can recover by retrying.
    ClientRecoverable(ErrorDetail),
    /// The client cannot be served by this main board.
    ClientUnsupported(ErrorDetail),
    /// A shutdown was requested.
    ShutdownRequested,
}

} // verus!
