//! Which client may send now: the one that the last message cleared to send, within the
//! clear-to-send window.

use std::time::{Duration, Instant};
use vstd::prelude::*;
use crate::messages::channel::Channel;
use crate::messages::clock::{duration_as_nanos, duration_from_millis, duration_nanos, instant_elapsed, instant_now};
use crate::messages::message::Message;

verus! {

/// Milliseconds the main board waits for the reply to a clear-to-send, by default.
pub const DEFAULT_CLEAR_TO_SEND_WINDOW_MILLIS: u64 = 20;

/// The channel that was last cleared to send, when, and for how long.
#[derive(Debug)]
pub struct AuthorizedSender {
    authorized_at: Instant,
    allowed_delay: Duration,
    channel: Channel,
}

impl AuthorizedSender {
    pub closed spec fn channel(&self) -> Channel {
        self.channel
    }

    pub closed spec fn allowed_delay(&self) -> Duration {
        self.allowed_delay
    }

    /// A sender on `channel` authorized now, for `allowed_delay`.
    pub fn from_now(channel: Channel, allowed_delay: Duration) -> (a: Self)
        ensures
            a.channel() == channel,
            a.allowed_delay() == allowed_delay,
    {
        Self { channel, authorized_at: instant_now(), allowed_delay }
    }

    /// Whether the sender's window has closed, `elapsed` after it was authorized.
    pub fn is_expired_after(&self, elapsed: Duration) -> (b: bool)
        ensures
            b == (duration_nanos(elapsed) > duration_nanos(self.allowed_delay())),
    {
        duration_as_nanos(&elapsed) > duration_as_nanos(&self.allowed_delay)
    }

    /// Whether the sender's window has closed by now.
    pub fn is_expired(&self) -> (b: bool)
        ensures
            exists|elapsed: Duration| b == (#[trigger] duration_nanos(elapsed) > duration_nanos(self.allowed_delay())),
    {
        let elapsed = instant_elapsed(&self.authorized_at);
        self.is_expired_after(elapsed)
    }
}

/// Why a received message was not cleared to send.
#[derive(Debug, PartialEq, Eq, Structural, Clone, Copy)]
pub enum NoCtsReason {
    NoAuthorizedSenders,
    ConflictsWithOther,
    ExpiredWindow,
}

/// A message received without clearance.
#[derive(Debug, PartialEq, Eq, Structural, Clone, Copy)]
pub struct IncomingMessageError {
    pub attempted_channel: Channel,
    pub authorized_channel: Option<Channel>,
    pub reason: NoCtsReason,
}

impl IncomingMessageError {
    pub fn new(attempted_channel: Channel, authorized_channel: Option<Channel>, reason: NoCtsReason) -> (e: Self)
        ensures
            e == (IncomingMessageError { attempted_channel, authorized_channel, reason }),
    {
        Self { attempted_channel, authorized_channel, reason }
    }
}

/// Why the main board may not send now.
#[derive(Debug, PartialEq, Eq, Structural, Clone, Copy)]
pub enum TrySendMessageError {
    /// The window of the cleared sender is still open.
    WaitingToClear,
    /// The client on this channel let its window pass.
    ClientError(Channel),
}

/// Permission to send one message; only the tracker hands it out.
#[derive(Debug)]
pub struct SendMessageFactory {}

/// A message to send, and the channel expected to reply, if any.
#[derive(Debug)]
pub struct SendMessage {
    pub message: Message,
    pub expect_reply_on: Option<Channel>,
}

impl SendMessageFactory {
    /// A message after which its own channel is cleared to send.
    pub fn expect_reply(self, message: Message) -> (s: SendMessage)
        ensures
            s.message == message,
            s.expect_reply_on == Some(message.channel),
    {
        let channel = message.channel;
        SendMessage { message, expect_reply_on: Some(channel) }
    }

    /// A message after which `channel` is cleared to send.
    pub fn expect_reply_on_channel(self, message: Message, channel: Channel) -> (s: SendMessage)
        ensures
            s.message == message,
            s.expect_reply_on == Some(channel),
    {
        SendMessage { message, expect_reply_on: Some(channel) }
    }

    /// A message that may draw a reply on its own channel: that channel is cleared to
    /// send, and a missed window there counts against no client.
    pub fn maybe_expect_reply(self, message: Message) -> (s: SendMessage)
        ensures
            s.message == message,
            s.expect_reply_on == Some(message.channel),
    {
        self.expect_reply(message)
    }

    /// A message after which nobody is cleared to send.
    pub fn no_reply(self, message: Message) -> (s: SendMessage)
        ensures
            s.message == message,
            s.expect_reply_on is None,
    {
        SendMessage { message, expect_reply_on: None }
    }
}

/// What `try_accept_incoming_message` decides for a message on `channel`, when the cleared
/// sender was authorized `elapsed` ago.
pub open spec fn cts_verdict(authorized: Option<AuthorizedSender>, channel: Channel, elapsed: Duration) -> Result<(), IncomingMessageError> {
    match authorized {
        Some(a) => {
            if a.channel() != channel {
                Err(IncomingMessageError {
                    attempted_channel: channel,
                    authorized_channel: Some(a.channel()),
                    reason: NoCtsReason::ConflictsWithOther,
                })
            } else if duration_nanos(elapsed) > duration_nanos(a.allowed_delay()) {
                Err(IncomingMessageError {
                    attempted_channel: channel,
                    authorized_channel: Some(a.channel()),
                    reason: NoCtsReason::ExpiredWindow,
                })
            } else {
                Ok(())
            }
        },
        None => Err(IncomingMessageError {
            attempted_channel: channel,
            authorized_channel: None,
            reason: NoCtsReason::NoAuthorizedSenders,
        }),
    }
}

/// What `start_send_message` decides, `elapsed` after the cleared sender was authorized,
/// with the tracker's window `allowed`.
pub open spec fn send_verdict(authorized: Option<AuthorizedSender>, allowed: Duration, elapsed: Duration) -> Result<(), TrySendMessageError> {
    match authorized {
        Some(a) => {
            if duration_nanos(elapsed) > duration_nanos(allowed) {
                if a.channel() is Client {
                    Err(TrySendMessageError::ClientError(a.channel()))
                } else {
                    Ok(())
                }
            } else {
                Err(TrySendMessageError::WaitingToClear)
            }
        },
        None => Ok(()),
    }
}

/// Tracks the sender that the main board cleared to send last.
#[derive(Debug)]
pub struct ClearToSendTracker {
    authorized_sender: Option<AuthorizedSender>,
    allowed_delay: Duration,
}

impl ClearToSendTracker {
    pub closed spec fn authorized(&self) -> Option<AuthorizedSender> {
        self.authorized_sender
    }

    pub closed spec fn allowed_delay(&self) -> Duration {
        self.allowed_delay
    }

    /// A tracker with nobody cleared and the default window of 20 ms.
    pub fn new() -> (t: Self)
        ensures
            t.authorized() is None,
            duration_nanos(t.allowed_delay()) == DEFAULT_CLEAR_TO_SEND_WINDOW_MILLIS * 1_000_000,
    {
        Self { authorized_sender: None, allowed_delay: duration_from_millis(DEFAULT_CLEAR_TO_SEND_WINDOW_MILLIS) }
    }

    /// A tracker with nobody cleared and the window `cts_window`.
    pub fn with_policy(cts_window: Duration) -> (t: Self)
        ensures
            t.authorized() is None,
            t.allowed_delay() == cts_window,
    {
        Self { authorized_sender: None, allowed_delay: cts_window }
    }

    /// Checks that a received message comes from the sender cleared to send, within its
    /// window, `elapsed` after the clearance; the clearance is used up either way.
    pub fn try_accept_incoming_message_after(&mut self, message: &Message, elapsed: Duration) -> (result: Result<(), IncomingMessageError>)
        ensures
            final(self).authorized() is None,
            final(self).allowed_delay() == old(self).allowed_delay(),
            result == cts_verdict(old(self).authorized(), message.channel, elapsed),
    {
        let authorized_sender = self.authorized_sender.take();
        let channel = message.channel;
        match authorized_sender {
            Some(authorized_sender) => {
                if authorized_sender.channel != channel {
                    return Err(IncomingMessageError::new(channel, Some(authorized_sender.channel), NoCtsReason::ConflictsWithOther));
                }
                if authorized_sender.is_expired_after(elapsed) {
                    Err(IncomingMessageError::new(channel, Some(authorized_sender.channel), NoCtsReason::ExpiredWindow))
                } else {
                    Ok(())
                }
            },
            None => Err(IncomingMessageError::new(channel, None, NoCtsReason::NoAuthorizedSenders)),
        }
    }

    /// Checks that a received message comes from the sender cleared to send, within its
    /// window; the clearance is used up either way. The decision is that of
    /// `try_accept_incoming_message_after` for the time elapsed since the clearance.
    pub fn try_accept_incoming_message(&mut self, message: &Message) -> (result: Result<(), IncomingMessageError>)
        ensures
            final(self).authorized() is None,
            final(self).allowed_delay() == old(self).allowed_delay(),
            exists|elapsed: Duration| result == #[trigger] cts_verdict(old(self).authorized(), message.channel, elapsed),
    {
        let elapsed = match &self.authorized_sender {
            Some(a) => instant_elapsed(&a.authorized_at),
            None => self.allowed_delay,
        };
        self.try_accept_incoming_message_after(message, elapsed)
    }

    /// Whether the main board may send now, `elapsed` after the last clearance.
    pub fn start_send_message_after(&self, elapsed: Duration) -> (result: Result<SendMessageFactory, TrySendMessageError>)
        ensures
            match result {
                Ok(_) => send_verdict(self.authorized(), self.allowed_delay(), elapsed) is Ok,
                Err(e) => send_verdict(self.authorized(), self.allowed_delay(), elapsed) == Err::<(), TrySendMessageError>(e),
            },
    {
        match &self.authorized_sender {
            Some(authorized) => {
                if duration_as_nanos(&elapsed) > duration_as_nanos(&self.allowed_delay) {
                    if let Channel::Client(_) = authorized.channel {
                        Err(TrySendMessageError::ClientError(authorized.channel))
                    } else {
                        Ok(SendMessageFactory {})
                    }
                } else {
                    Err(TrySendMessageError::WaitingToClear)
                }
            },
            None => Ok(SendMessageFactory {}),
        }
    }

    /// Whether the main board may send now: the decision of `start_send_message_after`
    /// for the time elapsed since the last clearance.
    pub fn start_send_message(&self) -> (result: Result<SendMessageFactory, TrySendMessageError>)
        ensures
            exists|elapsed: Duration| match result {
                Ok(_) => #[trigger] send_verdict(self.authorized(), self.allowed_delay(), elapsed) is Ok,
                Err(e) => send_verdict(self.authorized(), self.allowed_delay(), elapsed) == Err::<(), TrySendMessageError>(e),
            },
    {
        let elapsed = match &self.authorized_sender {
            Some(a) => instant_elapsed(&a.authorized_at),
            None => self.allowed_delay,
        };
        self.start_send_message_after(elapsed)
    }

    /// Permission to send regardless of the clearance in force.
    pub fn force_send_message(&self) -> SendMessageFactory {
        SendMessageFactory {}
    }

    /// Records that `sm` is being sent: the channel it expects a reply on, if any, is
    /// cleared to send from now on, for the tracker's window.
    pub fn on_send(&mut self, sm: &SendMessage)
        ensures
            final(self).allowed_delay() == old(self).allowed_delay(),
            match sm.expect_reply_on {
                Some(c) => final(self).authorized() matches Some(a) && a.channel() == c && a.allowed_delay() == old(self).allowed_delay(),
                None => final(self).authorized() is None,
            },
    {
        let authorized_sender = match sm.expect_reply_on {
            Some(channel) => Some(AuthorizedSender::from_now(channel, self.allowed_delay)),
            None => None,
        };
        self.authorized_sender = authorized_sender;
    }
}

} // verus!
