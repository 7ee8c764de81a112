//! Policy-driven combination of channel tracking and clear-to-send tracking.

use std::time::Duration;
use vstd::prelude::*;
use crate::messages::channel::Channel;
use crate::messages::message::Message;
use crate::mock_mainboard::channel_tracker::{
    after_cts_failure, after_cts_success, select_outcome, tracker_holds, ChannelTracker, CtsFailureAction,
    DeviceKey, TrackerState, DEFAULT_MAX_CLEAR_TO_SEND_FAILURES,
};
use crate::mock_mainboard::clear_to_send_tracker::{
    cts_verdict, send_verdict, ClearToSendTracker, IncomingMessageError, NoCtsReason, SendMessage,
    SendMessageFactory, TrySendMessageError,
};
use crate::mock_mainboard::handling_error::{ErrorDetail, HandlingError};

verus! {

/// When messages that break clear-to-send are refused.
#[derive(Debug, PartialEq, Eq, Structural, Clone, Copy)]
pub enum CtsEnforcementPolicy {
    /// Always.
    Always,
    /// Only while more than one client holds a channel.
    ForMultipleClients,
    /// Never: every well-formed message is accepted.
    Never,
}

/// The policy in force at a given moment.
#[derive(Debug, PartialEq, Eq, Structural, Copy, Clone)]
pub enum ResolvedCtsPolicy {
    Always,
    Never,
}

/// The policy in force with `num_channels` channels held.
pub open spec fn resolved_policy(policy: CtsEnforcementPolicy, num_channels: nat) -> ResolvedCtsPolicy {
    match policy {
        CtsEnforcementPolicy::ForMultipleClients => {
            if num_channels <= 1 {
                ResolvedCtsPolicy::Never
            } else {
                ResolvedCtsPolicy::Always
            }
        },
        CtsEnforcementPolicy::Always => ResolvedCtsPolicy::Always,
        CtsEnforcementPolicy::Never => ResolvedCtsPolicy::Never,
    }
}

/// The error detail for a message received without clearance.
pub open spec fn cts_error_detail(e: IncomingMessageError) -> ErrorDetail {
    match e.reason {
        NoCtsReason::NoAuthorizedSenders => ErrorDetail::NoAuthorizedSenders,
        NoCtsReason::ConflictsWithOther => ErrorDetail::WaitingForSender(e.authorized_channel),
        NoCtsReason::ExpiredWindow => ErrorDetail::WindowExpired(e.attempted_channel),
    }
}

/// What validating a message on `channel` does under the clear-to-send verdict `verdict`: the
/// channel tracker afterwards and the result. A cleared message restarts the channel's
/// failure run; an uncleared one counts a failure. Client channels must be held, the
/// channel-assignment channel is always allowed, others are refused. A clearance or
/// channel failure is then forgiven when the policy in force does not enforce.
pub open spec fn validate_outcome(
    t: TrackerState,
    policy: CtsEnforcementPolicy,
    channel: Channel,
    verdict: Result<(), IncomingMessageError>,
) -> (TrackerState, Result<(), HandlingError>) {
    let (t1, result) = match verdict {
        Ok(_) => (after_cts_success(t, channel), Ok::<(), HandlingError>(())),
        Err(e) => {
            let (t1, action) = after_cts_failure(t, channel);
            let detail = cts_error_detail(e);
            (
                t1,
                Err(
                    match action {
                        CtsFailureAction::Tolerated => HandlingError::ClientRecoverable(detail),
                        _ => HandlingError::ClientNeedsReconnect(detail),
                    },
                ),
            )
        },
    };
    match channel {
        Channel::Client(_) => {
            if !tracker_holds(t1, channel) {
                (t1, Err(HandlingError::ClientNeedsReconnect(ErrorDetail::UnassignedChannel(channel))))
            } else {
                (t1, forgive(result, resolved_policy(policy, t1.records.len())))
            }
        },
        Channel::MulticastChannelAssignment => (t1, forgive(result, resolved_policy(policy, t1.records.len()))),
        _ => (t1, Err(HandlingError::ClientUnsupported(ErrorDetail::UnexpectedChannel(channel)))),
    }
}

/// A failure is dropped when the policy in force does not enforce clear-to-send.
pub open spec fn forgive(result: Result<(), HandlingError>, policy: ResolvedCtsPolicy) -> Result<(), HandlingError> {
    match result {
        Ok(_) => Ok(()),
        Err(e) => {
            if policy == ResolvedCtsPolicy::Always {
                Err(e)
            } else {
                Ok(())
            }
        },
    }
}

/// What `start_send_message` does under the send verdict `verdict`: the channel tracker afterwards,
/// and whether sending may go ahead (`Ok(true)`), must wait (`Ok(false)`), or fails. A
/// client that let its window pass counts a failure; once it is removed, sending goes
/// ahead.
pub open spec fn start_send_outcome(t: TrackerState, verdict: Result<(), TrySendMessageError>) -> (TrackerState, Result<bool, HandlingError>) {
    match verdict {
        Ok(_) => (t, Ok(true)),
        Err(TrySendMessageError::WaitingToClear) => (t, Ok(false)),
        Err(TrySendMessageError::ClientError(channel)) => {
            let (t1, action) = after_cts_failure(t, channel);
            match action {
                CtsFailureAction::ChannelNotFound => (t1, Err(HandlingError::FatalError(ErrorDetail::AuthorizedChannelNotFound(channel)))),
                CtsFailureAction::ChannelRemoved => (t1, Ok(true)),
                CtsFailureAction::Tolerated => (t1, Ok(false)),
            }
        },
    }
}

/// Channel tracking and clear-to-send tracking under a policy.
#[derive(Debug)]
pub struct ChannelManager {
    policy: CtsEnforcementPolicy,
    channel_tracker: ChannelTracker,
    clear_to_send_tracker: ClearToSendTracker,
}

impl ChannelManager {
    pub closed spec fn policy(&self) -> CtsEnforcementPolicy {
        self.policy
    }

    pub closed spec fn tracker(&self) -> TrackerState {
        self.channel_tracker.state()
    }

    pub closed spec fn cts(&self) -> ClearToSendTracker {
        self.clear_to_send_tracker
    }

    pub closed spec fn wf(&self) -> bool {
        self.channel_tracker.wf()
    }

    /// Strict enforcement, 20 failures per channel, 20 ms windows.
    pub fn new() -> (m: Self)
        ensures
            m.wf(),
            m.policy() == CtsEnforcementPolicy::Always,
            m.tracker().devices == Map::<u32, Channel>::empty(),
            m.tracker().records == Map::<u8, crate::mock_mainboard::channel_tracker::ChannelRecord>::empty(),
            m.tracker().max_cts_failures == DEFAULT_MAX_CLEAR_TO_SEND_FAILURES,
            m.cts().authorized() is None,
    {
        Self {
            policy: CtsEnforcementPolicy::Always,
            channel_tracker: ChannelTracker::new(DEFAULT_MAX_CLEAR_TO_SEND_FAILURES),
            clear_to_send_tracker: ClearToSendTracker::new(),
        }
    }

    /// The given policy and window, 20 failures per channel.
    pub fn with_policy(policy: CtsEnforcementPolicy, cts_window: Duration) -> (m: Self)
        ensures
            m.wf(),
            m.policy() == policy,
            m.tracker().devices == Map::<u32, Channel>::empty(),
            m.tracker().records == Map::<u8, crate::mock_mainboard::channel_tracker::ChannelRecord>::empty(),
            m.tracker().max_cts_failures == DEFAULT_MAX_CLEAR_TO_SEND_FAILURES,
            m.cts().authorized() is None,
            m.cts().allowed_delay() == cts_window,
    {
        Self {
            policy,
            channel_tracker: ChannelTracker::new(DEFAULT_MAX_CLEAR_TO_SEND_FAILURES),
            clear_to_send_tracker: ClearToSendTracker::with_policy(cts_window),
        }
    }

    /// Number of held channels.
    pub fn num_channels(&self) -> (n: usize)
        ensures
            n == self.tracker().records.len(),
    {
        self.channel_tracker.len()
    }

    /// The channel of device `key` (see `ChannelTracker::select_channel`).
    pub fn select_channel(&mut self, key: DeviceKey) -> (result: Result<Channel, HandlingError>)
        requires
            old(self).wf(),
        ensures
            final(self).wf(),
            final(self).policy() == old(self).policy(),
            final(self).cts() == old(self).cts(),
            final(self).tracker().max_cts_failures == old(self).tracker().max_cts_failures,
            (final(self).tracker(), result) == select_outcome(old(self).tracker(), key),
            result is Ok ==> final(self).tracker().devices.contains_key(crate::mock_mainboard::channel_tracker::device_number(key))
                && final(self).tracker().devices[crate::mock_mainboard::channel_tracker::device_number(key)] == result->Ok_0,
    {
        self.channel_tracker.select_channel(key)
    }

    /// Records that `sm` is being sent (see `ClearToSendTracker::on_send`).
    pub fn handle_presend(&mut self, sm: &SendMessage)
        ensures
            final(self).policy() == old(self).policy(),
            final(self).tracker() == old(self).tracker(),
            final(self).wf() == old(self).wf(),
            final(self).cts().allowed_delay() == old(self).cts().allowed_delay(),
            match sm.expect_reply_on {
                Some(c) => final(self).cts().authorized() matches Some(a) && a.channel() == c,
                None => final(self).cts().authorized() is None,
            },
    {
        self.clear_to_send_tracker.on_send(sm)
    }

    /// Checks a received message against clear-to-send and the channel table, under the
    /// policy; the decision is `validate_outcome` for the time elapsed since the clearance.
    pub fn validate_message(&mut self, message: &Message) -> (result: Result<(), HandlingError>)
        requires
            old(self).wf(),
        ensures
            final(self).wf(),
            final(self).policy() == old(self).policy(),
            final(self).cts().authorized() is None,
            final(self).cts().allowed_delay() == old(self).cts().allowed_delay(),
            exists|elapsed: Duration| (final(self).tracker(), result) == validate_outcome(
                old(self).tracker(),
                old(self).policy(),
                message.channel,
                #[trigger] cts_verdict(old(self).cts().authorized(), message.channel, elapsed),
            ),
    {
        let cts_result = self.clear_to_send_tracker.try_accept_incoming_message(message);
        let channel = message.channel;
        let result = match cts_result {
            Ok(_) => {
                self.channel_tracker.record_cts_success(channel);
                Ok(())
            },
            Err(e) => {
                let cts_action = self.channel_tracker.record_cts_failure(channel);
                let detail = match e.reason {
                    NoCtsReason::NoAuthorizedSenders => ErrorDetail::NoAuthorizedSenders,
                    NoCtsReason::ConflictsWithOther => ErrorDetail::WaitingForSender(e.authorized_channel),
                    NoCtsReason::ExpiredWindow => ErrorDetail::WindowExpired(e.attempted_channel),
                };
                Err(
                    match cts_action {
                        CtsFailureAction::ChannelNotFound | CtsFailureAction::ChannelRemoved => HandlingError::ClientNeedsReconnect(detail),
                        CtsFailureAction::Tolerated => HandlingError::ClientRecoverable(detail),
                    },
                )
            },
        };
        match channel {
            Channel::Client(_) => {
                if !self.channel_tracker.is_allocated(&channel) {
                    return Err(HandlingError::ClientNeedsReconnect(ErrorDetail::UnassignedChannel(channel)));
                }
            },
            Channel::MulticastChannelAssignment => {},
            _ => {
                return Err(HandlingError::ClientUnsupported(ErrorDetail::UnexpectedChannel(channel)));
            },
        }
        match result {
            Ok(_) => Ok(()),
            Err(e) => {
                match self.resolve_policy() {
                    ResolvedCtsPolicy::Always => Err(e),
                    ResolvedCtsPolicy::Never => Ok(()),
                }
            },
        }
    }

    /// Whether the main board may send now: a permission, `None` while a client's window
    /// is open or after it missed its window without being removed, or a fatal error; the
    /// decision is `start_send_outcome` for the time elapsed since the last clearance.
    pub fn start_send_message(&mut self) -> (result: Result<Option<SendMessageFactory>, HandlingError>)
        requires
            old(self).wf(),
        ensures
            final(self).wf(),
            final(self).policy() == old(self).policy(),
            final(self).cts() == old(self).cts(),
            exists|elapsed: Duration| ({
                let (t, r) = start_send_outcome(
                    old(self).tracker(),
                    #[trigger] send_verdict(old(self).cts().authorized(), old(self).cts().allowed_delay(), elapsed),
                );
                &&& final(self).tracker() == t
                &&& match result {
                    Ok(Some(_)) => r == Ok::<bool, HandlingError>(true),
                    Ok(None) => r == Ok::<bool, HandlingError>(false),
                    Err(e) => r == Err::<bool, HandlingError>(e),
                }
            }),
    {
        match self.clear_to_send_tracker.start_send_message() {
            Ok(smf) => Ok(Some(smf)),
            Err(TrySendMessageError::WaitingToClear) => Ok(None),
            Err(TrySendMessageError::ClientError(channel)) => {
                let cts_action = self.channel_tracker.record_cts_failure(channel);
                match cts_action {
                    CtsFailureAction::ChannelNotFound => Err(HandlingError::FatalError(ErrorDetail::AuthorizedChannelNotFound(channel))),
                    CtsFailureAction::ChannelRemoved => Ok(Some(self.clear_to_send_tracker.force_send_message())),
                    CtsFailureAction::Tolerated => Ok(None),
                }
            },
        }
    }

    /// The policy in force now.
    pub fn resolve_policy(&self) -> (p: ResolvedCtsPolicy)
        ensures
            p == resolved_policy(self.policy(), self.tracker().records.len()),
    {
        match self.policy {
            CtsEnforcementPolicy::ForMultipleClients => {
                if self.num_channels() <= 1 {
                    ResolvedCtsPolicy::Never
                } else {
                    ResolvedCtsPolicy::Always
                }
            },
            CtsEnforcementPolicy::Always => ResolvedCtsPolicy::Always,
            CtsEnforcementPolicy::Never => ResolvedCtsPolicy::Never,
        }
    }
}

} // verus!
