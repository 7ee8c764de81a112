//! Decides which received messages concern a client.

use vstd::prelude::*;
use crate::messages::channel::Channel;

verus! {

/// Which channels a client listens to.
#[derive(Debug)]
pub enum ChannelFilter {
    AllowAll,
    RelevantTo(Vec<Channel>),
    BlockEverything,
}

/// How a message's channel relates to a client.
#[derive(Debug, PartialEq, Eq, Structural, Clone, Copy)]
pub enum FilterResult {
    MyChannel,
    Broadcast,
    Any,
    Blocked,
}

/// What `apply` decides for `channel`.
pub open spec fn filter_result(filter: ChannelFilter, channel: Channel) -> FilterResult {
    match filter {
        ChannelFilter::AllowAll => FilterResult::Any,
        ChannelFilter::RelevantTo(targets) => {
            if targets@.contains(channel) {
                FilterResult::MyChannel
            } else if channel == Channel::MulticastBroadcast {
                FilterResult::Broadcast
            } else {
                FilterResult::Blocked
            }
        },
        ChannelFilter::BlockEverything => FilterResult::Blocked,
    }
}

impl ChannelFilter {
    pub fn apply(&self, channel: &Channel) -> (r: FilterResult)
        ensures
            r == filter_result(*self, *channel),
    {
        match self {
            ChannelFilter::AllowAll => FilterResult::Any,
            ChannelFilter::RelevantTo(targets) => {
                let mut i: usize = 0;
                while i < targets.len()
                    invariant
                        i <= targets.len(),
                        *self == ChannelFilter::RelevantTo(*targets),
                        forall|j: int| 0 <= j < i ==> targets@[j] != *channel,
                    decreases targets.len() - i,
                {
                    if targets[i] == *channel {
                        assert(targets@[i as int] == *channel);

                        return FilterResult::MyChannel;
                    }
                    i = i + 1;
                }
                if *channel == Channel::MulticastBroadcast {
                    return FilterResult::Broadcast;
                }
                FilterResult::Blocked
            },
            ChannelFilter::BlockEverything => FilterResult::Blocked,
        }
    }
}

} // verus!
