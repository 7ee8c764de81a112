//! Assignment of client channels to devices, and removal of devices that keep ignoring
//! clear-to-send.

use std::collections::HashMap;
use vstd::prelude::*;
use crate::messages::channel::{byte_of_channel, Channel, ChannelOverflow, CLIENT_CTS_RANGE_LEN};
use crate::mock_mainboard::handling_error::{ErrorDetail, HandlingError};

verus! {

broadcast use vstd::std_specs::hash::group_hash_axioms;

/// Number of consecutive clear-to-send failures after which a channel is freed.
pub const DEFAULT_MAX_CLEAR_TO_SEND_FAILURES: usize = 20;

/// Identity of a client device, from its channel assignment request.
#[derive(Debug, Hash, PartialEq, Eq, Structural, Copy, Clone)]
pub struct DeviceKey {
    pub device_type: u8,
    pub client_hash: u16,
}

/// The number under which a device is looked up.
pub open spec fn device_number(key: DeviceKey) -> u32 {
    ((key.device_type as u32) * 0x10000 + (key.client_hash as u32)) as u32
}

/// A channel assignment and the channel's run of missed clear-to-send windows.
#[derive(Debug, Clone, Copy, PartialEq, Eq, Structural)]
pub struct ChannelRecord {
    pub device_key: DeviceKey,
    pub channel: Channel,
    pub consecutive_cts_failures: usize,
}

/// What happened to a channel on a missed clear-to-send window.
#[derive(Debug, PartialEq, Eq, Structural, Clone, Copy)]
pub enum CtsFailureAction {
    ChannelNotFound,
    ChannelRemoved,
    Tolerated,
}

impl ChannelRecord {
    pub fn new(device: DeviceKey, channel: Channel) -> (r: Self)
        ensures
            r.device_key == device,
            r.channel == channel,
            r.consecutive_cts_failures == 0,
    {
        Self { device_key: device, channel, consecutive_cts_failures: 0 }
    }
}

/// A channel tracker as plain values.
#[verifier::ext_equal]
pub struct TrackerState {
    pub devices: Map<u32, Channel>,
    pub records: Map<u8, ChannelRecord>,
    pub max_cts_failures: usize,
}

/// Whether `channel` is held: a record for it exists.
pub open spec fn tracker_holds(s: TrackerState, channel: Channel) -> bool {
    &&& s.records.contains_key(byte_of_channel(channel))
    &&& s.records[byte_of_channel(channel)].channel == channel
}

/// The tracker after `channel` answered its clear-to-send: its failure run restarts.
pub open spec fn after_cts_success(s: TrackerState, channel: Channel) -> TrackerState {
    if tracker_holds(s, channel) {
        let b = byte_of_channel(channel);
        TrackerState {
            records: s.records.insert(b, ChannelRecord { consecutive_cts_failures: 0, ..s.records[b] }),
            ..s
        }
    } else {
        s
    }
}

/// The tracker after `channel` missed its clear-to-send window, and what happened to the
/// channel: counted, removed at the limit, or not found.
pub open spec fn after_cts_failure(s: TrackerState, channel: Channel) -> (TrackerState, CtsFailureAction) {
    if !tracker_holds(s, channel) {
        (s, CtsFailureAction::ChannelNotFound)
    } else {
        let b = byte_of_channel(channel);
        let r = s.records[b];
        let failures = r.consecutive_cts_failures + 1;
        if failures >= s.max_cts_failures {
            (
                TrackerState {
                    records: s.records.remove(b),
                    devices: s.devices.remove(device_number(r.device_key)),
                    ..s
                },
                CtsFailureAction::ChannelRemoved,
            )
        } else {
            (
                TrackerState {
                    records: s.records.insert(b, ChannelRecord { consecutive_cts_failures: failures as usize, ..r }),
                    ..s
                },
                CtsFailureAction::Tolerated,
            )
        }
    }
}

/// Devices and records agree: each device's channel has a record naming that device, and
/// each record's device holds the record's channel. So no two devices hold one channel.
pub open spec fn tracker_consistent(s: TrackerState) -> bool {
    &&& forall|k: u32| #[trigger] s.devices.contains_key(k) ==> {
        let b = byte_of_channel(s.devices[k]);
        &&& s.records.contains_key(b)
        &&& s.records[b].channel == s.devices[k]
        &&& device_number(s.records[b].device_key) == k
    }
    &&& forall|b: u8| #[trigger] s.records.contains_key(b) ==> {
        &&& byte_of_channel(s.records[b].channel) == b
        &&& s.devices.contains_key(device_number(s.records[b].device_key))
        &&& s.devices[device_number(s.records[b].device_key)] == s.records[b].channel
    }
}

/// The first client index from `i` on whose channel is not held, if any is left.
pub open spec fn first_free_client(records: Map<u8, ChannelRecord>, i: nat) -> Option<nat>
    decreases CLIENT_CTS_RANGE_LEN - i,
{
    if i >= CLIENT_CTS_RANGE_LEN {
        None
    } else if !records.contains_key((0x10 + i) as u8) {
        Some(i)
    } else {
        first_free_client(records, i + 1)
    }
}

/// What selecting a channel for device `key` does: a known device keeps its channel; a new
/// one gets the first client channel that nobody holds, while there is one left, and
/// otherwise the overflow error.
pub open spec fn select_outcome(s: TrackerState, key: DeviceKey) -> (TrackerState, Result<Channel, HandlingError>) {
    let k = device_number(key);
    if s.devices.contains_key(k) {
        (s, Ok(s.devices[k]))
    } else {
        match first_free_client(s.records, 0) {
            Some(i) => {
                let c = Channel::Client((0x10 + i) as u8);
                (
                    TrackerState {
                        devices: s.devices.insert(k, c),
                        records: s.records.insert(
                            (0x10 + i) as u8,
                            ChannelRecord { device_key: key, channel: c, consecutive_cts_failures: 0 },
                        ),
                        ..s
                    },
                    Ok(c),
                )
            },
            None => (s, Err(HandlingError::ClientNeedsReconnect(ErrorDetail::ChannelOverflow))),
        }
    }
}

/// The first free index from `i` is free, and every client index before it from `i` on is
/// held; when there is none, all from `i` on are held.
pub proof fn lemma_first_free_client(records: Map<u8, ChannelRecord>, i: nat)
    ensures
        match first_free_client(records, i) {
            Some(j) => i <= j < CLIENT_CTS_RANGE_LEN && !records.contains_key((0x10 + j) as u8)
                && forall|m: nat| i <= m < j ==> #[trigger] records.contains_key((0x10 + m) as u8),
            None => forall|m: nat| i <= m < CLIENT_CTS_RANGE_LEN ==> #[trigger] records.contains_key((0x10 + m) as u8),
        },
    decreases CLIENT_CTS_RANGE_LEN - i,
{
    if i < CLIENT_CTS_RANGE_LEN && records.contains_key((0x10 + i) as u8) {
        lemma_first_free_client(records, i + 1);
    }
}

/// A device that holds no channel is given one that no other device holds, and devices and
/// records still agree afterwards; the overflow error comes only when every client channel
/// is held.
pub proof fn lemma_select_gives_free_channel(s: TrackerState, key: DeviceKey)
    requires
        tracker_consistent(s),
    ensures
        tracker_consistent(select_outcome(s, key).0),
        !s.devices.contains_key(device_number(key)) ==> match select_outcome(s, key).1 {
            Ok(c) => forall|k: u32| #[trigger] s.devices.contains_key(k) ==> s.devices[k] != c,
            Err(_) => forall|m: nat| m < CLIENT_CTS_RANGE_LEN ==> #[trigger] s.records.contains_key((0x10 + m) as u8),
        },
{
    let k = device_number(key);
    lemma_first_free_client(s.records, 0);
    if !s.devices.contains_key(k) {
        if let Some(i) = first_free_client(s.records, 0) {
            let b = (0x10 + i) as u8;
            let c = Channel::Client(b);
            let t = select_outcome(s, key).0;
            assert(byte_of_channel(c) == b);
            assert forall|k2: u32| #[trigger] s.devices.contains_key(k2) implies s.devices[k2] != c by {
                if s.devices[k2] == c {
                    assert(s.records.contains_key(byte_of_channel(s.devices[k2])));
                }
            }
            assert forall|k2: u32| #[trigger] t.devices.contains_key(k2) implies ({
                let b2 = byte_of_channel(t.devices[k2]);
                &&& t.records.contains_key(b2)
                &&& t.records[b2].channel == t.devices[k2]
                &&& device_number(t.records[b2].device_key) == k2
            }) by {
                if k2 != k {
                    let b2 = byte_of_channel(s.devices[k2]);
                    assert(s.records.contains_key(b2));
                    assert(b2 != b);
                }
            }
            assert forall|b2: u8| #[trigger] t.records.contains_key(b2) implies ({
                &&& byte_of_channel(t.records[b2].channel) == b2
                &&& t.devices.contains_key(device_number(t.records[b2].device_key))
                &&& t.devices[device_number(t.records[b2].device_key)] == t.records[b2].channel
            }) by {
                if b2 != b {
                    assert(s.records.contains_key(b2));
                    assert(device_number(s.records[b2].device_key) != k);
                }
            }
        }
    }
}

/// A clear-to-send answered restarts the channel's run of failures: afterwards the channel
/// is still held with no failure counted, so (with a limit above one) the next missed window
/// is tolerated and counted as the first of a new run.
pub proof fn lemma_success_restarts_failure_run(s: TrackerState, channel: Channel)
    requires
        tracker_holds(s, channel),
    ensures
        tracker_holds(after_cts_success(s, channel), channel),
        after_cts_success(s, channel).records[byte_of_channel(channel)].consecutive_cts_failures == 0,
        s.max_cts_failures > 1 ==> {
            let (t, action) = after_cts_failure(after_cts_success(s, channel), channel);
            &&& action == CtsFailureAction::Tolerated
            &&& t.records[byte_of_channel(channel)].consecutive_cts_failures == 1
        },
{
}

/// `k` missed clear-to-send windows of `channel` in a row: the tracker afterwards and what
/// happened on each.
pub open spec fn failure_run(s: TrackerState, channel: Channel, k: nat) -> (TrackerState, Seq<CtsFailureAction>)
    decreases k,
{
    if k == 0 {
        (s, Seq::empty())
    } else {
        let (s1, a) = after_cts_failure(s, channel);
        let (s2, rest) = failure_run(s1, channel, (k - 1) as nat);
        (s2, seq![a] + rest)
    }
}

proof fn lemma_failure_run_from(s: TrackerState, channel: Channel, f: nat)
    requires
        tracker_holds(s, channel),
        s.records[byte_of_channel(channel)].consecutive_cts_failures == f,
        f < s.max_cts_failures,
    ensures
        ({
            let (t, actions) = failure_run(s, channel, (s.max_cts_failures - f) as nat);
            &&& actions.len() == s.max_cts_failures - f
            &&& forall|i: int| 0 <= i < actions.len() - 1 ==> #[trigger] actions[i] == CtsFailureAction::Tolerated
            &&& actions[actions.len() - 1] == CtsFailureAction::ChannelRemoved
            &&& !tracker_holds(t, channel)
        }),
    decreases s.max_cts_failures - f,
{
    let m = (s.max_cts_failures - f) as nat;
    let (s1, a) = after_cts_failure(s, channel);
    reveal_with_fuel(failure_run, 2);
    if f + 1 >= s.max_cts_failures {
        assert(failure_run(s, channel, m).1 =~= seq![a]);
        assert(!s1.records.contains_key(byte_of_channel(channel)));
    } else {
        lemma_failure_run_from(s1, channel, f + 1);
        let rest = failure_run(s1, channel, (m - 1) as nat).1;
        assert(failure_run(s, channel, m).1 == seq![a] + rest);
        assert forall|i: int| 0 <= i < m - 1 implies #[trigger] (seq![a] + rest)[i] == CtsFailureAction::Tolerated by {
            if i > 0 {
                assert((seq![a] + rest)[i] == rest[i - 1]);
            }
        }
        assert((seq![a] + rest)[m - 1] == rest[m - 2]);
    }
}

/// Only consecutive failures count: from a channel with no failure counted (as a selection
/// or an answered clear-to-send leaves it), the first `max - 1` missed windows in a row are
/// tolerated and the next one removes the channel.
pub proof fn lemma_consecutive_failures_remove(s: TrackerState, channel: Channel)
    requires
        tracker_holds(s, channel),
        s.records[byte_of_channel(channel)].consecutive_cts_failures == 0,
        s.max_cts_failures >= 1,
    ensures
        ({
            let (t, actions) = failure_run(s, channel, s.max_cts_failures as nat);
            &&& actions.len() == s.max_cts_failures
            &&& forall|i: int| 0 <= i < s.max_cts_failures - 1 ==> #[trigger] actions[i] == CtsFailureAction::Tolerated
            &&& actions[s.max_cts_failures - 1] == CtsFailureAction::ChannelRemoved
            &&& !tracker_holds(t, channel)
        }),
{
    lemma_failure_run_from(s, channel, 0);
}

/// Which channel each device holds, and the record of each held channel.
#[derive(Debug)]
pub struct ChannelTracker {
    lookup_by_device: HashMap<u32, Channel>,
    records: HashMap<u8, ChannelRecord>,
    max_cts_failures: usize,
}

impl ChannelTracker {
    /// Channel held by each device, by device number.
    pub closed spec fn devices(&self) -> Map<u32, Channel> {
        self.lookup_by_device@
    }

    /// Record of each held channel, by channel byte.
    pub closed spec fn records(&self) -> Map<u8, ChannelRecord> {
        self.records@
    }

    pub closed spec fn max_cts_failures(&self) -> usize {
        self.max_cts_failures
    }

    /// Records are filed under their channel's byte, devices and records agree, and a
    /// record's failure count stays below the limit (a record that reaches it is removed).
    pub closed spec fn wf(&self) -> bool {
        &&& tracker_consistent(self.state())
        &&& forall|b: u8| #[trigger] self.records@.contains_key(b)
            ==> self.records@[b].consecutive_cts_failures < usize::MAX
    }

    /// Devices and records agree (see `tracker_consistent`).
    pub proof fn lemma_wf_consistent(&self)
        requires
            self.wf(),
        ensures
            tracker_consistent(self.state()),
    {
    }

    pub open spec fn state(&self) -> TrackerState {
        TrackerState { devices: self.devices(), records: self.records(), max_cts_failures: self.max_cts_failures() }
    }

    /// Whether `channel` is held: a record for it exists.
    pub open spec fn holds(&self, channel: Channel) -> bool {
        tracker_holds(self.state(), channel)
    }

    pub fn new(max_cts_failures: usize) -> (t: Self)
        ensures
            t.wf(),
            t.devices() == Map::<u32, Channel>::empty(),
            t.records() == Map::<u8, ChannelRecord>::empty(),
            t.max_cts_failures() == max_cts_failures,
    {
        Self { lookup_by_device: HashMap::new(), records: HashMap::new(), max_cts_failures }
    }

    /// Number of held channels.
    pub fn len(&self) -> (n: usize)
        ensures
            n == self.records().len(),
    {
        self.records.len()
    }

    /// Number of devices with a channel.
    pub fn num_devices(&self) -> (n: usize)
        ensures
            n == self.devices().len(),
    {
        self.lookup_by_device.len()
    }

    /// The first client index whose channel nobody holds, if any.
    fn first_free_index(&self) -> (r: Option<usize>)
        ensures
            match first_free_client(self.records(), 0) {
                Some(i) => r == Some(i as usize),
                None => r is None,
            },
    {
        let mut i: usize = 0;
        while i < CLIENT_CTS_RANGE_LEN
            invariant
                i <= CLIENT_CTS_RANGE_LEN,
                first_free_client(self.records(), 0) == first_free_client(self.records(), i as nat),
            decreases CLIENT_CTS_RANGE_LEN - i,
        {
            let b = (0x10 + i) as u8;
            if !self.records.contains_key(&b) {
                return Some(i);
            }
            i = i + 1;
        }
        None
    }

    /// The channel of device `key`: the one it holds, or else the first client channel
    /// that nobody holds, which the device then holds (see `select_outcome`).
    pub fn select_channel(&mut self, key: DeviceKey) -> (result: Result<Channel, HandlingError>)
        requires
            old(self).wf(),
        ensures
            final(self).wf(),
            final(self).max_cts_failures() == old(self).max_cts_failures(),
            (final(self).state(), result) == select_outcome(old(self).state(), key),
            !old(self).devices().contains_key(device_number(key)) ==> match result {
                Ok(c) => forall|k: u32| #[trigger] old(self).devices().contains_key(k) ==> old(self).devices()[k] != c,
                Err(_) => forall|m: nat| m < CLIENT_CTS_RANGE_LEN ==> #[trigger] old(self).records().contains_key((0x10 + m) as u8),
            },
    {
        proof {
            lemma_select_gives_free_channel(self.state(), key);
            lemma_first_free_client(self.records(), 0);
        }
        let number = (key.device_type as u32) * 0x10000 + (key.client_hash as u32);
        match self.lookup_by_device.get(&number) {
            Some(channel) => Ok(*channel),
            None => {
                let index = match self.first_free_index() {
                    Some(i) => i,
                    None => {
                        return Err(HandlingError::ClientNeedsReconnect(ErrorDetail::ChannelOverflow));
                    },
                };
                let new_channel = match Channel::new_client_channel(index) {
                    Ok(c) => c,
                    Err(_) => {
                        return Err(HandlingError::ClientNeedsReconnect(ErrorDetail::ChannelOverflow));
                    },
                };
                let record = ChannelRecord::new(key, new_channel);
                self.lookup_by_device.insert(number, new_channel);
                self.records.insert(u8::from(&new_channel), record);
                Ok(new_channel)
            },
        }
    }

    /// Whether `channel` is held.
    pub fn is_allocated(&self, channel: &Channel) -> (b: bool)
        ensures
            b == self.holds(*channel),
    {
        match self.records.get(&u8::from(channel)) {
            Some(record) => record.channel == *channel,
            None => false,
        }
    }

    /// Resets the failure count of `channel`, if it is held.
    pub fn record_cts_success(&mut self, channel: Channel)
        requires
            old(self).wf(),
        ensures
            final(self).wf(),
            final(self).state() == after_cts_success(old(self).state(), channel),
    {
        let b = u8::from(&channel);
        match self.records.get(&b) {
            Some(record) => {
                if record.channel == channel {
                    let updated = ChannelRecord { consecutive_cts_failures: 0, ..*record };
                    self.records.insert(b, updated);
                }
            },
            None => {},
        }
    }

    /// Counts a missed clear-to-send window of `channel`; at the limit the channel and its
    /// device's assignment are removed.
    pub fn record_cts_failure(&mut self, channel: Channel) -> (action: CtsFailureAction)
        requires
            old(self).wf(),
        ensures
            final(self).wf(),
            (final(self).state(), action) == after_cts_failure(old(self).state(), channel),
    {
        let b = u8::from(&channel);
        match self.records.get(&b) {
            Some(record) => {
                if record.channel != channel {
                    return CtsFailureAction::ChannelNotFound;
                }
                let failures = record.consecutive_cts_failures + 1;
                if failures >= self.max_cts_failures {
                    let key = record.device_key;
                    let number = (key.device_type as u32) * 0x10000 + (key.client_hash as u32);
                    self.lookup_by_device.remove(&number);
                    self.records.remove(&b);
                    CtsFailureAction::ChannelRemoved
                } else {
                    let updated = ChannelRecord { consecutive_cts_failures: failures, ..*record };
                    self.records.insert(b, updated);
                    CtsFailureAction::Tolerated
                }
            },
            None => CtsFailureAction::ChannelNotFound,
        }
    }
}

} // verus!
