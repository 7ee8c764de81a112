//! What the main board sends on each timer tick: a new-client clear-to-send, a status
//! update half way through the cycle, and clear-to-send to each client in turn.

use vstd::prelude::*;
use crate::messages::channel::{Channel, CLIENT_CTS_RANGE_LEN};

verus! {

/// The message that a timer tick calls for.
#[derive(Debug, PartialEq, Eq, Structural, Copy, Clone)]
pub enum TickAction {
    NewClientClearToSend,
    ClearToSend { channel: Channel },
    Nothing,
    StatusUpdate,
}

/// Hands out clear-to-send to the available channels in turn, and counts the ticks of the
/// current cycle.
#[derive(Debug)]
pub struct DynamicTickHelper {
    available_channels: Vec<Channel>,
    next_index: usize,
    next_tick: usize,
}

/// A tick helper as plain values: channels, next index, ticks so far.
pub struct HelperView {
    pub channels: Seq<Channel>,
    pub next_index: usize,
    pub next_tick: usize,
}

/// One step of the helper: the helper afterwards and the action for this tick.
pub open spec fn helper_step(h: HelperView) -> (HelperView, TickAction) {
    let current = h.next_index;
    let bumped = h.next_index + 1;
    let next_index = if bumped >= h.channels.len() { 0usize } else { bumped as usize };
    let action = if current < h.channels.len() {
        TickAction::ClearToSend { channel: h.channels[current as int] }
    } else {
        TickAction::Nothing
    };
    (HelperView { channels: h.channels, next_index, next_tick: (h.next_tick + 1) as usize }, action)
}

impl DynamicTickHelper {
    pub closed spec fn view_helper(&self) -> HelperView {
        HelperView {
            channels: self.available_channels@,
            next_index: self.next_index,
            next_tick: self.next_tick,
        }
    }

    /// The next index is within the channels, or zero.
    pub closed spec fn wf(&self) -> bool {
        self.next_index == 0 || self.next_index < self.available_channels.len()
    }

    pub closed spec fn channel_vec(&self) -> Vec<Channel> {
        self.available_channels
    }

    pub fn new(available_channels: Vec<Channel>) -> (h: Self)
        ensures
            h.wf(),
            h.view_helper() == (HelperView { channels: available_channels@, next_index: 0, next_tick: 0 }),
            h.channel_vec() == available_channels,
    {
        Self { available_channels, next_index: 0, next_tick: 0 }
    }

    /// Clear-to-send for the next channel in turn (nothing when there is none), counting
    /// one more tick.
    pub fn next_action(&mut self) -> (action: TickAction)
        requires
            old(self).wf(),
            old(self).view_helper().next_tick < usize::MAX,
        ensures
            final(self).wf(),
            (final(self).view_helper(), action) == helper_step(old(self).view_helper()),
            final(self).channel_vec() == old(self).channel_vec(),
    {
        let current_index = self.next_index;
        self.next_index = self.next_index + 1;
        if self.next_index >= self.available_channels.len() {
            self.next_index = 0;
        }
        self.next_tick = self.next_tick + 1;
        if current_index < self.available_channels.len() {
            TickAction::ClearToSend { channel: self.available_channels[current_index] }
        } else {
            TickAction::Nothing
        }
    }
}

/// Spreads the actions over a cycle of `clear_to_send_ticks + 2` ticks.
#[derive(Debug)]
pub struct TimerTracker {
    next_action: TickAction,
    dynamic_tick_helper: DynamicTickHelper,
    clear_to_send_ticks: usize,
    half_clear_to_send_ticks: usize,
}

/// A tracker as plain values.
pub struct TrackerView {
    pub next_action: TickAction,
    pub helper: HelperView,
    pub clear_to_send_ticks: usize,
    pub half_clear_to_send_ticks: usize,
}

/// One tick: the tracker afterwards and the action for this tick. `fresh` are the channels
/// that the tracker takes for the new cycle when it starts one.
pub open spec fn tracker_step(t: TrackerView, fresh: Seq<Channel>) -> (TrackerView, TickAction) {
    let current = t.next_action;
    let (helper, next) = match current {
        TickAction::NewClientClearToSend => {
            helper_step(HelperView { channels: fresh, next_index: 0, next_tick: 0 })
        },
        TickAction::StatusUpdate => helper_step(t.helper),
        _ => {
            if t.helper.next_tick == t.half_clear_to_send_ticks {
                (t.helper, TickAction::StatusUpdate)
            } else if t.helper.next_tick == t.clear_to_send_ticks {
                (t.helper, TickAction::NewClientClearToSend)
            } else {
                helper_step(t.helper)
            }
        },
    };
    (TrackerView { next_action: next, helper, ..t }, current)
}

impl TimerTracker {
    pub closed spec fn view_tracker(&self) -> TrackerView {
        TrackerView {
            next_action: self.next_action,
            helper: self.dynamic_tick_helper.view_helper(),
            clear_to_send_ticks: self.clear_to_send_ticks,
            half_clear_to_send_ticks: self.half_clear_to_send_ticks,
        }
    }

    /// The tick count never passes the cycle length, so counting cannot overflow; a status
    /// update is due exactly half way through the cycle.
    pub closed spec fn wf(&self) -> bool {
        &&& self.dynamic_tick_helper.wf()
        &&& self.dynamic_tick_helper.next_tick <= self.clear_to_send_ticks
        &&& 1 <= self.clear_to_send_ticks < usize::MAX
        &&& self.half_clear_to_send_ticks == self.clear_to_send_ticks / 2
        &&& self.next_action == TickAction::StatusUpdate ==> self.dynamic_tick_helper.next_tick
            == self.half_clear_to_send_ticks
    }

    /// A tracker with one clear-to-send tick per client channel.
    pub fn new() -> (t: Self)
        ensures
            t.wf(),
            t.view_tracker().next_action == TickAction::NewClientClearToSend,
            t.view_tracker().clear_to_send_ticks == CLIENT_CTS_RANGE_LEN,
            t.view_tracker().half_clear_to_send_ticks == CLIENT_CTS_RANGE_LEN / 2,
    {
        Self::with_cts_ticks(CLIENT_CTS_RANGE_LEN)
    }

    pub fn with_cts_ticks(cts_ticks: usize) -> (t: Self)
        requires
            1 <= cts_ticks < usize::MAX,
        ensures
            t.wf(),
            t.view_tracker().next_action == TickAction::NewClientClearToSend,
            t.view_tracker().clear_to_send_ticks == cts_ticks,
            t.view_tracker().half_clear_to_send_ticks == cts_ticks / 2,
            t.view_tracker().helper == (HelperView { channels: Seq::empty(), next_index: 0, next_tick: 0 }),
    {
        let half_cts_ticks = cts_ticks / 2;
        Self {
            next_action: TickAction::NewClientClearToSend,
            dynamic_tick_helper: DynamicTickHelper::new(Vec::new()),
            clear_to_send_ticks: cts_ticks,
            half_clear_to_send_ticks: half_cts_ticks,
        }
    }

    /// Number of ticks in one cycle.
    pub fn total_ticks_per_cycle(&self) -> (n: usize)
        requires
            self.wf(),
            self.view_tracker().clear_to_send_ticks <= usize::MAX - 2,
        ensures
            n == self.view_tracker().clear_to_send_ticks + 2,
    {
        2 + self.clear_to_send_ticks
    }

    /// The action for this tick; at the start of a cycle the tracker takes the channels
    /// that `available_channels` returns.
    pub fn next_action(&mut self, available_channels: impl Fn() -> Vec<Channel>) -> (action: TickAction)
        requires
            old(self).wf(),
            available_channels.requires(()),
        ensures
            final(self).wf(),
            final(self).view_tracker().helper.channels == final(self).dynamic_channels()@,
            old(self).view_tracker().next_action != TickAction::NewClientClearToSend ==> final(self).dynamic_channels()@ == old(self).dynamic_channels()@,
            old(self).view_tracker().next_action == TickAction::NewClientClearToSend ==> {
                &&& available_channels.ensures((), final(self).dynamic_channels())
                &&& (final(self).view_tracker(), action) == tracker_step(
                    old(self).view_tracker(),
                    final(self).view_tracker().helper.channels,
                )
            },
            old(self).view_tracker().next_action != TickAction::NewClientClearToSend ==> (
            final(self).view_tracker(),
            action,
            ) == tracker_step(old(self).view_tracker(), Seq::empty()),
    {
        let current = self.next_action;
        let next = match current {
            TickAction::NewClientClearToSend => {
                self.dynamic_tick_helper = DynamicTickHelper::new(available_channels());
                self.dynamic_tick_helper.next_action()
            },
            TickAction::ClearToSend { .. } | TickAction::Nothing => {
                let next_tick = self.dynamic_tick_helper.next_tick;
                if next_tick == self.half_clear_to_send_ticks {
                    TickAction::StatusUpdate
                } else if next_tick == self.clear_to_send_ticks {
                    TickAction::NewClientClearToSend
                } else {
                    self.dynamic_tick_helper.next_action()
                }
            },
            TickAction::StatusUpdate => self.dynamic_tick_helper.next_action(),
        };
        self.next_action = next;
        current
    }

    /// The channels that the current cycle hands clear-to-send to.
    pub closed spec fn dynamic_channels(&self) -> Vec<Channel> {
        self.dynamic_tick_helper.channel_vec()
    }
}

} // verus!

verus! {

/// Running `k` ticks: the tracker afterwards and the actions of those ticks, in order;
/// `fresh` are the channels taken whenever a cycle starts.
pub open spec fn tracker_run(t: TrackerView, fresh: Seq<Channel>, k: nat) -> (TrackerView, Seq<TickAction>)
    decreases k,
{
    if k == 0 {
        (t, Seq::empty())
    } else {
        let (t1, a) = tracker_step(t, fresh);
        let (t2, rest) = tracker_run(t1, fresh, (k - 1) as nat);
        (t2, seq![a] + rest)
    }
}

/// No action in `actions` starts a new cycle.
pub open spec fn no_cycle_start(actions: Seq<TickAction>) -> bool {
    forall|i: int| 0 <= i < actions.len() ==> actions[i] != TickAction::NewClientClearToSend
}

/// A tracker in the middle of a cycle, after `j` ticks of clear-to-send.
pub open spec fn mid_cycle(t: TrackerView, j: nat) -> bool {
    &&& (t.next_action is ClearToSend || t.next_action is Nothing)
    &&& t.helper.next_tick == j
}

proof fn lemma_run_second_half(t: TrackerView, fresh: Seq<Channel>, j: nat)
    requires
        mid_cycle(t, j),
        t.half_clear_to_send_ticks < j <= t.clear_to_send_ticks,
    ensures
        no_cycle_start(tracker_run(t, fresh, (t.clear_to_send_ticks - j + 1) as nat).1),
        tracker_run(t, fresh, (t.clear_to_send_ticks - j + 1) as nat).0.next_action
            == TickAction::NewClientClearToSend,
        tracker_run(t, fresh, (t.clear_to_send_ticks - j + 1) as nat).0.clear_to_send_ticks
            == t.clear_to_send_ticks,
        tracker_run(t, fresh, (t.clear_to_send_ticks - j + 1) as nat).0.half_clear_to_send_ticks
            == t.half_clear_to_send_ticks,
    decreases t.clear_to_send_ticks - j,
{
    let k = (t.clear_to_send_ticks - j + 1) as nat;
    let (t1, a) = tracker_step(t, fresh);
    reveal_with_fuel(tracker_run, 2);
    if j == t.clear_to_send_ticks {
        assert(tracker_run(t1, fresh, 0).1 =~= Seq::<TickAction>::empty());
        assert(tracker_run(t, fresh, k).1 =~= seq![a]);
    } else {
        assert(mid_cycle(t1, j + 1));
        lemma_run_second_half(t1, fresh, j + 1);
        let rest = tracker_run(t1, fresh, (k - 1) as nat).1;
        assert forall|i: int| 0 <= i < (seq![a] + rest).len() implies (seq![a] + rest)[i]
            != TickAction::NewClientClearToSend by {
            if i > 0 {
                assert((seq![a] + rest)[i] == rest[i - 1]);
            }
        }
    }
}

proof fn lemma_run_first_half(t: TrackerView, fresh: Seq<Channel>, j: nat)
    requires
        mid_cycle(t, j),
        1 <= j <= t.half_clear_to_send_ticks,
        t.half_clear_to_send_ticks < t.clear_to_send_ticks,
    ensures
        no_cycle_start(tracker_run(t, fresh, (t.clear_to_send_ticks - j + 2) as nat).1),
        tracker_run(t, fresh, (t.clear_to_send_ticks - j + 2) as nat).0.next_action
            == TickAction::NewClientClearToSend,
    decreases t.half_clear_to_send_ticks - j,
{
    let k = (t.clear_to_send_ticks - j + 2) as nat;
    let (t1, a) = tracker_step(t, fresh);
    reveal_with_fuel(tracker_run, 2);
    if j == t.half_clear_to_send_ticks {
        assert(t1.next_action == TickAction::StatusUpdate);
        let (t2, a2) = tracker_step(t1, fresh);
        assert(mid_cycle(t2, j + 1));
        lemma_run_second_half(t2, fresh, j + 1);
        let rest = tracker_run(t2, fresh, (k - 2) as nat).1;
        assert(tracker_run(t1, fresh, (k - 1) as nat).1 =~= seq![a2] + rest);
        assert forall|i: int| 0 <= i < (seq![a] + (seq![a2] + rest)).len() implies (seq![a] + (
        seq![a2] + rest))[i] != TickAction::NewClientClearToSend by {
            if i > 1 {
                assert((seq![a] + (seq![a2] + rest))[i] == rest[i - 2]);
            }
        }
    } else {
        assert(mid_cycle(t1, j + 1));
        lemma_run_first_half(t1, fresh, j + 1);
        let rest = tracker_run(t1, fresh, (k - 1) as nat).1;
        assert forall|i: int| 0 <= i < (seq![a] + rest).len() implies (seq![a] + rest)[i]
            != TickAction::NewClientClearToSend by {
            if i > 0 {
                assert((seq![a] + rest)[i] == rest[i - 1]);
            }
        }
    }
}

/// A cycle lasts `clear_to_send_ticks + 2` ticks (what `total_ticks_per_cycle` returns):
/// from the start of a cycle, the first tick sends the new-client clear-to-send, none of
/// the following ticks of the cycle does, and the tick after them starts the next cycle.
/// Stated for cycles of at least 2 clear-to-send ticks; with one tick the status update
/// never comes and the cycle is one tick shorter.
pub proof fn lemma_cycle_length(t: TrackerView, fresh: Seq<Channel>)
    requires
        t.next_action == TickAction::NewClientClearToSend,
        t.clear_to_send_ticks >= 2,
        t.half_clear_to_send_ticks == t.clear_to_send_ticks / 2,
    ensures
        ({
            let (end, actions) = tracker_run(t, fresh, (t.clear_to_send_ticks + 2) as nat);
            &&& actions.len() == t.clear_to_send_ticks + 2
            &&& actions[0] == TickAction::NewClientClearToSend
            &&& no_cycle_start(actions.subrange(1, actions.len() as int))
            &&& end.next_action == TickAction::NewClientClearToSend
        }),
{
    let n = t.clear_to_send_ticks;
    let (t1, a) = tracker_step(t, fresh);
    assert(mid_cycle(t1, 1));
    lemma_run_first_half(t1, fresh, 1);
    lemma_run_length(t1, fresh, (n + 1) as nat);
    let rest = tracker_run(t1, fresh, (n + 1) as nat).1;
    let actions = tracker_run(t, fresh, (n + 2) as nat).1;
    assert(actions =~= seq![a] + rest);
    assert(actions.subrange(1, actions.len() as int) =~= rest);
}

/// Running `k` ticks yields `k` actions.
pub proof fn lemma_run_length(t: TrackerView, fresh: Seq<Channel>, k: nat)
    ensures
        tracker_run(t, fresh, k).1.len() == k,
    decreases k,
{
    if k > 0 {
        let (t1, a) = tracker_step(t, fresh);
        lemma_run_length(t1, fresh, (k - 1) as nat);
    }
}

/// The helper's action on its `i`-th call (from 0) since it took `channels`: clear-to-send
/// to the channels in turn, over and over; nothing when there is no channel.
pub open spec fn helper_action(channels: Seq<Channel>, i: nat) -> TickAction {
    if channels.len() == 0 {
        TickAction::Nothing
    } else {
        TickAction::ClearToSend { channel: channels[(i % channels.len()) as int] }
    }
}

/// The helper after `j` calls since it took `channels`.
pub open spec fn helper_after(channels: Seq<Channel>, j: nat) -> HelperView {
    HelperView {
        channels,
        next_index: if channels.len() == 0 { 0usize } else { (j % channels.len()) as usize },
        next_tick: j as usize,
    }
}

/// Calling the helper `k` times: the helper afterwards and the actions, in order.
pub open spec fn helper_run(h: HelperView, k: nat) -> (HelperView, Seq<TickAction>)
    decreases k,
{
    if k == 0 {
        (h, Seq::empty())
    } else {
        let (h1, a) = helper_step(h);
        let (h2, rest) = helper_run(h1, (k - 1) as nat);
        (h2, seq![a] + rest)
    }
}

proof fn lemma_helper_one_call(channels: Seq<Channel>, j: nat)
    requires
        j + 1 <= usize::MAX,
    ensures
        helper_step(helper_after(channels, j)) == (helper_after(channels, j + 1), helper_action(channels, j)),
{
    let n = channels.len();
    if n > 0 {
        let ji = j as int;
        let ni = n as int;
        let q = ji / ni;
        let r = ji % ni;
        vstd::arithmetic::div_mod::lemma_fundamental_div_mod(ji, ni);
        vstd::arithmetic::div_mod::lemma_mod_pos_bound(ji, ni);
        vstd::arithmetic::mul::lemma_mul_is_commutative(ni, q);
        vstd::arithmetic::mul::lemma_mul_is_distributive_add_other_way(ni, q, 1);
        if r + 1 < ni {
            vstd::arithmetic::div_mod::lemma_fundamental_div_mod_converse(ji + 1, ni, q, r + 1);
        } else {
            vstd::arithmetic::div_mod::lemma_fundamental_div_mod_converse(ji + 1, ni, q + 1, 0);
        }
        assert(j % n == r);
        assert(helper_step(helper_after(channels, j)).0 =~= helper_after(channels, j + 1));
    } else {
        assert(helper_step(helper_after(channels, j)).0 =~= helper_after(channels, j + 1));
    }
}

/// The `i`-th call of the helper since it took `channels` hands clear-to-send to channel
/// `i` modulo their number (nothing without channels); after `k` calls it has counted `k`
/// ticks and points at channel `k` modulo their number.
pub proof fn lemma_helper_calls(channels: Seq<Channel>, j: nat, k: nat)
    requires
        j + k <= usize::MAX,
    ensures
        ({
            let (h, actions) = helper_run(helper_after(channels, j), k);
            &&& h == helper_after(channels, j + k)
            &&& actions.len() == k
            &&& forall|i: int| 0 <= i < k ==> #[trigger] actions[i] == helper_action(channels, (j + i) as nat)
        }),
    decreases k,
{
    if k == 0 {
        assert(helper_after(channels, j) =~= helper_after(channels, j + k));
    } else {
        lemma_helper_one_call(channels, j);
        lemma_helper_calls(channels, j + 1, (k - 1) as nat);
        let (h1, a) = helper_step(helper_after(channels, j));
        let rest = helper_run(h1, (k - 1) as nat).1;
        assert forall|i: int| 0 <= i < k implies #[trigger] (seq![a] + rest)[i] == helper_action(channels, (j + i) as nat) by {
            if i > 0 {
                assert((seq![a] + rest)[i] == rest[i - 1]);
                assert((j + 1 + (i - 1)) as nat == (j + i) as nat);
            }
        }
        assert(j + 1 + (k - 1) == j + k);
    }
}

/// The action at position `p` of a cycle whose helper took `fresh` and whose status update
/// comes after `half` clear-to-send ticks: the new-client clear-to-send first, then the
/// helper's calls in turn, with the status update after the first `half` of them.
pub open spec fn cycle_action(fresh: Seq<Channel>, half: nat, p: nat) -> TickAction {
    if p == 0 {
        TickAction::NewClientClearToSend
    } else if p <= half {
        helper_action(fresh, (p - 1) as nat)
    } else if p == half + 1 {
        TickAction::StatusUpdate
    } else {
        helper_action(fresh, (p - 2) as nat)
    }
}

/// A tracker `j` helper calls into a cycle whose helper took `fresh`, with the action of
/// the last call pending.
pub open spec fn in_cycle(t: TrackerView, fresh: Seq<Channel>, j: nat) -> bool {
    &&& j >= 1
    &&& t.next_action == helper_action(fresh, (j - 1) as nat)
    &&& t.helper == helper_after(fresh, j)
    &&& t.clear_to_send_ticks < usize::MAX
}

proof fn lemma_content_second_half(t: TrackerView, fresh: Seq<Channel>, j: nat)
    requires
        in_cycle(t, fresh, j),
        t.half_clear_to_send_ticks < j <= t.clear_to_send_ticks,
    ensures
        ({
            let actions = tracker_run(t, fresh, (t.clear_to_send_ticks - j + 1) as nat).1;
            &&& actions.len() == t.clear_to_send_ticks - j + 1
            &&& forall|i: int| 0 <= i < actions.len() ==> #[trigger] actions[i]
                == cycle_action(fresh, t.half_clear_to_send_ticks as nat, (j + 1 + i) as nat)
        }),
    decreases t.clear_to_send_ticks - j,
{
    let k = (t.clear_to_send_ticks - j + 1) as nat;
    let (t1, a) = tracker_step(t, fresh);
    lemma_run_length(t, fresh, k);
    reveal_with_fuel(tracker_run, 2);
    assert(a == cycle_action(fresh, t.half_clear_to_send_ticks as nat, (j + 1) as nat));
    if j == t.clear_to_send_ticks {
        assert(tracker_run(t, fresh, k).1 =~= seq![a]);
    } else {
        lemma_helper_one_call(fresh, j);
        assert(in_cycle(t1, fresh, j + 1));
        lemma_content_second_half(t1, fresh, j + 1);
        let rest = tracker_run(t1, fresh, (k - 1) as nat).1;
        assert(tracker_run(t, fresh, k).1 == seq![a] + rest);
        assert forall|i: int| 0 <= i < k implies #[trigger] (seq![a] + rest)[i]
            == cycle_action(fresh, t.half_clear_to_send_ticks as nat, (j + 1 + i) as nat) by {
            if i > 0 {
                assert((seq![a] + rest)[i] == rest[i - 1]);
                assert((j + 1 + 1 + (i - 1)) as nat == (j + 1 + i) as nat);
            }
        }
    }
}

proof fn lemma_content_first_half(t: TrackerView, fresh: Seq<Channel>, j: nat)
    requires
        in_cycle(t, fresh, j),
        j <= t.half_clear_to_send_ticks < t.clear_to_send_ticks,
    ensures
        ({
            let actions = tracker_run(t, fresh, (t.clear_to_send_ticks - j + 2) as nat).1;
            &&& actions.len() == t.clear_to_send_ticks - j + 2
            &&& forall|i: int| 0 <= i < actions.len() ==> #[trigger] actions[i]
                == cycle_action(fresh, t.half_clear_to_send_ticks as nat, (j + i) as nat)
        }),
    decreases t.half_clear_to_send_ticks - j,
{
    let half = t.half_clear_to_send_ticks as nat;
    let k = (t.clear_to_send_ticks - j + 2) as nat;
    let (t1, a) = tracker_step(t, fresh);
    lemma_run_length(t, fresh, k);
    reveal_with_fuel(tracker_run, 2);
    assert(a == cycle_action(fresh, half, j));
    let rest = tracker_run(t1, fresh, (k - 1) as nat).1;
    assert(tracker_run(t, fresh, k).1 == seq![a] + rest);
    if j == half {
        assert(t1.next_action == TickAction::StatusUpdate);
        let (t2, a2) = tracker_step(t1, fresh);
        lemma_helper_one_call(fresh, j);
        assert(a2 == cycle_action(fresh, half, j + 1));
        assert(in_cycle(t2, fresh, j + 1));
        lemma_content_second_half(t2, fresh, j + 1);
        let rest2 = tracker_run(t2, fresh, (k - 2) as nat).1;
        assert(rest == seq![a2] + rest2);
        assert forall|i: int| 0 <= i < k implies #[trigger] (seq![a] + rest)[i]
            == cycle_action(fresh, half, (j + i) as nat) by {
            if i == 1 {
                assert((seq![a] + rest)[1] == rest[0]);
                assert(rest[0] == a2);
            } else if i > 1 {
                assert((seq![a] + rest)[i] == rest[i - 1]);
                assert(rest[i - 1] == rest2[i - 2]);
                assert((j + 1 + 1 + (i - 2)) as nat == (j + i) as nat);
            }
        }
    } else {
        lemma_helper_one_call(fresh, j);
        assert(in_cycle(t1, fresh, j + 1));
        lemma_content_first_half(t1, fresh, j + 1);
        assert forall|i: int| 0 <= i < k implies #[trigger] (seq![a] + rest)[i]
            == cycle_action(fresh, half, (j + i) as nat) by {
            if i > 0 {
                assert((seq![a] + rest)[i] == rest[i - 1]);
                assert((j + 1 + (i - 1)) as nat == (j + i) as nat);
            }
        }
    }
}

/// What one cycle sends, tick by tick (see `cycle_action`): the new-client clear-to-send,
/// clear-to-send to the cycle's channels in turn (nothing when there is none), and the
/// status update after the first half of them. Stated for cycles of at least 2
/// clear-to-send ticks.
pub proof fn lemma_cycle_content(t: TrackerView, fresh: Seq<Channel>)
    requires
        t.next_action == TickAction::NewClientClearToSend,
        2 <= t.clear_to_send_ticks < usize::MAX,
        t.half_clear_to_send_ticks == t.clear_to_send_ticks / 2,
    ensures
        ({
            let actions = tracker_run(t, fresh, (t.clear_to_send_ticks + 2) as nat).1;
            &&& actions.len() == t.clear_to_send_ticks + 2
            &&& forall|p: int| 0 <= p < actions.len() ==> #[trigger] actions[p]
                == cycle_action(fresh, t.half_clear_to_send_ticks as nat, p as nat)
        }),
{
    let n = t.clear_to_send_ticks;
    let half = t.half_clear_to_send_ticks as nat;
    let k = (n + 2) as nat;
    let (t1, a) = tracker_step(t, fresh);
    lemma_run_length(t, fresh, k);
    assert(HelperView { channels: fresh, next_index: 0, next_tick: 0 } == helper_after(fresh, 0));
    lemma_helper_one_call(fresh, 0);
    assert(in_cycle(t1, fresh, 1));
    lemma_content_first_half(t1, fresh, 1);
    let rest = tracker_run(t1, fresh, (k - 1) as nat).1;
    assert(tracker_run(t, fresh, k).1 == seq![a] + rest);
    assert forall|p: int| 0 <= p < k implies #[trigger] (seq![a] + rest)[p]
        == cycle_action(fresh, half, p as nat) by {
        if p > 0 {
            assert((seq![a] + rest)[p] == rest[p - 1]);
            assert((1 + (p - 1)) as nat == p as nat);
        }
    }
}

} // verus!
