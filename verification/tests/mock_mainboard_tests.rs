use balboa_spa::messages::channel::Channel;
use balboa_spa::mock_mainboard::channel_tracker::{ChannelTracker, CtsFailureAction, DeviceKey};
use balboa_spa::mock_mainboard::handling_error::{ErrorDetail, HandlingError};
use balboa_spa::mock_mainboard::timer_tracker::{TickAction, TimerTracker};

#[test]
fn test_cts_failures() {
    let mut tracker = ChannelTracker::new(2);
    let channel = tracker.select_channel(DeviceKey { device_type: 0, client_hash: 0 }).unwrap();
    let expected_actions = [
        CtsFailureAction::Tolerated,
        CtsFailureAction::ChannelRemoved,
        CtsFailureAction::ChannelNotFound,
    ];

    for expected in expected_actions {
        let action = tracker.record_cts_failure(channel);
        assert_eq!(action, expected);
    }

    assert_eq!(tracker.len(), 0);
    assert_eq!(tracker.num_devices(), 0);
}

#[test]
fn channel_tracker_reuses_and_allocates() {
    let mut tracker = ChannelTracker::new(3);
    let a = DeviceKey { device_type: 1, client_hash: 0xcafe };
    let b = DeviceKey { device_type: 1, client_hash: 0xbeef };
    assert_eq!(tracker.select_channel(a), Ok(Channel::Client(0x10)));
    assert_eq!(tracker.select_channel(b), Ok(Channel::Client(0x11)));
    assert_eq!(tracker.select_channel(a), Ok(Channel::Client(0x10)));
    assert!(tracker.is_allocated(&Channel::Client(0x11)));
    assert!(!tracker.is_allocated(&Channel::Client(0x12)));
    assert_eq!(tracker.record_cts_failure(Channel::Client(0x10)), CtsFailureAction::Tolerated);
    tracker.record_cts_success(Channel::Client(0x10));
    assert_eq!(tracker.record_cts_failure(Channel::Client(0x10)), CtsFailureAction::Tolerated);
    assert_eq!(tracker.record_cts_failure(Channel::Client(0x10)), CtsFailureAction::Tolerated);
    assert_eq!(tracker.record_cts_failure(Channel::Client(0x10)), CtsFailureAction::ChannelRemoved);
}

#[test]
fn channel_tracker_overflows() {
    let mut tracker = ChannelTracker::new(3);
    for i in 0..32u16 {
        assert_eq!(
            tracker.select_channel(DeviceKey { device_type: 0, client_hash: i }),
            Ok(Channel::Client(0x10 + i as u8)));
    }
    assert_eq!(
        tracker.select_channel(DeviceKey { device_type: 0, client_hash: 99 }),
        Err(HandlingError::ClientNeedsReconnect(ErrorDetail::ChannelOverflow)));
}

fn run_one_pass(mut tracker: TimerTracker, available_channels: Vec<Channel>) -> Vec<TickAction> {
    let mut ticks = Vec::new();
    loop {
        let next = tracker.next_action(|| available_channels.clone());
        if ticks.first() == Some(&next) {
            break;
        }
        ticks.push(next);
    }
    ticks
}

#[test]
fn test_with_clients() {
    let tracker = TimerTracker::with_cts_ticks(4);
    let expected_total_ticks = tracker.total_ticks_per_cycle();
    let channel0 = Channel::new_client_channel(0).ok().unwrap();
    let channel1 = Channel::new_client_channel(1).ok().unwrap();
    let ticks = run_one_pass(tracker, vec![channel0, channel1]);
    assert_eq!(ticks, vec![
        TickAction::NewClientClearToSend,
        TickAction::ClearToSend { channel: channel0 },
        TickAction::ClearToSend { channel: channel1 },
        TickAction::StatusUpdate,
        TickAction::ClearToSend { channel: channel0 },
        TickAction::ClearToSend { channel: channel1 },
    ]);
    assert_eq!(ticks.len(), expected_total_ticks);
}

#[test]
fn test_without_clients() {
    let tracker = TimerTracker::with_cts_ticks(4);
    let expected_total_ticks = tracker.total_ticks_per_cycle();
    let ticks = run_one_pass(tracker, vec![]);
    assert_eq!(ticks, vec![
        TickAction::NewClientClearToSend,
        TickAction::Nothing,
        TickAction::Nothing,
        TickAction::StatusUpdate,
        TickAction::Nothing,
        TickAction::Nothing,
    ]);
    assert_eq!(ticks.len(), expected_total_ticks);
}

#[test]
fn default_timer_cycle_length() {
    let tracker = TimerTracker::new();
    assert_eq!(tracker.total_ticks_per_cycle(), 34);
}

#[test]
fn channel_tracker_gives_a_freed_channel_and_never_a_held_one() {
    let mut tracker = ChannelTracker::new(1);
    let a = DeviceKey { device_type: 1, client_hash: 1 };
    let b = DeviceKey { device_type: 1, client_hash: 2 };
    let c = DeviceKey { device_type: 1, client_hash: 3 };
    let d = DeviceKey { device_type: 1, client_hash: 4 };
    assert_eq!(tracker.select_channel(a), Ok(Channel::Client(0x10)));
    assert_eq!(tracker.select_channel(b), Ok(Channel::Client(0x11)));
    assert_eq!(tracker.record_cts_failure(Channel::Client(0x10)), CtsFailureAction::ChannelRemoved);
    assert_eq!(tracker.select_channel(c), Ok(Channel::Client(0x10)));
    assert_eq!(tracker.select_channel(d), Ok(Channel::Client(0x12)));
    assert_eq!(tracker.select_channel(b), Ok(Channel::Client(0x11)));
    assert_eq!(tracker.len(), 3);
    assert_eq!(tracker.num_devices(), 3);
}
