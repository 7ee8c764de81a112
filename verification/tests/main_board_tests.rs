use std::time::Duration;
use balboa_spa::common::transport::StdTransport;
use balboa_spa::messages::channel::Channel;
use balboa_spa::messages::message::Message;
use balboa_spa::messages::message_types::MessageType;
use balboa_spa::messages::settings::SettingsRequestMessage;
use balboa_spa::mock_mainboard::channel_manager::{ChannelManager, CtsEnforcementPolicy};
use balboa_spa::mock_mainboard::handling_error::{ErrorDetail, HandlingError};
use balboa_spa::mock_mainboard::main_board::{Event, MainBoard, TimerId};
use balboa_spa::mock_mainboard::mock_spa::{MockSpa, MockSpaState};
use balboa_spa::protocol;

fn mock_state() -> balboa_spa::mock_mainboard::main_board::MainBoardState {
    let board: MainBoard<Vec<u8>, Vec<u8>> = MainBoard::new(StdTransport::new(Vec::new(), Vec::new()))
        .set_clear_to_send_policy(CtsEnforcementPolicy::Always, Duration::MAX);
    let (_reader, _writer, _delay, state) = board.into_parts();
    state
}

#[test]
fn mock_board_assigns_a_channel_and_answers_information() {
    let mut state = mock_state();
    assert_eq!(state.main_tick_hz(), 34);

    let first = state.handle_event(Event::TimerTick(TimerId::SendTickMessage)).unwrap().unwrap();
    assert_eq!(first.message.channel, Channel::MulticastChannelAssignment);
    assert_eq!(first.message.message_type, 0x00);
    assert_eq!(first.expect_reply_on, Some(Channel::MulticastChannelAssignment));
    state.before_send(&first);

    let request = MessageType::ChannelAssignmentRequest { device_type: 0, client_hash: 0xcafe }
        .to_message(Channel::MulticastChannelAssignment)
        .unwrap();
    let reply = state.handle_event(Event::ReceivedMessage(request)).unwrap().unwrap();
    assert_eq!(reply.message.message_type, 0x02);
    assert_eq!(reply.message.payload, vec![0x10, 0xca, 0xfe]);
    assert_eq!(reply.expect_reply_on, Some(Channel::Client(0x10)));
    state.before_send(&reply);

    let ack = MessageType::ChannelAssignmentAck().to_message(Channel::Client(0x10)).unwrap();
    assert!(state.handle_event(Event::ReceivedMessage(ack)).unwrap().is_none());

    let info = MessageType::SettingsRequest(SettingsRequestMessage::Information)
        .to_message(Channel::Client(0x10))
        .unwrap();
    let unauthorized = state.handle_event(Event::ReceivedMessage(info.clone()));
    assert!(matches!(unauthorized, Err(HandlingError::ClientRecoverable(ErrorDetail::NoAuthorizedSenders))));
}

#[test]
fn mock_board_events_without_messages() {
    let mut state = mock_state();
    assert!(state.handle_event(Event::InitFinished).unwrap().is_none());
    assert!(matches!(
        state.handle_event(Event::ReadError),
        Err(HandlingError::FatalError(ErrorDetail::TransportFailure))
    ));
    assert!(matches!(state.handle_event(Event::Shutdown), Err(HandlingError::ShutdownRequested)));
}

#[test]
fn mock_board_refuses_messages_on_unexpected_channels() {
    let mut state = mock_state();
    let m = Message::new(Channel::WifiModule, 0x07, vec![]);
    assert!(matches!(
        state.handle_event(Event::ReceivedMessage(m)),
        Err(HandlingError::ClientUnsupported(ErrorDetail::UnexpectedChannel(Channel::WifiModule)))
    ));
}

#[test]
fn mock_spa_status_follows_run_state() {
    let mut spa = MockSpa::new();
    let status = spa.as_status();
    assert!(status.v2.is_none());
    assert_eq!(status.v1.spa_state.as_raw(), 0x01);
    assert!(status.v1.current_temperature.is_none());
    assert_eq!(status.v1.set_temperature.raw_value, 79);
    spa.run_state = MockSpaState::Heating;
    let status = spa.as_status();
    assert_eq!(status.v1.spa_state.as_raw(), 0x00);
    assert_eq!(status.v1.current_temperature.unwrap().raw_value, 40);
    assert_eq!(status.v1.pump_status[0].as_raw(), 0x01);
    let config = spa.as_configuration();
    assert_eq!(config.pumps.len(), 1);
    assert!(config.has_blower);
    let fault = spa.as_fault_log(3);
    assert_eq!(fault.total_entries, 0);
}

fn protocol_state() -> protocol::main_board::MainBoardState {
    protocol::main_board::MainBoardState::new(Duration::MAX)
}

#[test]
fn protocol_board_cycles_through_its_ticks() {
    let mut state = protocol_state();
    let tick1 = state.handle_timer(protocol::main_board::TimerId::Update66Hz).unwrap().unwrap();
    assert_eq!(tick1.message.message_type, 0x00);
    assert_eq!(tick1.expect_reply_on, None);
    let tick2 = state.handle_timer(protocol::main_board::TimerId::Update66Hz).unwrap().unwrap();
    assert_eq!(tick2.message.message_type, 0x13);
    assert_eq!(tick2.message.channel, Channel::MulticastBroadcast);
    assert!(state.handle_timer(protocol::main_board::TimerId::Update66Hz).unwrap().is_none());
}

#[test]
fn protocol_board_assigns_channels_once_per_device() {
    let mut state = protocol_state();
    let first = state
        .handle_and_generate_response(
            Channel::MulticastChannelAssignment,
            MessageType::ChannelAssignmentRequest { device_type: 1, client_hash: 0xabcd },
        )
        .unwrap()
        .unwrap();
    assert_eq!(first.message.payload, vec![0x10, 0xab, 0xcd]);
    let again = state
        .handle_and_generate_response(
            Channel::MulticastChannelAssignment,
            MessageType::ChannelAssignmentRequest { device_type: 1, client_hash: 0xabcd },
        )
        .unwrap()
        .unwrap();
    assert_eq!(again.message.payload, vec![0x10, 0xab, 0xcd]);
    let second = state
        .handle_and_generate_response(
            Channel::MulticastChannelAssignment,
            MessageType::ChannelAssignmentRequest { device_type: 2, client_hash: 0x0001 },
        )
        .unwrap()
        .unwrap();
    assert_eq!(second.expect_reply_on, Some(Channel::Client(0x11)));

    state.handle_timer(protocol::main_board::TimerId::Update66Hz).unwrap();
    state.handle_timer(protocol::main_board::TimerId::Update66Hz).unwrap();
    let cts = state.handle_timer(protocol::main_board::TimerId::Update66Hz).unwrap().unwrap();
    assert_eq!(cts.message.message_type, 0x06);
    assert_eq!(cts.message.channel, Channel::Client(0x11));
    let frame = state.prepare_send(cts).unwrap();
    assert_eq!(frame[0], 0x7e);
    assert_eq!(*frame.last().unwrap(), 0x7e);
}

#[test]
fn protocol_board_refuses_clients_without_clearance() {
    let mut state = protocol_state();
    state
        .handle_and_generate_response(
            Channel::MulticastChannelAssignment,
            MessageType::ChannelAssignmentRequest { device_type: 1, client_hash: 0xabcd },
        )
        .unwrap();
    let m = MessageType::NothingToSend().to_message(Channel::Client(0x10)).unwrap();
    assert!(matches!(
        state.validate_message(&m),
        Err(HandlingError::ClientNeedsReconnect(ErrorDetail::NoAuthorizedSenders))
    ));
    let m = MessageType::NothingToSend().to_message(Channel::Client(0x12)).unwrap();
    assert!(matches!(
        state.validate_message(&m),
        Err(HandlingError::ClientNeedsReconnect(ErrorDetail::UnassignedChannel(Channel::Client(0x12))))
    ));
}

#[test]
fn protocol_board_verdict_for_each_clearance() {
    let mut state = protocol_state();
    state
        .handle_and_generate_response(
            Channel::MulticastChannelAssignment,
            MessageType::ChannelAssignmentRequest { device_type: 1, client_hash: 0xabcd },
        )
        .unwrap();
    let client = Channel::Client(0x10);
    assert!(state.message_verdict(Some(client), client, false).is_ok());
    assert!(matches!(
        state.message_verdict(Some(client), client, true),
        Err(HandlingError::ClientNeedsReconnect(ErrorDetail::WindowExpired(Channel::Client(0x10))))
    ));
    assert!(matches!(
        state.message_verdict(Some(Channel::Client(0x11)), client, false),
        Err(HandlingError::ClientNeedsReconnect(ErrorDetail::WaitingForSender(Some(Channel::Client(0x11)))))
    ));
    assert!(matches!(
        state.message_verdict(None, client, false),
        Err(HandlingError::ClientNeedsReconnect(ErrorDetail::NoAuthorizedSenders))
    ));
    assert!(state.message_verdict(None, Channel::MulticastChannelAssignment, true).is_ok());
    assert!(matches!(
        state.message_verdict(None, Channel::WifiModule, false),
        Err(HandlingError::ClientUnsupported(ErrorDetail::UnexpectedChannel(Channel::WifiModule)))
    ));
}

#[test]
fn mock_spa_status_carries_the_time_of_day() {
    let spa = MockSpa::new();
    let status = spa.as_status_at(13, 45);
    assert_eq!(status.v1.time.as_raw(), 13 * 256 + 45);
    assert_eq!(status.v1.set_temperature.raw_value, 79);
    let midnight = spa.as_status_at(0, 0);
    assert_eq!(midnight.v1.time.as_raw(), 0);
}

#[test]
fn protocol_board_forgets_clearance_once_window_passed() {
    let mut state = protocol_state();
    state
        .handle_and_generate_response(
            Channel::MulticastChannelAssignment,
            MessageType::ChannelAssignmentRequest { device_type: 1, client_hash: 0xabcd },
        )
        .unwrap();
    state.handle_timer_with(protocol::main_board::TimerId::Update66Hz, false).unwrap();
    state.handle_timer_with(protocol::main_board::TimerId::Update66Hz, false).unwrap();
    let cts = state.handle_timer_with(protocol::main_board::TimerId::Update66Hz, false).unwrap().unwrap();
    assert_eq!(cts.message.message_type, 0x06);
    state.prepare_send(cts).unwrap();
    // Cleared to send: the line stays held while the window is open.
    assert!(state.handle_timer_with(protocol::main_board::TimerId::Update66Hz, false).unwrap().is_none());
    assert!(state.handle_timer_with(protocol::main_board::TimerId::Update66Hz, false).unwrap().is_none());
    // Once it has passed, the clearance is forgotten and the next tick sends again.
    assert!(state.handle_timer_with(protocol::main_board::TimerId::Update66Hz, true).unwrap().is_none());
    let next = state.handle_timer_with(protocol::main_board::TimerId::Update66Hz, false).unwrap().unwrap();
    assert_eq!(next.message.message_type, 0x06);
}

#[test]
fn protocol_board_broadcasts_its_own_spa_status_on_tick_two() {
    let mut state = protocol_state();
    let first = state.handle_timer_with(protocol::main_board::TimerId::Update66Hz, false).unwrap().unwrap();
    assert_eq!(first.message.message_type, 0x00);
    let status = state.handle_timer_with(protocol::main_board::TimerId::Update66Hz, false).unwrap().unwrap();
    assert_eq!(status.message.channel, Channel::MulticastBroadcast);
    assert_eq!(status.message.message_type, 0x13);
    let payload = status.message.payload;
    let expected = MessageType::StatusUpdate(MockSpa::new().as_status_at(payload[3], payload[4]))
        .to_message(Channel::MulticastBroadcast)
        .unwrap();
    assert_eq!(payload, expected.payload);
}

#[test]
fn cts_is_enforced_only_with_more_than_one_client() {
    let mut manager = ChannelManager::with_policy(CtsEnforcementPolicy::ForMultipleClients, Duration::from_millis(20));
    let first = manager
        .select_channel(balboa_spa::mock_mainboard::channel_tracker::DeviceKey { device_type: 0, client_hash: 0xcafe })
        .unwrap();
    let m = Message::new(first, 0x07, vec![]);
    assert!(manager.validate_message(&m).is_ok());
    manager
        .select_channel(balboa_spa::mock_mainboard::channel_tracker::DeviceKey { device_type: 0, client_hash: 0xbeef })
        .unwrap();
    assert!(manager.validate_message(&m).is_err());
}

#[test]
fn mock_board_get_version_after_clear_to_send() {
    // A short window, so that a new-client clear-to-send that nobody answers lapses.
    let board: MainBoard<Vec<u8>, Vec<u8>> = MainBoard::new(StdTransport::new(Vec::new(), Vec::new()))
        .set_clear_to_send_policy(CtsEnforcementPolicy::Always, Duration::from_millis(200));
    let (_reader, _writer, _delay, mut state) = board.into_parts();
    let mut my_channel = None;
    let mut model = None;
    for _ in 0..2000 {
        let sent = state.handle_event(Event::TimerTick(TimerId::SendTickMessage)).unwrap();
        let Some(sent) = sent else {
            let idle = std::time::Instant::now();
            while idle.elapsed() < Duration::from_millis(1) {}
            continue;
        };
        state.before_send(&sent);
        let message = sent.message.clone();
        let parsed = MessageType::from_message(&message).unwrap();
        match (message.channel, parsed) {
            (Channel::MulticastChannelAssignment, MessageType::NewClientClearToSend()) if my_channel.is_none() => {
                let request = MessageType::ChannelAssignmentRequest { device_type: 0, client_hash: 0xcafe }
                    .to_message(Channel::MulticastChannelAssignment)
                    .unwrap();
                let reply = state.handle_event(Event::ReceivedMessage(request)).unwrap().unwrap();
                state.before_send(&reply);
                match MessageType::from_message(&reply.message).unwrap() {
                    MessageType::ChannelAssignmentResponse { channel, client_hash } => {
                        assert_eq!(client_hash, 0xcafe);
                        my_channel = Some(channel);
                        let ack = MessageType::ChannelAssignmentAck().to_message(channel).unwrap();
                        assert!(state.handle_event(Event::ReceivedMessage(ack)).unwrap().is_none());
                    }
                    other => panic!("unexpected reply {other:?}"),
                }
            }
            (channel, MessageType::ClearToSend()) if Some(channel) == my_channel => {
                let request = MessageType::SettingsRequest(SettingsRequestMessage::Information)
                    .to_message(channel)
                    .unwrap();
                let reply = state.handle_event(Event::ReceivedMessage(request)).unwrap().unwrap();
                assert_eq!(reply.message.channel, channel);
                match MessageType::from_message(&reply.message).unwrap() {
                    MessageType::InformationResponse(info) => model = Some(info.system_model_number),
                    other => panic!("unexpected reply {other:?}"),
                }
                break;
            }
            _ => {}
        }
    }
    assert_eq!(model.as_deref(), Some("Mock Spa"));
}
