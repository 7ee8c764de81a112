use balboa_spa::common::bus_transport::{ReadListeners, RecvBuffer, WriteBuffer, ListenerHandle};
use balboa_spa::common::channel_allocator_broker::ChannelAllocatorBroker;
use balboa_spa::common::channel_filter::ChannelFilter;
use balboa_spa::common::cts_state_machine::{CtsStateKind, CtsStateMachine};
use balboa_spa::messages::channel::Channel;
use balboa_spa::messages::message_types::MessageType;

#[test]
fn test_allocate_only_once() {
    let allocator = ChannelAllocatorBroker::new();
    let token = allocator.try_allocate().unwrap();
    assert!(allocator.try_allocate().is_none());
    drop(token);
    assert!(allocator.try_allocate().is_some());
}

#[test]
fn released_token_frees_the_broker() {
    let allocator = ChannelAllocatorBroker::new();
    let token = allocator.try_allocate().unwrap();
    token.release();
    assert!(allocator.try_allocate().is_some());
}

#[test]
fn cts_state_machine_gets_a_channel() {
    let mut sm = CtsStateMachine::new();
    assert_eq!(sm.state_kind(), CtsStateKind::WaitingForNewClientCTS);

    let reply = sm
        .handle_message(&Channel::MulticastChannelAssignment, &MessageType::NewClientClearToSend())
        .unwrap()
        .unwrap();
    assert_eq!(reply.channel, Channel::MulticastChannelAssignment);
    assert_eq!(reply.message_type, 0x01);
    assert_eq!(reply.payload, vec![0, 0, 0]);
    assert_eq!(sm.state_kind(), CtsStateKind::WaitingForChannelAssignment);

    let other = MessageType::ChannelAssignmentResponse { channel: Channel::Client(0x12), client_hash: 0xbeef };
    assert!(sm.handle_message(&Channel::MulticastChannelAssignment, &other).unwrap().is_none());
    assert_eq!(sm.state_kind(), CtsStateKind::WaitingForChannelAssignment);

    let mine = MessageType::ChannelAssignmentResponse { channel: Channel::Client(0x11), client_hash: 0 };
    let ack = sm.handle_message(&Channel::MulticastChannelAssignment, &mine).unwrap().unwrap();
    assert_eq!(ack.channel, Channel::Client(0x11));
    assert_eq!(ack.message_type, 0x03);
    assert!(ack.payload.is_empty());
    assert_eq!(sm.state_kind(), CtsStateKind::ChannelAssigned);
    assert_eq!(sm.take_got_channel(), Some(Channel::Client(0x11)));
    assert_eq!(sm.take_got_channel(), None);

    assert!(sm
        .handle_message(&Channel::MulticastChannelAssignment, &MessageType::NewClientClearToSend())
        .unwrap()
        .is_none());
    assert_eq!(sm.state_kind(), CtsStateKind::ChannelAssigned);
}

#[test]
fn cts_state_machine_waits_before_asking_again() {
    let mut sm = CtsStateMachine::new();
    sm.handle_message(&Channel::MulticastChannelAssignment, &MessageType::NewClientClearToSend()).unwrap();
    assert!(sm
        .handle_message(&Channel::MulticastChannelAssignment, &MessageType::NewClientClearToSend())
        .unwrap()
        .is_none());
    assert_eq!(sm.state_kind(), CtsStateKind::WaitingForChannelAssignment);
}

#[test]
fn cts_state_machine_ignores_blocked_channels() {
    let mut sm = CtsStateMachine::new();
    sm.set_channel_filter(ChannelFilter::BlockEverything);
    assert!(sm
        .handle_message(&Channel::MulticastChannelAssignment, &MessageType::NewClientClearToSend())
        .unwrap()
        .is_none());
    assert_eq!(sm.state_kind(), CtsStateKind::WaitingForNewClientCTS);
}

#[test]
fn listeners_get_consecutive_handles_and_drop_gone_receivers() {
    let mut listeners = ReadListeners::new();
    assert!(!listeners.has_listeners());
    let (tx0, rx0) = std::sync::mpsc::sync_channel(4);
    let (tx1, rx1) = std::sync::mpsc::sync_channel(4);
    assert_eq!(listeners.add_listener(tx0), ListenerHandle(0));
    assert_eq!(listeners.add_listener(tx1), ListenerHandle(1));
    assert!(listeners.has_listeners());

    listeners.broadcast_to_some(Ok(&[1u8, 2, 3][..]), Some(ListenerHandle(1)));
    let got = rx0.try_recv().unwrap();
    assert_eq!(got.0.unwrap(), vec![1, 2, 3]);
    assert!(rx1.try_recv().is_err());

    drop(rx0);
    listeners.broadcast_to_all(Ok(&[4u8][..]));
    assert_eq!(rx1.try_recv().unwrap().0.unwrap(), vec![4]);
    drop(rx1);
    listeners.broadcast_to_all(Ok(&[5u8][..]));
    assert!(!listeners.has_listeners());
}

#[test]
fn recv_buffer_hands_out_bytes_in_order() {
    let mut buffer = RecvBuffer::new();
    assert!(buffer.is_drained());
    buffer.refill(vec![1, 2, 3, 4, 5]);
    assert_eq!(buffer.take(2), vec![1, 2]);
    assert_eq!(buffer.take(10), vec![3, 4, 5]);
    assert!(buffer.is_drained());
    assert_eq!(buffer.take(3), Vec::<u8>::new());
}

#[test]
fn write_buffer_refuses_writes_over_the_limit() {
    let mut buffer = WriteBuffer::new();
    assert!(buffer.write(&[0u8; 2000]));
    assert!(!buffer.write(&[0u8; 49]));
    assert!(buffer.write(&[1u8; 48]));
    let data = buffer.take();
    assert_eq!(data.len(), 2048);
    assert_eq!(data[2047], 1);
    assert!(buffer.take().is_empty());
}

#[test]
fn cts_state_machine_retries_once_the_wait_is_over() {
    let mut sm = CtsStateMachine::new();
    let cts = MessageType::NewClientClearToSend();
    let multicast = Channel::MulticastChannelAssignment;
    assert!(sm.step_message(&multicast, &cts, false).unwrap().is_some());
    assert_eq!(sm.state_kind(), CtsStateKind::WaitingForChannelAssignment);
    assert!(sm.step_message(&multicast, &cts, false).unwrap().is_none());
    assert_eq!(sm.state_kind(), CtsStateKind::WaitingForChannelAssignment);
    assert!(sm.step_message(&multicast, &cts, true).unwrap().is_none());
    assert_eq!(sm.state_kind(), CtsStateKind::WaitingForNewClientCTS);
    let again = sm.step_message(&multicast, &cts, true).unwrap().unwrap();
    assert_eq!(again.message_type, 0x01);
    assert_eq!(sm.state_kind(), CtsStateKind::WaitingForChannelAssignment);
}

#[test]
fn listeners_get_errors_of_the_same_kind() {
    let mut listeners = ReadListeners::new();
    let (tx0, rx0) = std::sync::mpsc::sync_channel(4);
    listeners.add_listener(tx0);
    let e = std::io::Error::new(std::io::ErrorKind::TimedOut, "line went quiet");
    listeners.broadcast_to_all(Err(&e));
    let got = rx0.try_recv().unwrap();
    assert_eq!(got.0.unwrap_err().kind(), std::io::ErrorKind::TimedOut);
    assert!(listeners.has_listeners());
}
