use balboa_spa::messages::channel::Channel;
use balboa_spa::messages::message::Message;
use balboa_spa::messages::ring_buffer::ByteRingBuffer;
use balboa_spa::messages::settings::SoftwareVersion;

#[test]
fn message_debug_text_lists_header_and_payload() {
    let empty = Message::new(Channel::Client(0x10), 0x06, vec![]);
    assert_eq!(empty.debug_string(), "05 10 BF 06 ");
    let with_payload = Message::new(Channel::MulticastBroadcast, 0x13, vec![0x01, 0xab, 0x00]);
    assert_eq!(with_payload.debug_string(), "08 FF AF 13 01 AB 00 ");
}

#[test]
fn ring_buffer_debug_text_notes_dropped_bytes() {
    let mut buffer = ByteRingBuffer::with_max_size(2);
    buffer.push(0x0a);
    assert_eq!(buffer.debug_string(), "0A ");
    buffer.push(0x7e);
    buffer.push(0xf1);
    assert_eq!(buffer.debug_string(), "[missing 1 bytes...] 7E F1 ");
    for _ in 0..11 {
        buffer.push(0);
    }
    assert_eq!(buffer.debug_string(), "[missing 12 bytes...] 00 00 ");
}

#[test]
fn software_version_text() {
    assert_eq!(SoftwareVersion { version: [100, 201, 19, 0] }.display_string(), "M100_201 V19");
    assert_eq!(SoftwareVersion { version: [1, 2, 3, 4] }.display_string(), "M1_2 V3.4");
}
