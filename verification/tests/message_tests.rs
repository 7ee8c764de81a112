use balboa_spa::messages::channel::Channel;
use balboa_spa::messages::message::{EncodeError, Message, ParseError};

#[test]
fn test_encode_against_ref() {
    let expected = b"\x08\xfe\xbf\x01\x02\xf2\x47";
    let message = Message::new(Channel::MulticastChannelAssignment, 0x1, vec![0x02, 0xf2, 0x47]);
    let actual = message.to_bytes().unwrap();
    assert_eq!(actual, expected);
}

#[test]
fn test_decode_against_ref() {
    let expected = Message::new(Channel::MulticastChannelAssignment, 0x2, vec![0x10, 0xf2, 0x47]);
    let encoded = b"\x08\xfe\xbf\x02\x10\xf2\x47";
    let actual = Message::from_bytes(encoded).unwrap();
    assert_eq!(actual, expected);
}

#[test]
fn message_test_reflexive_simple() {
    let original = Message::new(Channel::Client(0x10), 0x1, vec![0x2, 0x3, 0x4, 0x5]);
    let encoded = original.to_bytes().unwrap();
    let decoded = Message::from_bytes(&encoded).unwrap();
    assert_eq!(decoded, original);
}

#[test]
fn message_parse_errors() {
    assert_eq!(Message::from_bytes(&[]), Err(ParseError::UnexpectedEof));
    assert_eq!(Message::from_bytes(&[0x04, 0x10, 0xbf, 0x06]), Err(ParseError::InvalidPayloadLength(4)));
    assert_eq!(Message::from_bytes(&[0x06, 0x10, 0xbf, 0x06]), Err(ParseError::UnexpectedEof));
}

#[test]
fn message_too_long() {
    let message = Message::new(Channel::Client(0x10), 0x1, vec![0; 251]);
    assert_eq!(message.to_bytes(), Err(EncodeError::MessageTooLong(251)));
}

#[test]
fn broadcast_uses_its_own_magic_byte() {
    let message = Message::new(Channel::MulticastBroadcast, 0x13, vec![]);
    assert_eq!(message.to_bytes().unwrap(), vec![0x05, 0xff, 0xaf, 0x13]);
}

#[test]
fn client_channels() {
    assert_eq!(Channel::new_client_channel(0).ok(), Some(Channel::Client(0x10)));
    assert_eq!(Channel::new_client_channel(31).ok(), Some(Channel::Client(0x2f)));
    assert!(Channel::new_client_channel(32).is_err());
    assert_eq!(Channel::from(0x0au8), Channel::WifiModule);
    assert_eq!(Channel::from(0x35u8), Channel::ClientNoCTS(0x35));
    assert_eq!(Channel::from(0x05u8), Channel::Unknown(0x05));
    assert_eq!(u8::from(&Channel::MulticastChannelAssignment), 0xfe);
}
