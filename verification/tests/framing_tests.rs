use balboa_spa::messages::channel::Channel;
use balboa_spa::messages::frame_decoder::{DecoderState, FrameDecoder};
use balboa_spa::messages::frame_encoder::{wrap_frame, FrameEncoder};
use balboa_spa::messages::framing::{FramedReader, FramedWriter, ReaderState};
use balboa_spa::messages::message::Message;

fn decode_one(reader: &mut FrameDecoder, bytes: &[u8]) -> Option<Message> {
    let mut last_ret = None;
    for byte in bytes {
        last_ret = reader.accept(*byte);
    }
    last_ret
}

#[test]
fn frame_decoder_test_precise_happy_path() {
    let encoded = b"\x7e\x08\xfe\xbf\x01\x02\xf2\x47\x0a\x7e";
    let expected_message = Message::new(Channel::MulticastChannelAssignment, 0x1, vec![0x02, 0xf2, 0x47]);
    let expected_states = vec![
        DecoderState::GotStart,
        DecoderState::GotLength,
        DecoderState::GotLength,
        DecoderState::GotLength,
        DecoderState::GotLength,
        DecoderState::GotLength,
        DecoderState::GotLength,
        DecoderState::GotMessage,
        DecoderState::GotCrc,
        DecoderState::Ready,
    ];
    let mut expected_returns = vec![None; 9];
    expected_returns.push(Some(expected_message));
    assert_eq!(expected_returns.len(), encoded.len());

    let mut reader = FrameDecoder::new();

    for i in 0..encoded.len() {
        let ret = reader.accept(encoded[i]);
        assert_eq!(expected_returns[i], ret);
        assert_eq!(expected_states[i], reader.state());
    }
}

#[test]
fn frame_decoder_test_crc_error() {
    let encoded = b"\x7e\x05\xfe\xbf\x01\xff";

    let mut reader = FrameDecoder::new();
    for byte in encoded {
        let ret = reader.accept(*byte);
        assert_eq!(ret, None);
    }

    assert_eq!(reader.state(), DecoderState::LostPlace);
    assert_eq!(reader.frames_with_errors(), 1);
}

#[test]
fn test_regained_stream() {
    let encoded_bad = b"\x4f\x00\xdb\x7e";
    let encoded_bad_twice: Vec<_> = encoded_bad.iter()
        .chain(encoded_bad.iter())
        .copied()
        .collect();
    let writer = FrameEncoder::new();
    let message = Message::new(Channel::MulticastChannelAssignment, 0x1, vec![0x02, 0x03, 0x04]);
    let encoded_correct = writer.encode(&message).unwrap();

    let mut reader = FrameDecoder::new();
    let first = decode_one(&mut reader, &encoded_correct);
    assert_eq!(first, Some(message.clone()));
    let second = decode_one(&mut reader, encoded_bad);
    assert_eq!(reader.state(), DecoderState::LostPlaceGotEnd);
    assert_eq!(second, None);
    let third = decode_one(&mut reader, encoded_bad);
    assert_eq!(reader.state(), DecoderState::LostPlaceGotEnd);
    assert_eq!(third, None);
    let error_buf: Vec<_> = reader.latest_lost_bytes().iter().copied().collect();
    assert_eq!(error_buf, encoded_bad_twice);

    let first_correct = reader.accept(encoded_correct[0]);
    assert_eq!(first_correct, None);
    assert_eq!(reader.state(), DecoderState::GotStart);
    let third = decode_one(&mut reader, &encoded_correct[1..]);
    assert_eq!(third, Some(message));

    assert_eq!(reader.frames_with_errors(), 1);
}

#[test]
fn frame_decoder_test_reflexive_simple() {
    let mut reader = FrameDecoder::new();
    let writer = FrameEncoder::new();

    let message = Message::new(Channel::MulticastChannelAssignment, 0x1, vec![0x02, 0x03, 0x04]);
    let encoded = writer.encode(&message).unwrap();
    let decoded = decode_one(&mut reader, &encoded);

    assert_eq!(decoded, Some(message));
}

#[test]
fn framing_test_precise_happy_path() {
    let encoded = b"\x7e\x08\xfe\xbf\x01\x02\xf2\x47\x0a\x7e";
    let expected_message = Message::new(Channel::MulticastChannelAssignment, 0x1, vec![0x02, 0xf2, 0x47]);
    let expected_states = vec![
        ReaderState::GotStart,
        ReaderState::GotLength,
        ReaderState::GotLength,
        ReaderState::GotLength,
        ReaderState::GotLength,
        ReaderState::GotLength,
        ReaderState::GotLength,
        ReaderState::GotMessage,
        ReaderState::GotCrc,
        ReaderState::Ready,
    ];
    let mut expected_returns = vec![None; 9];
    expected_returns.push(Some(expected_message));
    assert_eq!(expected_returns.len(), encoded.len());

    let mut reader = FramedReader::new();

    for i in 0..encoded.len() {
        let ret = reader.accept(encoded[i]);
        assert_eq!(expected_returns[i], ret);
        assert_eq!(expected_states[i], reader.state());
    }
}

#[test]
fn framing_test_crc_error() {
    let encoded = b"\x7e\x05\xfe\xbf\x01\xff";

    let mut reader = FramedReader::new();
    for byte in encoded {
        let ret = reader.accept(*byte);
        assert_eq!(ret, None);
    }

    assert_eq!(reader.state(), ReaderState::LostPlace);
    assert_eq!(reader.frames_with_errors(), 1);
}

#[test]
fn framing_test_reflexive_simple() {
    let mut reader = FramedReader::new();
    let writer = FramedWriter::new();

    let message = Message::new(Channel::MulticastChannelAssignment, 0x1, vec![0x02, 0x03, 0x04]);
    let encoded = writer.encode(&message).unwrap();
    let mut last_ret = None;
    for byte in encoded {
        last_ret = reader.accept(byte);
    }

    assert_eq!(last_ret, Some(message));
}

#[test]
fn framing_recovers_on_next_start_byte() {
    let mut reader = FramedReader::new();
    assert_eq!(reader.accept(0x00), None);
    assert_eq!(reader.state(), ReaderState::LostPlace);
    assert!(reader.is_in_error());
    assert_eq!(reader.accept(0x7e), None);
    assert_eq!(reader.state(), ReaderState::GotStart);
    assert_eq!(reader.frames_with_errors(), 1);
}

#[test]
fn frame_decoder_rejects_long_length_byte() {
    let mut reader = FrameDecoder::new();
    assert_eq!(reader.accept(0x7e), None);
    assert_eq!(reader.accept(0x7e), None);
    assert_eq!(reader.state(), DecoderState::LostPlace);
    assert!(reader.is_in_error());
    assert_eq!(reader.frames_with_errors(), 1);
}

#[test]
fn wrap_frame_puts_checksum_before_end_byte() {
    assert_eq!(wrap_frame(&[0x05, 0x10, 0xbf, 0x06], 0x5c), vec![0x7e, 0x05, 0x10, 0xbf, 0x06, 0x5c, 0x7e]);
    assert_eq!(wrap_frame(&[], 0x00), vec![0x7e, 0x00, 0x7e]);
}
