//! Unframed messages: length, channel, magic byte, message type, payload.

use vstd::prelude::*;
use vstd::utf8::encode_utf8;
use crate::messages::channel::{byte_of_channel, channel_of_byte, is_canonical, magic_byte_of, Channel};
use crate::messages::text::{ascii_string, hex2, hex_bytes_text, push_hex2, push_hex_bytes};

verus! {

/// Largest payload whose length still fits in the one-byte length field.
pub const MAX_PAYLOAD_LEN: usize = 250;

/// One protocol message, without the framing bytes and checksum.
#[derive(Debug, Clone, PartialEq)]
pub struct Message {
    pub channel: Channel,
    pub message_type: u8,
    pub payload: Vec<u8>,
}

/// Why a byte sequence is not a message.
#[derive(Debug, PartialEq, Eq, Structural, Clone, Copy)]
pub enum ParseError {
    /// The length byte is below the minimum of 5.
    InvalidPayloadLength(u8),
    /// Fewer bytes than the length byte announces.
    UnexpectedEof,
}

/// Why a message cannot be encoded.
#[derive(Debug, PartialEq, Eq, Structural, Clone, Copy)]
pub enum EncodeError {
    /// The payload has more than 250 bytes; carries the payload's length.
    MessageTooLong(usize),
}

/// The unframed bytes of a message: the length byte counts these bytes plus the checksum.
pub open spec fn message_bytes(channel: Channel, message_type: u8, payload: Seq<u8>) -> Seq<u8> {
    seq![
        (payload.len() + 5) as u8,
        byte_of_channel(channel),
        magic_byte_of(channel),
        message_type,
    ] + payload
}

/// What parsing a byte sequence gives: channel, message type and payload, or the error.
/// Bytes after the announced length are ignored, and so is the magic byte.
pub open spec fn parse_message_bytes(p: Seq<u8>) -> Result<(Channel, u8, Seq<u8>), ParseError> {
    if p.len() == 0 {
        Err(ParseError::UnexpectedEof)
    } else if p[0] < 5 {
        Err(ParseError::InvalidPayloadLength(p[0]))
    } else if p.len() < p[0] - 1 {
        Err(ParseError::UnexpectedEof)
    } else {
        Ok((channel_of_byte(p[1]), p[3], p.subrange(4, p[0] - 1)))
    }
}

impl Message {
    /// The message's fields as a triple of plain values.
    pub open spec fn parts(&self) -> (Channel, u8, Seq<u8>) {
        (self.channel, self.message_type, self.payload@)
    }

    /// The unframed bytes of this message.
    pub open spec fn spec_bytes(&self) -> Seq<u8> {
        message_bytes(self.channel, self.message_type, self.payload@)
    }

    pub fn new(channel: Channel, message_type: u8, payload: Vec<u8>) -> (m: Self)
        ensures
            m.channel == channel,
            m.message_type == message_type,
            m.payload == payload,
    {
        Self { channel, message_type, payload }
    }

    /// Parses the unframed bytes of a message.
    pub fn from_bytes(packet: &[u8]) -> (result: Result<Self, ParseError>)
        ensures
            match result {
                Ok(m) => parse_message_bytes(packet@) == Ok::<_, ParseError>(m.parts()),
                Err(e) => parse_message_bytes(packet@) == Err::<(Channel, u8, Seq<u8>), _>(e),
            },
    {
        if packet.len() == 0 {
            return Err(ParseError::UnexpectedEof);
        }
        let length = packet[0];
        if length < 5 {
            return Err(ParseError::InvalidPayloadLength(length));
        }
        let end = (length - 1) as usize;
        if packet.len() < end {
            return Err(ParseError::UnexpectedEof);
        }
        let channel = Channel::from(packet[1]);
        let message_type = packet[3];
        let mut payload: Vec<u8> = Vec::new();
        let mut i: usize = 4;
        while i < end
            invariant
                4 <= i <= end,
                end <= packet.len(),
                payload@ == packet@.subrange(4, i as int),
            decreases end - i,
        {
            payload.push(packet[i]);
            i = i + 1;
        }
        Ok(Message::new(channel, message_type, payload))
    }

    /// Encodes the message into its unframed bytes.
    pub fn to_bytes(&self) -> (result: Result<Vec<u8>, EncodeError>)
        ensures
            self.payload.len() <= MAX_PAYLOAD_LEN ==> result == Ok::<Vec<u8>, EncodeError>(
                result->Ok_0,
            ) && result->Ok_0@ == self.spec_bytes(),
            self.payload.len() > MAX_PAYLOAD_LEN ==> result == Err::<Vec<u8>, EncodeError>(
                EncodeError::MessageTooLong(self.payload.len()),
            ),
    {
        if self.payload.len() > MAX_PAYLOAD_LEN {
            return Err(EncodeError::MessageTooLong(self.payload.len()));
        }
        let len = (5 + self.payload.len()) as u8;
        let mut result: Vec<u8> = Vec::new();
        result.push(len);
        result.push(u8::from(&self.channel));
        result.push(self.channel.to_magic_byte());
        result.push(self.message_type);
        let mut i: usize = 0;
        while i < self.payload.len()
            invariant
                i <= self.payload.len(),
                result@ == seq![len, byte_of_channel(self.channel), magic_byte_of(self.channel), self.message_type]
                    + self.payload@.subrange(0, i as int),
            decreases self.payload.len() - i,
        {
            result.push(self.payload[i]);
            i = i + 1;
        }
        proof {
            assert(self.payload@.subrange(0, self.payload.len() as int) =~= self.payload@);
        }
        Ok(result)
    }
}

/// How a message is written in logs: the length (payload plus five), channel byte, magic
/// byte and message type, then the payload bytes, each in two-digit uppercase hexadecimal
/// followed by a space.
pub open spec fn message_debug_text(channel: Channel, message_type: u8, payload: Seq<u8>) -> Seq<u8> {
    hex2((payload.len() + 5) as nat) + seq![0x20u8] + hex2(byte_of_channel(channel) as nat)
        + seq![0x20u8] + hex2(magic_byte_of(channel) as nat) + seq![0x20u8]
        + hex2(message_type as nat) + seq![0x20u8] + hex_bytes_text(payload)
}

impl Message {
    /// The message as logs print it, as in `message_debug_text`.
    pub fn debug_string(&self) -> (s: String)
        requires
            self.payload.len() + 5 <= usize::MAX,
        ensures
            encode_utf8(s@) == message_debug_text(self.channel, self.message_type, self.payload@),
    {
        let mut out: Vec<u8> = Vec::new();
        push_hex2(&mut out, self.payload.len() + 5);
        out.push(0x20);
        let channel_byte = u8::from(&self.channel);
        push_hex2(&mut out, channel_byte as usize);
        out.push(0x20);
        push_hex2(&mut out, self.channel.to_magic_byte() as usize);
        out.push(0x20);
        push_hex2(&mut out, self.message_type as usize);
        out.push(0x20);
        push_hex_bytes(&mut out, self.payload.as_slice());
        assert(out@ =~= message_debug_text(self.channel, self.message_type, self.payload@));
        ascii_string(out)
    }
}

/// Decoding the bytes that encoding produces gives back the channel, message type and
/// payload, for every payload that fits and every channel that its own byte denotes.
pub proof fn lemma_message_bytes_roundtrip(channel: Channel, message_type: u8, payload: Seq<u8>)
    requires
        payload.len() <= MAX_PAYLOAD_LEN,
        is_canonical(channel),
    ensures
        parse_message_bytes(message_bytes(channel, message_type, payload)) == Ok::<_, ParseError>(
            (channel, message_type, payload),
        ),
{
    let b = message_bytes(channel, message_type, payload);
    assert(b.subrange(4, b[0] - 1) =~= payload);
}

} // verus!
