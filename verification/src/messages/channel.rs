use vstd::prelude::*;

verus! {

/// First channel byte handed out to clients that take part in clear-to-send.
pub const CLIENT_CTS_RANGE_START: u8 = 0x10;

/// Last channel byte handed out to clients that take part in clear-to-send.
pub const CLIENT_CTS_RANGE_END: u8 = 0x2f;

/// Number of client channels that take part in clear-to-send.
pub const CLIENT_CTS_RANGE_LEN: usize = 32;

/// Logical channel (the second byte of every message) on the bus.
#[derive(Debug, PartialEq, Eq, Structural, Clone, Copy, Hash)]
pub enum Channel {
    WifiModule,
    Client(u8),
    ClientNoCTS(u8),
    MulticastChannelAssignment,
    MulticastBroadcast,
    Unknown(u8),
}

/// Returned when a client index falls outside the clear-to-send channel range.
#[derive(Debug, PartialEq, Eq, Structural, Clone, Copy)]
pub struct ChannelOverflow;

/// The channel that a channel byte on the wire denotes.
pub open spec fn channel_of_byte(b: u8) -> Channel {
    if b == 0x0a {
        Channel::WifiModule
    } else if 0x10 <= b <= 0x2f {
        Channel::Client(b)
    } else if 0x30 <= b <= 0x3f {
        Channel::ClientNoCTS(b)
    } else if b == 0xfe {
        Channel::MulticastChannelAssignment
    } else if b == 0xff {
        Channel::MulticastBroadcast
    } else {
        Channel::Unknown(b)
    }
}

/// The channel byte that is written on the wire for a channel.
pub open spec fn byte_of_channel(c: Channel) -> u8 {
    match c {
        Channel::WifiModule => 0x0a,
        Channel::Client(b) => b,
        Channel::ClientNoCTS(b) => b,
        Channel::MulticastChannelAssignment => 0xfe,
        Channel::MulticastBroadcast => 0xff,
        Channel::Unknown(b) => b,
    }
}

/// The byte that follows the channel byte: 0xAF on broadcasts, 0xBF otherwise.
pub open spec fn magic_byte_of(c: Channel) -> u8 {
    match c {
        Channel::MulticastBroadcast => 0xaf,
        _ => 0xbf,
    }
}

/// A channel that is read back unchanged from its own byte (e.g. not `Client(0x05)`).
pub open spec fn is_canonical(c: Channel) -> bool {
    channel_of_byte(byte_of_channel(c)) == c
}

impl Channel {
    /// Channel assigned to the client with the given zero-based index.
    pub fn new_client_channel(index: usize) -> (result: Result<Channel, ChannelOverflow>)
        requires
            index <= usize::MAX - 0x10,
        ensures
            index < CLIENT_CTS_RANGE_LEN ==> result == Ok::<Channel, ChannelOverflow>(
                Channel::Client((0x10 + index) as u8),
            ),
            index >= CLIENT_CTS_RANGE_LEN ==> result == Err::<Channel, ChannelOverflow>(
                ChannelOverflow,
            ),
    {
        let raw = 0x10 + index;
        if raw > 0xff {
            return Err(ChannelOverflow);
        }
        let result = raw as u8;
        if result < CLIENT_CTS_RANGE_START || result > CLIENT_CTS_RANGE_END {
            return Err(ChannelOverflow);
        }
        Ok(Channel::from(result))
    }

    /// The byte written after the channel byte of a message on this channel.
    pub fn to_magic_byte(&self) -> (b: u8)
        ensures
            b == magic_byte_of(*self),
    {
        match self {
            Channel::MulticastBroadcast => 0xaf,
            _ => 0xbf,
        }
    }
}

impl From<u8> for Channel {
    fn from(value: u8) -> (c: Channel) {
        if value == 0x0a {
            Channel::WifiModule
        } else if 0x10 <= value && value <= 0x2f {
            Channel::Client(value)
        } else if 0x30 <= value && value <= 0x3f {
            Channel::ClientNoCTS(value)
        } else if value == 0xfe {
            Channel::MulticastChannelAssignment
        } else if value == 0xff {
            Channel::MulticastBroadcast
        } else {
            Channel::Unknown(value)
        }
    }
}

impl vstd::std_specs::convert::FromSpecImpl<u8> for Channel {
    open spec fn obeys_from_spec() -> bool {
        true
    }

    open spec fn from_spec(v: u8) -> Channel {
        channel_of_byte(v)
    }
}

impl From<&Channel> for u8 {
    fn from(value: &Channel) -> (b: u8) {
        match *value {
            Channel::WifiModule => 0x0a,
            Channel::Client(c) => c,
            Channel::ClientNoCTS(c) => c,
            Channel::MulticastChannelAssignment => 0xfe,
            Channel::MulticastBroadcast => 0xff,
            Channel::Unknown(c) => c,
        }
    }
}

impl vstd::std_specs::convert::FromSpecImpl<&Channel> for u8 {
    open spec fn obeys_from_spec() -> bool {
        true
    }

    open spec fn from_spec(v: &Channel) -> u8 {
        byte_of_channel(*v)
    }
}

/// Reading a channel byte and writing the channel back gives the same byte.
pub proof fn lemma_byte_channel_roundtrip(b: u8)
    ensures
        byte_of_channel(channel_of_byte(b)) == b,
        is_canonical(channel_of_byte(b)),
{
}

/// The channel bytes of the protocol: 0x0a is the Wi-Fi module, 0x10 to 0x2f the clients
/// that take part in clear-to-send, 0x30 to 0x3f the clients that do not, 0xfe the
/// channel-assignment channel and 0xff the broadcast channel, each written back as that
/// byte; other bytes are unknown channels. Broadcasts carry the byte 0xaf after the channel
/// byte, every other message 0xbf.
pub proof fn lemma_channel_wire(b: u8, c: Channel)
    ensures
        channel_of_byte(b) == (if b == 0x0a {
            Channel::WifiModule
        } else if 0x10 <= b <= 0x2f {
            Channel::Client(b)
        } else if 0x30 <= b <= 0x3f {
            Channel::ClientNoCTS(b)
        } else if b == 0xfe {
            Channel::MulticastChannelAssignment
        } else if b == 0xff {
            Channel::MulticastBroadcast
        } else {
            Channel::Unknown(b)
        }),
        byte_of_channel(Channel::WifiModule) == 0x0au8,
        byte_of_channel(Channel::MulticastChannelAssignment) == 0xfeu8,
        byte_of_channel(Channel::MulticastBroadcast) == 0xffu8,
        byte_of_channel(Channel::Client(b)) == b,
        byte_of_channel(Channel::ClientNoCTS(b)) == b,
        byte_of_channel(Channel::Unknown(b)) == b,
        magic_byte_of(c) == (if c == Channel::MulticastBroadcast { 0xafu8 } else { 0xbfu8 }),
{
}

} // verus!
