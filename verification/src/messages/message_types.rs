//! Every message of the protocol with its decoded payload, and the conversions between
//! such a value and a `Message`.

use vstd::prelude::*;
use vstd::utf8::encode_utf8;
use crate::messages::byte_order::{read_u16_be, write_u16_be};
use crate::messages::channel::{byte_of_channel, channel_of_byte, is_canonical, Channel};
use crate::messages::configuration::{configuration_bytes, configuration_decoding, ConfigurationResponseMessage};
use crate::messages::enums::{
    GfciTestResult, ItemCode, LockRequestMessage, ToggleTestMessage, lock_request_message_number,
    toggle_test_message_number,
};
use crate::messages::message::Message;
use crate::messages::message_kind::{kind_byte, kind_of_byte, MessageTypeKind};
use crate::messages::parsed_enum::{ParsedEnum, ProtocolEnum};
use crate::messages::payload_error::{PayloadEncodeError, PayloadParseError};
use crate::messages::settings::{
    fault_bytes, fault_decoding, fault_time_valid, information_bytes, information_decoding,
    preferences_bytes, set_preference_bytes, settings_request_bytes, settings_request_of,
    FaultResponseMessage, FilterCycle, InformationResponseMessage, PreferencesResponseMessage,
    SetPreferenceMessage, SettingsRequestMessage,
};
use crate::messages::status_update::{
    holds_known, holds_raw, status_time_valid, status_update_decoding, status_v1_bytes, status_v1_encodable,
    StatusUpdateMessage,
};
use crate::messages::temperature::SetTemperature;
use crate::messages::time::ProtocolTime;

verus! {

/// A message with its payload decoded, one variant per message type.
#[derive(Debug, Clone)]
pub enum MessageType {
    NewClientClearToSend(),
    ChannelAssignmentRequest { device_type: u8, client_hash: u16 },
    ChannelAssignmentResponse { channel: Channel, client_hash: u16 },
    ChannelAssignmentAck(),
    ExistingClientRequest(),
    ExistingClientResponse { unknown: Vec<u8> },
    ClearToSend(),
    NothingToSend(),
    ToggleItemRequest { item_code: ParsedEnum<ItemCode, u8>, dummy1: u8 },
    StatusUpdate(StatusUpdateMessage),
    SetTemperatureRequest { temperature: SetTemperature },
    SetTimeRequest { time: ProtocolTime },
    SettingsRequest(SettingsRequestMessage),
    FilterCycles { cycles: Vec<FilterCycle> },
    InformationResponse(InformationResponseMessage),
    PreferencesResponse(PreferencesResponseMessage),
    SetPreferenceRequest(SetPreferenceMessage),
    FaultLogResponse(FaultResponseMessage),
    ChangeSetupRequest { setup_number: u8 },
    GfciTestResponse { result: ParsedEnum<GfciTestResult, u8> },
    LockRequest(LockRequestMessage),
    ConfigurationResponse(ConfigurationResponseMessage),
    WifiModuleConfigurationResponse { mac: [u8; 6] },
    ToggleTestSettingRequest(ToggleTestMessage),
}

/// The kind of a message.
pub open spec fn kind_of(m: MessageType) -> MessageTypeKind {
    match m {
        MessageType::NewClientClearToSend() => MessageTypeKind::NewClientClearToSend,
        MessageType::ChannelAssignmentRequest { .. } => MessageTypeKind::ChannelAssignmentRequest,
        MessageType::ChannelAssignmentResponse { .. } => MessageTypeKind::ChannelAssignmentResponse,
        MessageType::ChannelAssignmentAck() => MessageTypeKind::ChannelAssignmentAck,
        MessageType::ExistingClientRequest() => MessageTypeKind::ExistingClientRequest,
        MessageType::ExistingClientResponse { .. } => MessageTypeKind::ExistingClientResponse,
        MessageType::ClearToSend() => MessageTypeKind::ClearToSend,
        MessageType::NothingToSend() => MessageTypeKind::NothingToSend,
        MessageType::ToggleItemRequest { .. } => MessageTypeKind::ToggleItemRequest,
        MessageType::StatusUpdate(_) => MessageTypeKind::StatusUpdate,
        MessageType::SetTemperatureRequest { .. } => MessageTypeKind::SetTemperatureRequest,
        MessageType::SetTimeRequest { .. } => MessageTypeKind::SetTimeRequest,
        MessageType::SettingsRequest(_) => MessageTypeKind::SettingsRequest,
        MessageType::FilterCycles { .. } => MessageTypeKind::FilterCycles,
        MessageType::InformationResponse(_) => MessageTypeKind::InformationResponse,
        MessageType::PreferencesResponse(_) => MessageTypeKind::PreferencesResponse,
        MessageType::SetPreferenceRequest(_) => MessageTypeKind::SetPreferenceRequest,
        MessageType::FaultLogResponse(_) => MessageTypeKind::FaultLogResponse,
        MessageType::ChangeSetupRequest { .. } => MessageTypeKind::ChangeSetupRequest,
        MessageType::GfciTestResponse { .. } => MessageTypeKind::GfciTestResponse,
        MessageType::LockRequest(_) => MessageTypeKind::LockRequest,
        MessageType::ConfigurationResponse(_) => MessageTypeKind::ConfigurationResponse,
        MessageType::WifiModuleConfigurationResponse { .. } => MessageTypeKind::WifiModuleConfigurationResponse,
        MessageType::ToggleTestSettingRequest(_) => MessageTypeKind::ToggleTestSettingRequest,
    }
}

/// A 16-bit value as two bytes, high byte first.
pub open spec fn be16(v: u16) -> Seq<u8> {
    seq![(v / 256) as u8, (v % 256) as u8]
}

/// What the encoder needs of a message: a status update of version 1 only, with the
/// fields it reads known, and a configuration whose mister is 0 or 1.
pub open spec fn message_encodable(m: MessageType) -> bool {
    match m {
        MessageType::StatusUpdate(s) => s.v2 is None && s.v3 is None && status_v1_encodable(s.v1),
        MessageType::ConfigurationResponse(c) => c.has_mister.raw() <= 1,
        _ => true,
    }
}

/// The payload of a message, or `None` for the two cases that encoding refuses: filter
/// cycles, and an information response whose model number is longer than 8 bytes.
pub open spec fn message_payload(m: MessageType) -> Option<Seq<u8>> {
    match m {
        MessageType::NewClientClearToSend() => Some(Seq::empty()),
        MessageType::ChannelAssignmentRequest { device_type, client_hash } => Some(
            seq![device_type] + be16(client_hash),
        ),
        MessageType::ChannelAssignmentResponse { channel, client_hash } => Some(
            seq![byte_of_channel(channel)] + be16(client_hash),
        ),
        MessageType::ChannelAssignmentAck() => Some(Seq::empty()),
        MessageType::ExistingClientRequest() => Some(Seq::empty()),
        MessageType::ExistingClientResponse { unknown } => Some(unknown@),
        MessageType::ClearToSend() => Some(Seq::empty()),
        MessageType::NothingToSend() => Some(Seq::empty()),
        MessageType::ToggleItemRequest { item_code, dummy1 } => Some(seq![item_code.raw(), dummy1]),
        MessageType::StatusUpdate(s) => Some(status_v1_bytes(s.v1)),
        MessageType::SetTemperatureRequest { temperature } => Some(seq![temperature.raw_value]),
        MessageType::SetTimeRequest { time } => Some(seq![time.hour(), time.minute()]),
        MessageType::SettingsRequest(s) => Some(settings_request_bytes(s)),
        MessageType::FilterCycles { .. } => None,
        MessageType::InformationResponse(i) => if encode_utf8(i.system_model_number@).len() <= 8 {
            Some(information_bytes(i))
        } else {
            None
        },
        MessageType::PreferencesResponse(p) => Some(preferences_bytes(p)),
        MessageType::SetPreferenceRequest(s) => Some(set_preference_bytes(s)),
        MessageType::FaultLogResponse(f) => Some(fault_bytes(f)),
        MessageType::ChangeSetupRequest { setup_number } => Some(seq![setup_number]),
        MessageType::GfciTestResponse { result } => Some(seq![result.raw()]),
        MessageType::LockRequest(l) => Some(seq![lock_request_message_number(l) as u8]),
        MessageType::ConfigurationResponse(c) => Some(configuration_bytes(c)),
        MessageType::WifiModuleConfigurationResponse { mac } => Some(mac@),
        MessageType::ToggleTestSettingRequest(t) => Some(seq![toggle_test_message_number(t) as u8]),
    }
}

/// The kinds whose payload the decoder does not handle yet.
pub open spec fn undecodable_kind(k: MessageTypeKind) -> bool {
    ||| k == MessageTypeKind::FilterCycles
    ||| k == MessageTypeKind::PreferencesResponse
    ||| k == MessageTypeKind::SetPreferenceRequest
    ||| k == MessageTypeKind::ChangeSetupRequest
    ||| k == MessageTypeKind::GfciTestResponse
    ||| k == MessageTypeKind::LockRequest
    ||| k == MessageTypeKind::WifiModuleConfigurationResponse
    ||| k == MessageTypeKind::ToggleTestSettingRequest
}

/// What the decoder needs of a message: a kind it handles, and time bytes that denote a
/// time of day where the payload carries one.
pub open spec fn message_decodable(message_type: u8, p: Seq<u8>) -> bool {
    &&& (kind_of_byte(message_type) matches Some(k) ==> !undecodable_kind(k))
    &&& (message_type == 0x13 ==> status_time_valid(p))
    &&& (message_type == 0x21 && p.len() >= 2 ==> p[0] * 60 + p[1] < 24 * 60)
    &&& (message_type == 0x28 ==> fault_time_valid(p))
}

/// What decoding the payload `p` of a message of type `message_type` gives.
pub open spec fn message_decoding(message_type: u8, p: Seq<u8>, r: Result<MessageType, PayloadParseError>) -> bool {
    let eof = Err::<MessageType, PayloadParseError>(PayloadParseError::UnexpectedEof);
    match kind_of_byte(message_type) {
        None => r == Err::<MessageType, PayloadParseError>(PayloadParseError::InvalidMessageType),
        Some(k) => match k {
            MessageTypeKind::NewClientClearToSend => r == Ok::<MessageType, PayloadParseError>(
                MessageType::NewClientClearToSend(),
            ),
            MessageTypeKind::ChannelAssignmentRequest => if p.len() < 3 {
                r == eof
            } else {
                r == Ok::<MessageType, PayloadParseError>(
                    MessageType::ChannelAssignmentRequest {
                        device_type: p[0],
                        client_hash: (p[1] * 256 + p[2]) as u16,
                    },
                )
            },
            MessageTypeKind::ChannelAssignmentResponse => if p.len() < 3 {
                r == eof
            } else {
                r == Ok::<MessageType, PayloadParseError>(
                    MessageType::ChannelAssignmentResponse {
                        channel: channel_of_byte(p[0]),
                        client_hash: (p[1] * 256 + p[2]) as u16,
                    },
                )
            },
            MessageTypeKind::ChannelAssignmentAck => r == Ok::<MessageType, PayloadParseError>(
                MessageType::ChannelAssignmentAck(),
            ),
            MessageTypeKind::ExistingClientRequest => r == Ok::<MessageType, PayloadParseError>(
                MessageType::ExistingClientRequest(),
            ),
            MessageTypeKind::ExistingClientResponse => r matches Ok(
                MessageType::ExistingClientResponse { unknown },
            ) && unknown@ == p,
            MessageTypeKind::ClearToSend => r == Ok::<MessageType, PayloadParseError>(
                MessageType::ClearToSend(),
            ),
            MessageTypeKind::NothingToSend => r == Ok::<MessageType, PayloadParseError>(
                MessageType::NothingToSend(),
            ),
            MessageTypeKind::ToggleItemRequest => if p.len() < 2 {
                r == eof
            } else {
                r matches Ok(MessageType::ToggleItemRequest { item_code, dummy1 }) && holds_raw(
                    item_code,
                    p[0],
                ) && dummy1 == p[1]
            },
            MessageTypeKind::StatusUpdate => match r {
                Ok(MessageType::StatusUpdate(s)) => status_update_decoding(p, Ok(s)),
                Ok(_) => false,
                Err(e) => status_update_decoding(p, Err(e)),
            },
            MessageTypeKind::SetTemperatureRequest => if p.len() < 1 {
                r == eof
            } else {
                r == Ok::<MessageType, PayloadParseError>(
                    MessageType::SetTemperatureRequest { temperature: SetTemperature { raw_value: p[0] } },
                )
            },
            MessageTypeKind::SetTimeRequest => if p.len() < 2 {
                r == eof
            } else {
                r matches Ok(MessageType::SetTimeRequest { time }) && time.hour() == (p[0] * 60
                    + p[1]) / 60 && time.minute() == (p[0] * 60 + p[1]) % 60
            },
            MessageTypeKind::SettingsRequest => match settings_request_of(p) {
                Ok(s) => r == Ok::<MessageType, PayloadParseError>(MessageType::SettingsRequest(s)),
                Err(e) => r == Err::<MessageType, PayloadParseError>(e),
            },
            MessageTypeKind::InformationResponse => match r {
                Ok(MessageType::InformationResponse(i)) => information_decoding(p, Ok(i)),
                Ok(_) => false,
                Err(e) => information_decoding(p, Err(e)),
            },
            MessageTypeKind::FaultLogResponse => match r {
                Ok(MessageType::FaultLogResponse(f)) => fault_decoding(p, Ok(f)),
                Ok(_) => false,
                Err(e) => fault_decoding(p, Err(e)),
            },
            MessageTypeKind::ConfigurationResponse => match r {
                Ok(MessageType::ConfigurationResponse(c)) => configuration_decoding(p, Ok(c)),
                Ok(_) => false,
                Err(e) => configuration_decoding(p, Err(e)),
            },
            _ => false,
        },
    }
}

impl From<&MessageType> for MessageTypeKind {
    fn from(value: &MessageType) -> (k: MessageTypeKind) {
        value.kind()
    }
}

impl vstd::std_specs::convert::FromSpecImpl<&MessageType> for MessageTypeKind {
    open spec fn obeys_from_spec() -> bool {
        true
    }

    open spec fn from_spec(v: &MessageType) -> MessageTypeKind {
        kind_of(*v)
    }
}

/// The message bytes of a 16-bit value, high byte first.
fn be16_vec(v: u16) -> (out: Vec<u8>)
    ensures
        out@ == be16(v),
{
    let b = write_u16_be(v);
    let out = vec![b[0], b[1]];
    assert(out@ =~= be16(v));
    out
}

impl MessageType {
    /// The kind of this message.
    pub fn kind(&self) -> (k: MessageTypeKind)
        ensures
            k == kind_of(*self),
    {
        match self {
            MessageType::NewClientClearToSend() => MessageTypeKind::NewClientClearToSend,
            MessageType::ChannelAssignmentRequest { .. } => MessageTypeKind::ChannelAssignmentRequest,
            MessageType::ChannelAssignmentResponse { .. } => MessageTypeKind::ChannelAssignmentResponse,
            MessageType::ChannelAssignmentAck() => MessageTypeKind::ChannelAssignmentAck,
            MessageType::ExistingClientRequest() => MessageTypeKind::ExistingClientRequest,
            MessageType::ExistingClientResponse { .. } => MessageTypeKind::ExistingClientResponse,
            MessageType::ClearToSend() => MessageTypeKind::ClearToSend,
            MessageType::NothingToSend() => MessageTypeKind::NothingToSend,
            MessageType::ToggleItemRequest { .. } => MessageTypeKind::ToggleItemRequest,
            MessageType::StatusUpdate(_) => MessageTypeKind::StatusUpdate,
            MessageType::SetTemperatureRequest { .. } => MessageTypeKind::SetTemperatureRequest,
            MessageType::SetTimeRequest { .. } => MessageTypeKind::SetTimeRequest,
            MessageType::SettingsRequest(_) => MessageTypeKind::SettingsRequest,
            MessageType::FilterCycles { .. } => MessageTypeKind::FilterCycles,
            MessageType::InformationResponse(_) => MessageTypeKind::InformationResponse,
            MessageType::PreferencesResponse(_) => MessageTypeKind::PreferencesResponse,
            MessageType::SetPreferenceRequest(_) => MessageTypeKind::SetPreferenceRequest,
            MessageType::FaultLogResponse(_) => MessageTypeKind::FaultLogResponse,
            MessageType::ChangeSetupRequest { .. } => MessageTypeKind::ChangeSetupRequest,
            MessageType::GfciTestResponse { .. } => MessageTypeKind::GfciTestResponse,
            MessageType::LockRequest(_) => MessageTypeKind::LockRequest,
            MessageType::ConfigurationResponse(_) => MessageTypeKind::ConfigurationResponse,
            MessageType::WifiModuleConfigurationResponse { .. } => MessageTypeKind::WifiModuleConfigurationResponse,
            MessageType::ToggleTestSettingRequest(_) => MessageTypeKind::ToggleTestSettingRequest,
        }
    }

    /// The message type byte of this message.
    fn discriminant(&self) -> (b: u8)
        ensures
            b == kind_byte(kind_of(*self)),
    {
        self.kind().to_u8()
    }

    /// Encodes the payload. Filter cycles are not supported, and an information response
    /// whose model number is longer than 8 bytes is refused.
    pub fn to_payload(self) -> (result: Result<Vec<u8>, PayloadEncodeError>)
        requires
            message_encodable(self),
        ensures
            match message_payload(self) {
                Some(p) => result matches Ok(v) && v@ == p,
                None => match self {
                    MessageType::FilterCycles { .. } => result == Err::<Vec<u8>, PayloadEncodeError>(
                        PayloadEncodeError::NotSupported,
                    ),
                    _ => result matches Err(PayloadEncodeError::FieldTooLong { .. }),
                },
            },
    {
        match self {
            MessageType::NewClientClearToSend() => Ok(Vec::new()),
            MessageType::ChannelAssignmentRequest { device_type, client_hash } => {
                let mut out = vec![device_type];
                let mut tail = be16_vec(client_hash);
                out.append(&mut tail);
                Ok(out)
            },
            MessageType::ChannelAssignmentResponse { channel, client_hash } => {
                let mut out = vec![u8::from(&channel)];
                let mut tail = be16_vec(client_hash);
                out.append(&mut tail);
                Ok(out)
            },
            MessageType::ChannelAssignmentAck() => Ok(Vec::new()),
            MessageType::ExistingClientRequest() => Ok(Vec::new()),
            MessageType::ExistingClientResponse { unknown } => Ok(unknown),
            MessageType::ClearToSend() => Ok(Vec::new()),
            MessageType::NothingToSend() => Ok(Vec::new()),
            MessageType::ToggleItemRequest { item_code, dummy1 } => Ok(vec![item_code.as_raw(), dummy1]),
            MessageType::StatusUpdate(message) => message.to_payload(),
            MessageType::SetTemperatureRequest { temperature } => Ok(vec![temperature.raw_value]),
            MessageType::SetTimeRequest { time } => {
                let out = be16_vec(time.as_raw());
                Ok(out)
            },
            MessageType::SettingsRequest(message) => Ok(message.to_payload()),
            MessageType::FilterCycles { .. } => Err(PayloadEncodeError::NotSupported),
            MessageType::InformationResponse(message) => message.to_payload(),
            MessageType::PreferencesResponse(message) => Ok(message.to_payload()),
            MessageType::SetPreferenceRequest(message) => Ok(message.to_payload()),
            MessageType::FaultLogResponse(message) => Ok(message.to_payload()),
            MessageType::ChangeSetupRequest { setup_number } => Ok(vec![setup_number]),
            MessageType::GfciTestResponse { result } => Ok(vec![result.as_raw()]),
            MessageType::LockRequest(message) => Ok(vec![message.number()]),
            MessageType::ConfigurationResponse(message) => message.to_payload(),
            MessageType::WifiModuleConfigurationResponse { mac } => {
                let mut out: Vec<u8> = Vec::new();
                let mut i: usize = 0;
                while i < 6
                    invariant
                        i <= 6,
                        out@ == mac@.subrange(0, i as int),
                    decreases 6 - i,
                {
                    out.push(mac[i]);
                    i = i + 1;
                }
                Ok(out)
            },
            MessageType::ToggleTestSettingRequest(message) => Ok(vec![message.number()]),
        }
    }

    /// The message on `channel` with this message's type byte and encoded payload.
    pub fn to_message(self, channel: Channel) -> (result: Result<Message, PayloadEncodeError>)
        requires
            message_encodable(self),
        ensures
            match message_payload(self) {
                Some(p) => result matches Ok(m) && m.parts() == (channel, kind_byte(kind_of(self)), p),
                None => match self {
                    MessageType::FilterCycles { .. } => result == Err::<Message, PayloadEncodeError>(
                        PayloadEncodeError::NotSupported,
                    ),
                    _ => result matches Err(PayloadEncodeError::FieldTooLong { .. }),
                },
            },
    {
        let message_type = self.discriminant();
        match self.to_payload() {
            Ok(payload) => Ok(Message::new(channel, message_type, payload)),
            Err(e) => Err(e),
        }
    }

    /// Whether `from_message` can decode `value`: its kind is one the decoder handles, and
    /// the time bytes it carries, if any, denote a time of day.
    pub fn decodable(value: &Message) -> (b: bool)
        ensures
            b == message_decodable(value.message_type, value.payload@),
    {
        let p = &value.payload;
        let kind_ok = match MessageTypeKind::from_u8(value.message_type) {
            Some(k) => match k {
                MessageTypeKind::FilterCycles => false,
                MessageTypeKind::PreferencesResponse => false,
                MessageTypeKind::SetPreferenceRequest => false,
                MessageTypeKind::ChangeSetupRequest => false,
                MessageTypeKind::GfciTestResponse => false,
                MessageTypeKind::LockRequest => false,
                MessageTypeKind::WifiModuleConfigurationResponse => false,
                MessageTypeKind::ToggleTestSettingRequest => false,
                _ => true,
            },
            None => true,
        };
        let status_ok = value.message_type != 0x13 || p.len() < 5 || (p[3] as u32) * 60 + (p[4] as u32) < 24 * 60;
        let time_ok = value.message_type != 0x21 || p.len() < 2 || (p[0] as u32) * 60 + (p[1] as u32) < 24 * 60;
        let fault_ok = value.message_type != 0x28 || p.len() < 6 || (p[4] as u32) * 60 + (p[5] as u32) < 24 * 60;
        kind_ok && status_ok && time_ok && fault_ok
    }

    /// Decodes a message's payload according to its type byte. A type byte that names no
    /// message is an invalid message type; a payload shorter than its fields is end of input.
    pub fn from_message(value: &Message) -> (result: Result<MessageType, PayloadParseError>)
        requires
            message_decodable(value.message_type, value.payload@),
        ensures
            message_decoding(value.message_type, value.payload@, result),
    {
        let p = &value.payload;
        let kind = match MessageTypeKind::from_u8(value.message_type) {
            Some(k) => k,
            None => {
                return Err(PayloadParseError::InvalidMessageType);
            },
        };
        match kind {
            MessageTypeKind::NewClientClearToSend => Ok(MessageType::NewClientClearToSend()),
            MessageTypeKind::ChannelAssignmentRequest => {
                if p.len() < 3 {
                    return Err(PayloadParseError::UnexpectedEof);
                }
                let client_hash = read_u16_be([p[1], p[2]].as_slice());
                Ok(MessageType::ChannelAssignmentRequest { device_type: p[0], client_hash })
            },
            MessageTypeKind::ChannelAssignmentResponse => {
                if p.len() < 3 {
                    return Err(PayloadParseError::UnexpectedEof);
                }
                let channel = Channel::from(p[0]);
                let client_hash = read_u16_be([p[1], p[2]].as_slice());
                Ok(MessageType::ChannelAssignmentResponse { channel, client_hash })
            },
            MessageTypeKind::ChannelAssignmentAck => Ok(MessageType::ChannelAssignmentAck()),
            MessageTypeKind::ExistingClientRequest => Ok(MessageType::ExistingClientRequest()),
            MessageTypeKind::ExistingClientResponse => {
                let mut unknown: Vec<u8> = Vec::new();
                let mut i: usize = 0;
                while i < p.len()
                    invariant
                        i <= p@.len(),
                        unknown@ == p@.subrange(0, i as int),
                    decreases p@.len() - i,
                {
                    unknown.push(p[i]);
                    i = i + 1;
                }
                assert(unknown@ =~= p@);
                Ok(MessageType::ExistingClientResponse { unknown })
            },
            MessageTypeKind::ClearToSend => Ok(MessageType::ClearToSend()),
            MessageTypeKind::NothingToSend => Ok(MessageType::NothingToSend()),
            MessageTypeKind::ToggleItemRequest => {
                if p.len() < 2 {
                    return Err(PayloadParseError::UnexpectedEof);
                }
                Ok(MessageType::ToggleItemRequest { item_code: ParsedEnum::from_raw(p[0]), dummy1: p[1] })
            },
            MessageTypeKind::StatusUpdate => match StatusUpdateMessage::from_payload(p.as_slice()) {
                Ok(s) => Ok(MessageType::StatusUpdate(s)),
                Err(e) => Err(e),
            },
            MessageTypeKind::SetTemperatureRequest => {
                if p.len() < 1 {
                    return Err(PayloadParseError::UnexpectedEof);
                }
                Ok(MessageType::SetTemperatureRequest { temperature: SetTemperature { raw_value: p[0] } })
            },
            MessageTypeKind::SetTimeRequest => {
                if p.len() < 2 {
                    return Err(PayloadParseError::UnexpectedEof);
                }
                let time = ProtocolTime::from_hm(p[0], p[1]);
                Ok(MessageType::SetTimeRequest { time })
            },
            MessageTypeKind::SettingsRequest => match SettingsRequestMessage::from_payload(p.as_slice()) {
                Ok(s) => Ok(MessageType::SettingsRequest(s)),
                Err(e) => Err(e),
            },
            MessageTypeKind::InformationResponse => match InformationResponseMessage::from_payload(p.as_slice()) {
                Ok(i) => Ok(MessageType::InformationResponse(i)),
                Err(e) => Err(e),
            },
            MessageTypeKind::FaultLogResponse => match FaultResponseMessage::from_payload(p.as_slice()) {
                Ok(f) => Ok(MessageType::FaultLogResponse(f)),
                Err(e) => Err(e),
            },
            MessageTypeKind::ConfigurationResponse => match ConfigurationResponseMessage::from_payload(p.as_slice()) {
                Ok(c) => Ok(MessageType::ConfigurationResponse(c)),
                Err(e) => Err(e),
            },
            _ => {
                proof {
                    assert(undecodable_kind(kind));
                }
                Err(PayloadParseError::InvalidMessageType)
            },
        }
    }
}

/// The messages whose payload decodes back to exactly the value that was encoded: those
/// without a payload, the channel assignment pair (on a channel that reads back as
/// itself), set-temperature and settings requests.
pub open spec fn exactly_decodable(m: MessageType) -> bool {
    match m {
        MessageType::NewClientClearToSend() => true,
        MessageType::ChannelAssignmentRequest { .. } => true,
        MessageType::ChannelAssignmentResponse { channel, .. } => is_canonical(channel),
        MessageType::ChannelAssignmentAck() => true,
        MessageType::ExistingClientRequest() => true,
        MessageType::ClearToSend() => true,
        MessageType::NothingToSend() => true,
        MessageType::SetTemperatureRequest { .. } => true,
        MessageType::SettingsRequest(_) => true,
        _ => false,
    }
}

/// Decoding the payload that encoding gives, under the same type byte, gives back the
/// message for every exactly decodable message; the payload is also accepted by the
/// decoder's precondition.
pub proof fn lemma_message_type_roundtrip(m: MessageType)
    requires
        exactly_decodable(m),
    ensures
        message_payload(m) is Some,
        message_decodable(kind_byte(kind_of(m)), message_payload(m)->Some_0),
        message_decoding(kind_byte(kind_of(m)), message_payload(m)->Some_0, Ok(m)),
{
    match m {
        MessageType::ChannelAssignmentRequest { device_type, client_hash } => {
            let p = message_payload(m)->Some_0;
            assert(p[1] * 256 + p[2] == client_hash);
        },
        MessageType::ChannelAssignmentResponse { channel, client_hash } => {
            let p = message_payload(m)->Some_0;
            assert(p[1] * 256 + p[2] == client_hash);
        },
        MessageType::SettingsRequest(s) => {
            crate::messages::settings::lemma_settings_request_roundtrip(s);
        },
        _ => {},
    }
}

/// A toggle request for a known item `c` is sent under type 0x11 with the protocol's
/// number of the item first (Pump1 0x04, Pump2 0x05, …) and the second byte after it; a
/// toggle request received with at least two bytes names the item that its first byte
/// numbers, and keeps both bytes.
pub proof fn lemma_toggle_item_wire(
    item_code: ParsedEnum<ItemCode, u8>,
    dummy1: u8,
    c: ItemCode,
    p: Seq<u8>,
    r: Result<MessageType, PayloadParseError>,
)
    ensures
        kind_byte(MessageTypeKind::ToggleItemRequest) == 0x11u8,
        holds_known(item_code, c) ==> message_payload(MessageType::ToggleItemRequest { item_code, dummy1 })
            == Some(seq![
            match c {
                ItemCode::NormalOperation => 0x01u8,
                ItemCode::ClearNotification => 0x03u8,
                ItemCode::Pump1 => 0x04u8,
                ItemCode::Pump2 => 0x05u8,
                ItemCode::Pump3 => 0x06u8,
                ItemCode::Pump4 => 0x07u8,
                ItemCode::Pump5 => 0x08u8,
                ItemCode::Pump6 => 0x09u8,
                ItemCode::Blower => 0x0cu8,
                ItemCode::Mister => 0x0eu8,
                ItemCode::Light1 => 0x11u8,
                ItemCode::Light2 => 0x12u8,
                ItemCode::Aux1 => 0x16u8,
                ItemCode::Aux2 => 0x17u8,
                ItemCode::SoakMode => 0x1du8,
                ItemCode::HoldMode => 0x3cu8,
                ItemCode::TemperatureRange => 0x50u8,
                ItemCode::HeatMode => 0x51u8,
            },
            dummy1,
        ]),
        message_decoding(0x11, p, r) && p.len() >= 2 ==> (r matches Ok(
            MessageType::ToggleItemRequest { item_code: ic, dummy1: d },
        ) && ic.raw() == p[0] && d == p[1] && ic.parsed() == ({
            let b = p[0];
            if b == 0x01 { Some(ItemCode::NormalOperation) } else
            if b == 0x03 { Some(ItemCode::ClearNotification) } else
            if b == 0x04 { Some(ItemCode::Pump1) } else
            if b == 0x05 { Some(ItemCode::Pump2) } else
            if b == 0x06 { Some(ItemCode::Pump3) } else
            if b == 0x07 { Some(ItemCode::Pump4) } else
            if b == 0x08 { Some(ItemCode::Pump5) } else
            if b == 0x09 { Some(ItemCode::Pump6) } else
            if b == 0x0c { Some(ItemCode::Blower) } else
            if b == 0x0e { Some(ItemCode::Mister) } else
            if b == 0x11 { Some(ItemCode::Light1) } else
            if b == 0x12 { Some(ItemCode::Light2) } else
            if b == 0x16 { Some(ItemCode::Aux1) } else
            if b == 0x17 { Some(ItemCode::Aux2) } else
            if b == 0x1d { Some(ItemCode::SoakMode) } else
            if b == 0x3c { Some(ItemCode::HoldMode) } else
            if b == 0x50 { Some(ItemCode::TemperatureRange) } else
            if b == 0x51 { Some(ItemCode::HeatMode) } else
            { None }
        })),
{
    crate::messages::enums::lemma_item_code_wire_table();
    crate::messages::message_kind::lemma_kind_wire_table();
}

/// A lock request is sent under type 0x2d with the protocol's number of the request as its
/// one payload byte: lock settings 0x01, lock panel 0x02, unlock settings 0x03, unlock panel
/// 0x04.
pub proof fn lemma_lock_request_wire(l: LockRequestMessage)
    ensures
        kind_byte(kind_of(MessageType::LockRequest(l))) == 0x2du8,
        message_payload(MessageType::LockRequest(l)) == Some(seq![match l {
            LockRequestMessage::LockSettings => 0x01u8,
            LockRequestMessage::LockPanel => 0x02u8,
            LockRequestMessage::UnlockSettings => 0x03u8,
            LockRequestMessage::UnlockPanel => 0x04u8,
        }]),
{
    crate::messages::enums::lemma_lock_request_message_wire_table();
    crate::messages::message_kind::lemma_kind_wire_table();
    assert(seq![lock_request_message_number(l) as u8] =~= seq![match l {
            LockRequestMessage::LockSettings => 0x01u8,
            LockRequestMessage::LockPanel => 0x02u8,
            LockRequestMessage::UnlockSettings => 0x03u8,
            LockRequestMessage::UnlockPanel => 0x04u8,
        }]);
}

} // verus!
