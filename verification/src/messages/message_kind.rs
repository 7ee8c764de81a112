//! The message type byte of each message the protocol knows.

use vstd::prelude::*;

verus! {

/// Message types, by the byte that identifies them.
#[derive(Debug, PartialEq, Eq, Structural, Clone, Copy)]
pub enum MessageTypeKind {
    NewClientClearToSend,
    ChannelAssignmentRequest,
    ChannelAssignmentResponse,
    ChannelAssignmentAck,
    ExistingClientRequest,
    ExistingClientResponse,
    ClearToSend,
    NothingToSend,
    ToggleItemRequest,
    StatusUpdate,
    SetTemperatureRequest,
    SetTimeRequest,
    SettingsRequest,
    FilterCycles,
    InformationResponse,
    PreferencesResponse,
    SetPreferenceRequest,
    FaultLogResponse,
    ChangeSetupRequest,
    GfciTestResponse,
    LockRequest,
    ConfigurationResponse,
    WifiModuleConfigurationResponse,
    ToggleTestSettingRequest,
}

/// The message type byte of each kind.
pub open spec fn kind_byte(k: MessageTypeKind) -> u8 {
    match k {
        MessageTypeKind::NewClientClearToSend => 0x00,
        MessageTypeKind::ChannelAssignmentRequest => 0x01,
        MessageTypeKind::ChannelAssignmentResponse => 0x02,
        MessageTypeKind::ChannelAssignmentAck => 0x03,
        MessageTypeKind::ExistingClientRequest => 0x04,
        MessageTypeKind::ExistingClientResponse => 0x05,
        MessageTypeKind::ClearToSend => 0x06,
        MessageTypeKind::NothingToSend => 0x07,
        MessageTypeKind::ToggleItemRequest => 0x11,
        MessageTypeKind::StatusUpdate => 0x13,
        MessageTypeKind::SetTemperatureRequest => 0x20,
        MessageTypeKind::SetTimeRequest => 0x21,
        MessageTypeKind::SettingsRequest => 0x22,
        MessageTypeKind::FilterCycles => 0x23,
        MessageTypeKind::InformationResponse => 0x24,
        MessageTypeKind::PreferencesResponse => 0x26,
        MessageTypeKind::SetPreferenceRequest => 0x27,
        MessageTypeKind::FaultLogResponse => 0x28,
        MessageTypeKind::ChangeSetupRequest => 0x2a,
        MessageTypeKind::GfciTestResponse => 0x2b,
        MessageTypeKind::LockRequest => 0x2d,
        MessageTypeKind::ConfigurationResponse => 0x2e,
        MessageTypeKind::WifiModuleConfigurationResponse => 0x94,
        MessageTypeKind::ToggleTestSettingRequest => 0xe0,
    }
}

/// The kind that a message type byte denotes, if any.
pub open spec fn kind_of_byte(b: u8) -> Option<MessageTypeKind> {
    if b == 0x00 { Some(MessageTypeKind::NewClientClearToSend) }
    else if b == 0x01 { Some(MessageTypeKind::ChannelAssignmentRequest) }
    else if b == 0x02 { Some(MessageTypeKind::ChannelAssignmentResponse) }
    else if b == 0x03 { Some(MessageTypeKind::ChannelAssignmentAck) }
    else if b == 0x04 { Some(MessageTypeKind::ExistingClientRequest) }
    else if b == 0x05 { Some(MessageTypeKind::ExistingClientResponse) }
    else if b == 0x06 { Some(MessageTypeKind::ClearToSend) }
    else if b == 0x07 { Some(MessageTypeKind::NothingToSend) }
    else if b == 0x11 { Some(MessageTypeKind::ToggleItemRequest) }
    else if b == 0x13 { Some(MessageTypeKind::StatusUpdate) }
    else if b == 0x20 { Some(MessageTypeKind::SetTemperatureRequest) }
    else if b == 0x21 { Some(MessageTypeKind::SetTimeRequest) }
    else if b == 0x22 { Some(MessageTypeKind::SettingsRequest) }
    else if b == 0x23 { Some(MessageTypeKind::FilterCycles) }
    else if b == 0x24 { Some(MessageTypeKind::InformationResponse) }
    else if b == 0x26 { Some(MessageTypeKind::PreferencesResponse) }
    else if b == 0x27 { Some(MessageTypeKind::SetPreferenceRequest) }
    else if b == 0x28 { Some(MessageTypeKind::FaultLogResponse) }
    else if b == 0x2a { Some(MessageTypeKind::ChangeSetupRequest) }
    else if b == 0x2b { Some(MessageTypeKind::GfciTestResponse) }
    else if b == 0x2d { Some(MessageTypeKind::LockRequest) }
    else if b == 0x2e { Some(MessageTypeKind::ConfigurationResponse) }
    else if b == 0x94 { Some(MessageTypeKind::WifiModuleConfigurationResponse) }
    else if b == 0xe0 { Some(MessageTypeKind::ToggleTestSettingRequest) }
    else { None }
}

impl MessageTypeKind {
    /// The kind that a message type byte denotes, if any.
    pub fn from_u8(b: u8) -> (k: Option<MessageTypeKind>)
        ensures
            k == kind_of_byte(b),
    {
        match b {
            0x00 => Some(MessageTypeKind::NewClientClearToSend),
            0x01 => Some(MessageTypeKind::ChannelAssignmentRequest),
            0x02 => Some(MessageTypeKind::ChannelAssignmentResponse),
            0x03 => Some(MessageTypeKind::ChannelAssignmentAck),
            0x04 => Some(MessageTypeKind::ExistingClientRequest),
            0x05 => Some(MessageTypeKind::ExistingClientResponse),
            0x06 => Some(MessageTypeKind::ClearToSend),
            0x07 => Some(MessageTypeKind::NothingToSend),
            0x11 => Some(MessageTypeKind::ToggleItemRequest),
            0x13 => Some(MessageTypeKind::StatusUpdate),
            0x20 => Some(MessageTypeKind::SetTemperatureRequest),
            0x21 => Some(MessageTypeKind::SetTimeRequest),
            0x22 => Some(MessageTypeKind::SettingsRequest),
            0x23 => Some(MessageTypeKind::FilterCycles),
            0x24 => Some(MessageTypeKind::InformationResponse),
            0x26 => Some(MessageTypeKind::PreferencesResponse),
            0x27 => Some(MessageTypeKind::SetPreferenceRequest),
            0x28 => Some(MessageTypeKind::FaultLogResponse),
            0x2a => Some(MessageTypeKind::ChangeSetupRequest),
            0x2b => Some(MessageTypeKind::GfciTestResponse),
            0x2d => Some(MessageTypeKind::LockRequest),
            0x2e => Some(MessageTypeKind::ConfigurationResponse),
            0x94 => Some(MessageTypeKind::WifiModuleConfigurationResponse),
            0xe0 => Some(MessageTypeKind::ToggleTestSettingRequest),
            _ => None,
        }
    }

    /// The message type byte of this kind.
    pub fn to_u8(&self) -> (b: u8)
        ensures
            b == kind_byte(*self),
    {
        match self {
            MessageTypeKind::NewClientClearToSend => 0x00,
            MessageTypeKind::ChannelAssignmentRequest => 0x01,
            MessageTypeKind::ChannelAssignmentResponse => 0x02,
            MessageTypeKind::ChannelAssignmentAck => 0x03,
            MessageTypeKind::ExistingClientRequest => 0x04,
            MessageTypeKind::ExistingClientResponse => 0x05,
            MessageTypeKind::ClearToSend => 0x06,
            MessageTypeKind::NothingToSend => 0x07,
            MessageTypeKind::ToggleItemRequest => 0x11,
            MessageTypeKind::StatusUpdate => 0x13,
            MessageTypeKind::SetTemperatureRequest => 0x20,
            MessageTypeKind::SetTimeRequest => 0x21,
            MessageTypeKind::SettingsRequest => 0x22,
            MessageTypeKind::FilterCycles => 0x23,
            MessageTypeKind::InformationResponse => 0x24,
            MessageTypeKind::PreferencesResponse => 0x26,
            MessageTypeKind::SetPreferenceRequest => 0x27,
            MessageTypeKind::FaultLogResponse => 0x28,
            MessageTypeKind::ChangeSetupRequest => 0x2a,
            MessageTypeKind::GfciTestResponse => 0x2b,
            MessageTypeKind::LockRequest => 0x2d,
            MessageTypeKind::ConfigurationResponse => 0x2e,
            MessageTypeKind::WifiModuleConfigurationResponse => 0x94,
            MessageTypeKind::ToggleTestSettingRequest => 0xe0,
        }
    }
}

/// Every kind's byte denotes that kind, and every byte that denotes a kind is its byte.
pub proof fn lemma_kind_byte_roundtrip(k: MessageTypeKind, b: u8)
    ensures
        kind_of_byte(kind_byte(k)) == Some(k),
        kind_of_byte(b) matches Some(k2) ==> kind_byte(k2) == b,
{
}

/// The message type byte of each kind, as the protocol's table numbers it, the kind of
/// each such byte, and no kind for any other byte.
pub proof fn lemma_kind_wire_table()
    ensures
        kind_byte(MessageTypeKind::NewClientClearToSend) == 0x00u8,
        kind_byte(MessageTypeKind::ChannelAssignmentRequest) == 0x01u8,
        kind_byte(MessageTypeKind::ChannelAssignmentResponse) == 0x02u8,
        kind_byte(MessageTypeKind::ChannelAssignmentAck) == 0x03u8,
        kind_byte(MessageTypeKind::ExistingClientRequest) == 0x04u8,
        kind_byte(MessageTypeKind::ExistingClientResponse) == 0x05u8,
        kind_byte(MessageTypeKind::ClearToSend) == 0x06u8,
        kind_byte(MessageTypeKind::NothingToSend) == 0x07u8,
        kind_byte(MessageTypeKind::ToggleItemRequest) == 0x11u8,
        kind_byte(MessageTypeKind::StatusUpdate) == 0x13u8,
        kind_byte(MessageTypeKind::SetTemperatureRequest) == 0x20u8,
        kind_byte(MessageTypeKind::SetTimeRequest) == 0x21u8,
        kind_byte(MessageTypeKind::SettingsRequest) == 0x22u8,
        kind_byte(MessageTypeKind::FilterCycles) == 0x23u8,
        kind_byte(MessageTypeKind::InformationResponse) == 0x24u8,
        kind_byte(MessageTypeKind::PreferencesResponse) == 0x26u8,
        kind_byte(MessageTypeKind::SetPreferenceRequest) == 0x27u8,
        kind_byte(MessageTypeKind::FaultLogResponse) == 0x28u8,
        kind_byte(MessageTypeKind::ChangeSetupRequest) == 0x2au8,
        kind_byte(MessageTypeKind::GfciTestResponse) == 0x2bu8,
        kind_byte(MessageTypeKind::LockRequest) == 0x2du8,
        kind_byte(MessageTypeKind::ConfigurationResponse) == 0x2eu8,
        kind_byte(MessageTypeKind::WifiModuleConfigurationResponse) == 0x94u8,
        kind_byte(MessageTypeKind::ToggleTestSettingRequest) == 0xe0u8,
        kind_of_byte(0x00u8) == Some(MessageTypeKind::NewClientClearToSend),
        kind_of_byte(0x01u8) == Some(MessageTypeKind::ChannelAssignmentRequest),
        kind_of_byte(0x02u8) == Some(MessageTypeKind::ChannelAssignmentResponse),
        kind_of_byte(0x03u8) == Some(MessageTypeKind::ChannelAssignmentAck),
        kind_of_byte(0x04u8) == Some(MessageTypeKind::ExistingClientRequest),
        kind_of_byte(0x05u8) == Some(MessageTypeKind::ExistingClientResponse),
        kind_of_byte(0x06u8) == Some(MessageTypeKind::ClearToSend),
        kind_of_byte(0x07u8) == Some(MessageTypeKind::NothingToSend),
        kind_of_byte(0x11u8) == Some(MessageTypeKind::ToggleItemRequest),
        kind_of_byte(0x13u8) == Some(MessageTypeKind::StatusUpdate),
        kind_of_byte(0x20u8) == Some(MessageTypeKind::SetTemperatureRequest),
        kind_of_byte(0x21u8) == Some(MessageTypeKind::SetTimeRequest),
        kind_of_byte(0x22u8) == Some(MessageTypeKind::SettingsRequest),
        kind_of_byte(0x23u8) == Some(MessageTypeKind::FilterCycles),
        kind_of_byte(0x24u8) == Some(MessageTypeKind::InformationResponse),
        kind_of_byte(0x26u8) == Some(MessageTypeKind::PreferencesResponse),
        kind_of_byte(0x27u8) == Some(MessageTypeKind::SetPreferenceRequest),
        kind_of_byte(0x28u8) == Some(MessageTypeKind::FaultLogResponse),
        kind_of_byte(0x2au8) == Some(MessageTypeKind::ChangeSetupRequest),
        kind_of_byte(0x2bu8) == Some(MessageTypeKind::GfciTestResponse),
        kind_of_byte(0x2du8) == Some(MessageTypeKind::LockRequest),
        kind_of_byte(0x2eu8) == Some(MessageTypeKind::ConfigurationResponse),
        kind_of_byte(0x94u8) == Some(MessageTypeKind::WifiModuleConfigurationResponse),
        kind_of_byte(0xe0u8) == Some(MessageTypeKind::ToggleTestSettingRequest),
        forall|b: u8| b != 0x00 && b != 0x01 && b != 0x02 && b != 0x03 && b != 0x04 && b != 0x05 && b != 0x06 && b != 0x07 && b != 0x11 && b != 0x13 && b != 0x20 && b != 0x21 && b != 0x22 && b != 0x23 && b != 0x24 && b != 0x26 && b != 0x27 && b != 0x28 && b != 0x2a && b != 0x2b && b != 0x2d && b != 0x2e && b != 0x94 && b != 0xe0 ==> #[trigger] kind_of_byte(b) is None,
{
}

} // verus!
