use balboa_spa::messages::channel::Channel;
use balboa_spa::messages::configuration::ConfigurationResponseMessage;
use balboa_spa::messages::enums::{Boolean, PumpConfig};
use balboa_spa::messages::message::Message;
use balboa_spa::messages::message_kind::MessageTypeKind;
use balboa_spa::messages::message_types::MessageType;
use balboa_spa::messages::parsed_enum::ParsedEnum;
use balboa_spa::messages::payload_error::{PayloadEncodeError, PayloadParseError};
use balboa_spa::messages::settings::{
    FaultResponseMessage, InformationResponseMessage, PreferencesResponseMessage, SettingsRequestMessage, SoftwareVersion,
};
use balboa_spa::messages::temperature::SetTemperature;
use balboa_spa::messages::time::ProtocolTime;

#[test]
fn channel_assignment_request_round_trips() {
    let m = MessageType::ChannelAssignmentRequest { device_type: 0x02, client_hash: 0xcafe }
        .to_message(Channel::MulticastChannelAssignment)
        .unwrap();
    assert_eq!(m.channel, Channel::MulticastChannelAssignment);
    assert_eq!(m.message_type, 0x01);
    assert_eq!(m.payload, vec![0x02, 0xca, 0xfe]);
    match MessageType::from_message(&m).unwrap() {
        MessageType::ChannelAssignmentRequest { device_type, client_hash } => {
            assert_eq!(device_type, 0x02);
            assert_eq!(client_hash, 0xcafe);
        }
        other => panic!("unexpected {other:?}"),
    }
}

#[test]
fn channel_assignment_response_encodes_channel_byte() {
    let m = MessageType::ChannelAssignmentResponse { channel: Channel::Client(0x11), client_hash: 0x1234 }
        .to_message(Channel::MulticastChannelAssignment)
        .unwrap();
    assert_eq!(m.payload, vec![0x11, 0x12, 0x34]);
    assert_eq!(m.message_type, 0x02);
    match MessageType::from_message(&m).unwrap() {
        MessageType::ChannelAssignmentResponse { channel, client_hash } => {
            assert_eq!(channel, Channel::Client(0x11));
            assert_eq!(client_hash, 0x1234);
        }
        other => panic!("unexpected {other:?}"),
    }
}

#[test]
fn empty_messages_have_empty_payloads() {
    for (mt, byte) in [
        (MessageType::NewClientClearToSend(), 0x00u8),
        (MessageType::ChannelAssignmentAck(), 0x03),
        (MessageType::ExistingClientRequest(), 0x04),
        (MessageType::ClearToSend(), 0x06),
        (MessageType::NothingToSend(), 0x07),
    ] {
        let m = mt.to_message(Channel::Client(0x10)).unwrap();
        assert_eq!(m.message_type, byte);
        assert!(m.payload.is_empty());
    }
}

#[test]
fn short_payload_is_end_of_input() {
    let m = Message::new(Channel::MulticastChannelAssignment, 0x01, vec![0x02, 0xca]);
    assert!(matches!(MessageType::from_message(&m), Err(PayloadParseError::UnexpectedEof)));
}

#[test]
fn unknown_type_is_invalid_message_type() {
    let m = Message::new(Channel::Client(0x10), 0x99, vec![]);
    assert!(matches!(MessageType::from_message(&m), Err(PayloadParseError::InvalidMessageType)));
}

#[test]
fn filter_cycles_are_not_encodable() {
    let r = MessageType::FilterCycles { cycles: vec![] }.to_message(Channel::Client(0x10));
    assert!(matches!(r, Err(PayloadEncodeError::NotSupported)));
}

#[test]
fn set_time_request_uses_hour_and_minute_bytes() {
    let m = MessageType::SetTimeRequest { time: ProtocolTime::from_hm(13, 45) }
        .to_message(Channel::Client(0x10))
        .unwrap();
    assert_eq!(m.payload, vec![13, 45]);
    match MessageType::from_message(&m).unwrap() {
        MessageType::SetTimeRequest { time } => assert_eq!(time.as_raw(), 13 * 256 + 45),
        other => panic!("unexpected {other:?}"),
    }
}

#[test]
fn set_temperature_and_settings_requests() {
    let m = MessageType::SetTemperatureRequest { temperature: SetTemperature { raw_value: 78 } }
        .to_message(Channel::Client(0x10))
        .unwrap();
    assert_eq!(m.payload, vec![78]);
    let m = MessageType::SettingsRequest(SettingsRequestMessage::FaultLog { entry_num: 7 })
        .to_message(Channel::Client(0x10))
        .unwrap();
    assert_eq!(m.payload, vec![0x20, 7, 0]);
    match MessageType::from_message(&m).unwrap() {
        MessageType::SettingsRequest(SettingsRequestMessage::FaultLog { entry_num }) => assert_eq!(entry_num, 7),
        other => panic!("unexpected {other:?}"),
    }
}

#[test]
fn decodable_rejects_unhandled_kinds_and_bad_times() {
    assert!(!MessageType::decodable(&Message::new(Channel::Client(0x10), 0x23, vec![])));
    assert!(!MessageType::decodable(&Message::new(Channel::Client(0x10), 0x21, vec![24, 0])));
    assert!(MessageType::decodable(&Message::new(Channel::Client(0x10), 0x21, vec![23, 59])));
    assert!(MessageType::decodable(&Message::new(Channel::Client(0x10), 0x99, vec![])));
}

#[test]
fn kind_of_message() {
    let mt = MessageType::ClearToSend();
    assert_eq!(MessageTypeKind::from(&mt), MessageTypeKind::ClearToSend);
}

#[test]
fn configuration_packs_and_unpacks() {
    let config = ConfigurationResponseMessage {
        pumps: vec![
            ParsedEnum::new(PumpConfig::Speed2),
            ParsedEnum::new(PumpConfig::Speed1),
            ParsedEnum::new(PumpConfig::Absent),
        ],
        has_lights: vec![ParsedEnum::new(Boolean::True)],
        has_blower: true,
        has_circulation_pump: true,
        has_aux: vec![ParsedEnum::new(Boolean::False), ParsedEnum::new(Boolean::True)],
        has_mister: ParsedEnum::new(Boolean::True),
    };
    let bytes = config.to_payload().unwrap();
    assert_eq!(bytes, vec![0b0000_0110, 0x00, 0x01, 0x81, 0b0001_1000, 0x68]);
    let back = ConfigurationResponseMessage::from_payload(&bytes).unwrap();
    let pumps: Vec<u8> = back.pumps.iter().map(|p| p.as_raw()).collect();
    assert_eq!(pumps, vec![2, 1, 0, 0, 0, 0]);
    let lights: Vec<u8> = back.has_lights.iter().map(|p| p.as_raw()).collect();
    assert_eq!(lights, vec![1, 0]);
    let aux: Vec<u8> = back.has_aux.iter().map(|p| p.as_raw()).collect();
    assert_eq!(aux, vec![0, 1]);
    assert_eq!(back.has_mister.as_raw(), 1);
    assert!(!back.has_blower);
    assert!(!back.has_circulation_pump);
}

#[test]
fn configuration_rejects_bad_fields_and_lengths() {
    assert!(matches!(
        ConfigurationResponseMessage::from_payload(&[0, 0, 0, 0, 0]),
        Err(PayloadParseError::InvalidData)
    ));
    assert!(matches!(
        ConfigurationResponseMessage::from_payload(&[0x03, 0, 0, 0, 0, 0]),
        Err(PayloadParseError::InvalidData)
    ));
    assert!(matches!(
        ConfigurationResponseMessage::from_payload(&[0, 0, 0x02, 0, 0, 0]),
        Err(PayloadParseError::InvalidData)
    ));
}

#[test]
fn fault_log_round_trips() {
    let fault = FaultResponseMessage {
        total_entries: 3,
        entry_number: 1,
        fault_code: ParsedEnum::from_raw(0x10),
        days_ago: 2,
        time: ProtocolTime::from_hm(8, 30),
        set_temperature: 100,
    };
    let bytes = fault.to_payload();
    assert_eq!(bytes, vec![3, 1, 0x10, 2, 8, 30, 0, 100, 0, 0]);
    let back = FaultResponseMessage::from_payload(&bytes).unwrap();
    assert_eq!(back.total_entries, 3);
    assert_eq!(back.entry_number, 1);
    assert_eq!(back.fault_code.as_raw(), 0x10);
    assert_eq!(back.days_ago, 2);
    assert_eq!(back.time.as_raw(), 8 * 256 + 30);
    assert_eq!(back.set_temperature, 100);
}

#[test]
fn information_response_round_trips_with_padded_model() {
    let info = InformationResponseMessage {
        software_version: SoftwareVersion { version: [100, 201, 19, 0] },
        system_model_number: "BWG Spa".to_owned(),
        current_configuration_setup: 3,
        configuration_signature: [0xde, 0xad, 0xbe, 0xef],
        heater_voltage: ParsedEnum::from_raw(0x01),
        heater_type: ParsedEnum::from_raw(0x0a),
        dip_switch_settings: 0x1234,
    };
    let bytes = info.to_payload().unwrap();
    assert_eq!(
        bytes,
        vec![100, 201, 19, 0, b'B', b'W', b'G', b' ', b'S', b'p', b'a', 0, 3, 0xde, 0xad, 0xbe, 0xef, 0x01, 0x0a, 0x12, 0x34]
    );
    let back = InformationResponseMessage::from_payload(&bytes).unwrap();
    assert_eq!(back.software_version.version, [100, 201, 19, 0]);
    assert_eq!(back.system_model_number, "BWG Spa\0");
    assert_eq!(back.current_configuration_setup, 3);
    assert_eq!(back.configuration_signature, [0xde, 0xad, 0xbe, 0xef]);
    assert_eq!(back.heater_voltage.as_raw(), 0x01);
    assert_eq!(back.heater_type.as_raw(), 0x0a);
    assert_eq!(back.dip_switch_settings, 0x1234);
}

#[test]
fn preferences_round_trip() {
    let prefs = PreferencesResponseMessage {
        reminder_set: ParsedEnum::from_raw(1),
        temperature_scale: ParsedEnum::from_raw(1),
        clock_mode: ParsedEnum::from_raw(0),
        cleanup_cycle: ParsedEnum::from_raw(6),
        dolphin_address: 7,
        m8_artificial_intelligence: ParsedEnum::from_raw(0x42),
    };
    let bytes = prefs.to_payload();
    assert_eq!(bytes, vec![0, 1, 0, 1, 0, 6, 7, 0, 0x42, 0, 0, 0, 0, 0, 0, 0, 0, 0]);
    let back = PreferencesResponseMessage::from_payload(&bytes).unwrap();
    assert_eq!(back.reminder_set.as_raw(), 1);
    assert_eq!(back.temperature_scale.as_raw(), 1);
    assert_eq!(back.clock_mode.as_raw(), 0);
    assert_eq!(back.cleanup_cycle.as_raw(), 6);
    assert_eq!(back.dolphin_address, 7);
    assert_eq!(back.m8_artificial_intelligence.as_raw(), 0x42);
    assert!(PreferencesResponseMessage::from_payload(&bytes[0..8]).is_err());
}

#[test]
fn time_of_day_is_whole_seconds() {
    assert_eq!(ProtocolTime::from_hm(13, 45).as_duration(), std::time::Duration::from_secs(49500));
    assert_eq!(ProtocolTime::from_hm(0, 0).as_duration(), std::time::Duration::from_secs(0));
}
