//! Payloads of the settings requests and of the main board's replies to them.

use std::time::Duration;
use vstd::prelude::*;
use vstd::utf8::{
    decode_utf8, decode_utf8_encode_utf8, encode_utf8, encode_utf8_decode_utf8, encode_utf8_valid_utf8,
    is_ascii_chars, is_ascii_chars_encode_utf8, valid_utf8_concat,
};
use crate::messages::array_utils::{encode_array, zero_padded};
use crate::messages::byte_order::{read_u16_be, write_u16_be};
use crate::messages::enums::{
    Boolean, ClockMode, FaultCode, HeaterType, HeaterVoltage, PumpConfig, RelayConfig, TemperatureScale,
    pump_config_of_number, relay_config_of_number, pump_config_number, relay_config_number,
    temperature_scale_number, clock_mode_number,
};
use crate::messages::parsed_enum::{ParsedEnum, ProtocolEnum};
use crate::messages::payload_error::{PayloadEncodeError, PayloadParseError};
use crate::messages::status::bit_field;
use crate::messages::status_update::{holds_known, holds_raw, is_known};
use crate::messages::time::{duration_from_secs, ProtocolTime};
use crate::messages::text::{ascii_string, dec_digits, push_decimal};

verus! {

/// Which settings a client asks for.
#[derive(Debug, Clone, Copy, PartialEq, Eq, Structural)]
pub enum SettingsRequestMessage {
    Configuration,
    FilterCycles,
    Information,
    Preferences,
    FaultLog { entry_num: u8 },
    GfciTest,
}

/// The three payload bytes of a settings request.
pub open spec fn settings_request_bytes(m: SettingsRequestMessage) -> Seq<u8> {
    match m {
        SettingsRequestMessage::Configuration => seq![0x00u8, 0x00, 0x01],
        SettingsRequestMessage::FilterCycles => seq![0x01u8, 0x00, 0x00],
        SettingsRequestMessage::Information => seq![0x02u8, 0x00, 0x00],
        SettingsRequestMessage::Preferences => seq![0x08u8, 0x00, 0x00],
        SettingsRequestMessage::FaultLog { entry_num } => seq![0x20u8, entry_num, 0x00],
        SettingsRequestMessage::GfciTest => seq![0x80u8, 0x00, 0x00],
    }
}

/// What decoding a settings request payload gives.
pub open spec fn settings_request_of(p: Seq<u8>) -> Result<SettingsRequestMessage, PayloadParseError> {
    if p.len() == 0 {
        Err(PayloadParseError::UnexpectedEof)
    } else if p[0] == 0x00 {
        Ok(SettingsRequestMessage::Configuration)
    } else if p[0] == 0x01 {
        Ok(SettingsRequestMessage::FilterCycles)
    } else if p[0] == 0x02 {
        Ok(SettingsRequestMessage::Information)
    } else if p[0] == 0x08 {
        Ok(SettingsRequestMessage::Preferences)
    } else if p[0] == 0x20 {
        if p.len() < 2 {
            Err(PayloadParseError::UnexpectedEof)
        } else {
            Ok(SettingsRequestMessage::FaultLog { entry_num: p[1] })
        }
    } else if p[0] == 0x80 {
        Ok(SettingsRequestMessage::GfciTest)
    } else {
        Err(PayloadParseError::InvalidMessageType)
    }
}

impl SettingsRequestMessage {
    pub fn to_payload(&self) -> (v: Vec<u8>)
        ensures
            v@ == settings_request_bytes(*self),
    {
        let v = match self {
            SettingsRequestMessage::Configuration => vec![0x00, 0x0, 0x1],
            SettingsRequestMessage::FilterCycles => vec![0x01, 0x0, 0x0],
            SettingsRequestMessage::Information => vec![0x02, 0x0, 0x0],
            SettingsRequestMessage::Preferences => vec![0x08, 0x0, 0x0],
            SettingsRequestMessage::FaultLog { entry_num } => vec![0x20, *entry_num, 0x0],
            SettingsRequestMessage::GfciTest => vec![0x80, 0x0, 0x0],
        };
        assert(v@ =~= settings_request_bytes(*self));
        v
    }

    pub fn from_payload(value: &[u8]) -> (r: Result<Self, PayloadParseError>)
        ensures
            r == settings_request_of(value@),
    {
        if value.len() == 0 {
            return Err(PayloadParseError::UnexpectedEof);
        }
        match value[0] {
            0x00 => Ok(Self::Configuration),
            0x01 => Ok(Self::FilterCycles),
            0x02 => Ok(Self::Information),
            0x08 => Ok(Self::Preferences),
            0x20 => {
                if value.len() < 2 {
                    Err(PayloadParseError::UnexpectedEof)
                } else {
                    Ok(Self::FaultLog { entry_num: value[1] })
                }
            },
            0x80 => Ok(Self::GfciTest),
            _ => Err(PayloadParseError::InvalidMessageType),
        }
    }
}

/// Decoding a settings request's payload gives the request back.
pub proof fn lemma_settings_request_roundtrip(m: SettingsRequestMessage)
    ensures
        settings_request_of(settings_request_bytes(m)) == Ok::<SettingsRequestMessage, PayloadParseError>(m),
{
}

/// The settings request payloads, as the protocol defines them: the three bytes that ask
/// for each kind of settings, and the request that each payload asks for, by its first byte
/// (the fault log entry in the second byte); any other first byte is no request.
pub proof fn lemma_settings_request_wire()
    ensures
        settings_request_bytes(SettingsRequestMessage::Configuration) == seq![0x00u8, 0x00u8, 0x01u8],
        settings_request_bytes(SettingsRequestMessage::FilterCycles) == seq![0x01u8, 0x00u8, 0x00u8],
        settings_request_bytes(SettingsRequestMessage::Information) == seq![0x02u8, 0x00u8, 0x00u8],
        settings_request_bytes(SettingsRequestMessage::Preferences) == seq![0x08u8, 0x00u8, 0x00u8],
        forall|n: u8| #[trigger] settings_request_bytes(SettingsRequestMessage::FaultLog { entry_num: n })
            == seq![0x20u8, n, 0x00u8],
        settings_request_bytes(SettingsRequestMessage::GfciTest) == seq![0x80u8, 0x00u8, 0x00u8],
        forall|p: Seq<u8>| p.len() == 0 ==> #[trigger] settings_request_of(p)
            == Err::<SettingsRequestMessage, PayloadParseError>(PayloadParseError::UnexpectedEof),
        forall|p: Seq<u8>| p.len() >= 1 && p[0] == 0x00 ==> #[trigger] settings_request_of(p)
            == Ok::<SettingsRequestMessage, PayloadParseError>(SettingsRequestMessage::Configuration),
        forall|p: Seq<u8>| p.len() >= 1 && p[0] == 0x01 ==> #[trigger] settings_request_of(p)
            == Ok::<SettingsRequestMessage, PayloadParseError>(SettingsRequestMessage::FilterCycles),
        forall|p: Seq<u8>| p.len() >= 1 && p[0] == 0x02 ==> #[trigger] settings_request_of(p)
            == Ok::<SettingsRequestMessage, PayloadParseError>(SettingsRequestMessage::Information),
        forall|p: Seq<u8>| p.len() >= 1 && p[0] == 0x08 ==> #[trigger] settings_request_of(p)
            == Ok::<SettingsRequestMessage, PayloadParseError>(SettingsRequestMessage::Preferences),
        forall|p: Seq<u8>| p.len() >= 2 && p[0] == 0x20 ==> #[trigger] settings_request_of(p)
            == Ok::<SettingsRequestMessage, PayloadParseError>(SettingsRequestMessage::FaultLog { entry_num: p[1] }),
        forall|p: Seq<u8>| p.len() == 1 && p[0] == 0x20 ==> #[trigger] settings_request_of(p)
            == Err::<SettingsRequestMessage, PayloadParseError>(PayloadParseError::UnexpectedEof),
        forall|p: Seq<u8>| p.len() >= 1 && p[0] == 0x80 ==> #[trigger] settings_request_of(p)
            == Ok::<SettingsRequestMessage, PayloadParseError>(SettingsRequestMessage::GfciTest),
        forall|p: Seq<u8>|
            p.len() >= 1 && p[0] != 0x00 && p[0] != 0x01 && p[0] != 0x02 && p[0] != 0x08 && p[0] != 0x20 && p[0]
                != 0x80 ==> #[trigger] settings_request_of(p) == Err::<SettingsRequestMessage, PayloadParseError>(
                PayloadParseError::InvalidMessageType,
            ),
{
}

/// A filter cycle: whether it runs, when it starts and how long it lasts.
#[derive(Debug, Clone, Copy)]
pub struct FilterCycle {
    enabled: bool,
    start_at: Duration,
    duration: Duration,
}

/// Firmware version of the main board.
#[derive(Debug, Clone, Copy)]
pub struct SoftwareVersion {
    pub version: [u8; 4],
}

/// How a firmware version reads: `M<a>_<b> V<c>`, then `.<d>` when the last byte is not
/// zero, with each byte in decimal.
pub open spec fn software_version_text(v: Seq<u8>) -> Seq<u8> {
    seq![0x4du8] + dec_digits(v[0] as nat) + seq![0x5fu8] + dec_digits(v[1] as nat)
        + seq![0x20u8, 0x56] + dec_digits(v[2] as nat) + if v[3] == 0 {
        Seq::<u8>::empty()
    } else {
        seq![0x2eu8] + dec_digits(v[3] as nat)
    }
}

impl SoftwareVersion {
    /// The version as text, as in `software_version_text`.
    pub fn display_string(&self) -> (s: String)
        ensures
            encode_utf8(s@) == software_version_text(self.version@),
    {
        let mut out: Vec<u8> = Vec::new();
        out.push(0x4d);
        push_decimal(&mut out, self.version[0] as usize);
        out.push(0x5f);
        push_decimal(&mut out, self.version[1] as usize);
        out.push(0x20);
        out.push(0x56);
        push_decimal(&mut out, self.version[2] as usize);
        if self.version[3] != 0 {
            out.push(0x2e);
            push_decimal(&mut out, self.version[3] as usize);
        }
        assert(out@ =~= software_version_text(self.version@));
        ascii_string(out)
    }
}

/// Calls `String::from_utf8`. The contract states what the documentation says: the bytes
/// decode exactly when they are the UTF-8 encoding of some text, and then into that text.
#[verifier::external_body]
pub(crate) fn string_from_utf8(bytes: Vec<u8>) -> (r: Option<String>)
    ensures
        r matches Some(s) ==> encode_utf8(s@) == bytes@,
        r is None ==> forall|chars: Seq<char>| #[trigger] encode_utf8(chars) != bytes@,
{
    String::from_utf8(bytes).ok()
}

/// The main board's identification.
#[derive(Debug, Clone)]
pub struct InformationResponseMessage {
    pub software_version: SoftwareVersion,
    pub system_model_number: String,
    pub current_configuration_setup: u8,
    pub configuration_signature: [u8; 4],
    pub heater_voltage: ParsedEnum<HeaterVoltage, u8>,
    pub heater_type: ParsedEnum<HeaterType, u8>,
    pub dip_switch_settings: u16,
}

/// Number of payload bytes of an information response.
pub const INFORMATION_LEN: usize = 21;

/// The 21 payload bytes of an information response: version, model number padded with
/// zeros to 8 bytes, setup, signature, heater voltage, heater type, DIP switches.
pub open spec fn information_bytes(m: InformationResponseMessage) -> Seq<u8> {
    m.software_version.version@ + zero_padded(encode_utf8(m.system_model_number@), 8) + seq![
        m.current_configuration_setup,
    ] + m.configuration_signature@ + seq![
        m.heater_voltage.raw(),
        m.heater_type.raw(),
        (m.dip_switch_settings / 256) as u8,
        (m.dip_switch_settings % 256) as u8,
    ]
}

/// What decoding an information response payload `p` gives: end of input below 21
/// bytes, a UTF-8 error when the model number bytes are not UTF-8, and otherwise the
/// fields read from their bytes.
pub open spec fn information_decoding(p: Seq<u8>, r: Result<InformationResponseMessage, PayloadParseError>) -> bool {
    &&& (p.len() < INFORMATION_LEN ==> r == Err::<InformationResponseMessage, PayloadParseError>(PayloadParseError::UnexpectedEof))
    &&& (p.len() >= INFORMATION_LEN ==> ({
        let model = p.subrange(4, 12);
        &&& (forall|chars: Seq<char>| #[trigger] encode_utf8(chars) != model) <==> r == Err::<InformationResponseMessage, PayloadParseError>(PayloadParseError::Utf8Error)
        &&& r is Err ==> r == Err::<InformationResponseMessage, PayloadParseError>(PayloadParseError::Utf8Error)
        &&& r matches Ok(m) ==> {
            &&& m.software_version.version@ == p.subrange(0, 4)
            &&& encode_utf8(m.system_model_number@) == model
            &&& m.current_configuration_setup == p[12]
            &&& m.configuration_signature@ == p.subrange(13, 17)
            &&& holds_raw(m.heater_voltage, p[17])
            &&& holds_raw(m.heater_type, p[18])
            &&& m.dip_switch_settings == p[19] * 256 + p[20]
        }
    }))
}

impl InformationResponseMessage {
    /// Encodes the 21 payload bytes; the model number must fit in 8 bytes.
    pub fn to_payload(&self) -> (result: Result<Vec<u8>, PayloadEncodeError>)
        ensures
            encode_utf8(self.system_model_number@).len() <= 8 ==> result is Ok && result->Ok_0@
                == information_bytes(*self),
            encode_utf8(self.system_model_number@).len() > 8 ==> (result matches Err(
                PayloadEncodeError::FieldTooLong { field_name: f, len, max },
            ) && len == encode_utf8(self.system_model_number@).len() && max == 8),
    {
        let model = encode_array::<8>("system_model_number", self.system_model_number.as_str().as_bytes())?;
        let mut out: Vec<u8> = Vec::new();
        out.push(self.software_version.version[0]);
        out.push(self.software_version.version[1]);
        out.push(self.software_version.version[2]);
        out.push(self.software_version.version[3]);
        let mut i: usize = 0;
        while i < 8
            invariant
                i <= 8,
                out@ == self.software_version.version@ + model@.subrange(0, i as int),
            decreases 8 - i,
        {
            out.push(model[i]);
            i = i + 1;
        }
        out.push(self.current_configuration_setup);
        out.push(self.configuration_signature[0]);
        out.push(self.configuration_signature[1]);
        out.push(self.configuration_signature[2]);
        out.push(self.configuration_signature[3]);
        out.push(self.heater_voltage.as_raw());
        out.push(self.heater_type.as_raw());
        let dip = write_u16_be(self.dip_switch_settings);
        out.push(dip[0]);
        out.push(dip[1]);
        assert(out@ =~= information_bytes(*self));
        Ok(out)
    }

    /// Decodes the payload; the model number must be UTF-8.
    pub fn from_payload(value: &[u8]) -> (result: Result<Self, PayloadParseError>)
        ensures
            information_decoding(value@, result),
    {
        if value.len() < INFORMATION_LEN {
            return Err(PayloadParseError::UnexpectedEof);
        }
        let version = [value[0], value[1], value[2], value[3]];
        let mut model: Vec<u8> = Vec::new();
        let mut i: usize = 4;
        while i < 12
            invariant
                4 <= i <= 12,
                value.len() >= INFORMATION_LEN,
                model@ == value@.subrange(4, i as int),
            decreases 12 - i,
        {
            model.push(value[i]);
            i = i + 1;
        }
        let configuration_signature = [value[13], value[14], value[15], value[16]];
        let dip_switch_settings = read_u16_be([value[19], value[20]].as_slice());
        let system_model_number = match string_from_utf8(model) {
            Some(s) => s,
            None => {
                return Err(PayloadParseError::Utf8Error);
            },
        };
        let m = Self {
            software_version: SoftwareVersion { version },
            system_model_number,
            current_configuration_setup: value[12],
            configuration_signature,
            heater_voltage: ParsedEnum::from_raw(value[17]),
            heater_type: ParsedEnum::from_raw(value[18]),
            dip_switch_settings,
        };
        assert(m.software_version.version@ =~= value@.subrange(0, 4));
        assert(m.configuration_signature@ =~= value@.subrange(13, 17));
        Ok(m)
    }
}

/// Decoding the bytes of an information response gives every field back; the model number
/// comes back padded with NUL characters to 8 bytes, and so unchanged when it has 8 bytes.
pub proof fn lemma_information_roundtrip(m: InformationResponseMessage, r: Result<InformationResponseMessage, PayloadParseError>)
    requires
        encode_utf8(m.system_model_number@).len() <= 8,
        information_decoding(information_bytes(m), r),
    ensures
        r matches Ok(d) && {
            &&& d.software_version.version@ == m.software_version.version@
            &&& encode_utf8(d.system_model_number@) == zero_padded(encode_utf8(m.system_model_number@), 8)
            &&& encode_utf8(m.system_model_number@).len() == 8 ==> d.system_model_number@ == m.system_model_number@
            &&& d.current_configuration_setup == m.current_configuration_setup
            &&& d.configuration_signature@ == m.configuration_signature@
            &&& d.heater_voltage.raw() == m.heater_voltage.raw()
            &&& d.heater_type.raw() == m.heater_type.raw()
            &&& d.dip_switch_settings == m.dip_switch_settings
        },
{
    let p = information_bytes(m);
    let name = encode_utf8(m.system_model_number@);
    let padded = zero_padded(name, 8);
    let nuls = Seq::new((8 - name.len()) as nat, |i: int| '\0');
    let zeros = Seq::new((8 - name.len()) as nat, |i: int| 0u8);
    assert(is_ascii_chars(nuls));
    is_ascii_chars_encode_utf8(nuls);
    assert(encode_utf8(nuls) =~= zeros);
    encode_utf8_valid_utf8(m.system_model_number@);
    encode_utf8_valid_utf8(nuls);
    valid_utf8_concat(name, zeros);
    assert(padded =~= name + zeros);
    decode_utf8_encode_utf8(padded);
    assert(p.subrange(4, 12) =~= padded);
    assert(encode_utf8(decode_utf8(padded)) == p.subrange(4, 12));
    assert(r is Ok);
    let d = r->Ok_0;
    assert(d.software_version.version@ =~= m.software_version.version@);
    assert(d.configuration_signature@ =~= m.configuration_signature@);
    assert((m.dip_switch_settings / 256) * 256 + m.dip_switch_settings % 256 == m.dip_switch_settings);
    if name.len() == 8 {
        assert(padded =~= name);
        encode_utf8_decode_utf8(d.system_model_number@);
        encode_utf8_decode_utf8(m.system_model_number@);
    }
}

/// A cleanup cycle length in half hours; zero means no cleanup cycle.
#[derive(Debug, Clone, Copy, PartialEq, Eq, Structural)]
pub struct CleanupCycle {
    half_hours: u8,
}

impl CleanupCycle {
    pub closed spec fn spec_half_hours(&self) -> u8 {
        self.half_hours
    }

    /// The cycle of `value` half hours (none for zero).
    pub fn from_u8(value: u8) -> (c: Self)
        ensures
            c.spec_half_hours() == value,
    {
        Self { half_hours: value }
    }

    /// The cycle's length in half hours, as it is sent.
    pub fn to_u8(&self) -> (v: u8)
        ensures
            v == self.spec_half_hours(),
    {
        self.half_hours
    }

    /// The cycle's length, if there is a cleanup cycle.
    pub fn duration(&self) -> (d: Option<Duration>)
        ensures
            d is Some <==> self.spec_half_hours() != 0,
    {
        if self.half_hours == 0 {
            None
        } else {
            Some(duration_from_secs((self.half_hours as u64) * 30 * 60))
        }
    }
}

impl ProtocolEnum for CleanupCycle {
    open spec fn spec_to_u32(&self) -> Option<u32> {
        Some(self.spec_half_hours() as u32)
    }

    closed spec fn spec_from_u32(n: u32) -> Option<Self> {
        if n <= 0xff {
            Some(CleanupCycle { half_hours: n as u8 })
        } else {
            None
        }
    }

    fn to_u32(&self) -> (r: Option<u32>) {
        Some(self.half_hours as u32)
    }

    fn from_u32(n: u32) -> (r: Option<Self>) {
        if n <= 0xff {
            Some(CleanupCycle { half_hours: n as u8 })
        } else {
            None
        }
    }

    proof fn lemma_from_to(&self) {
    }
}

/// The main board's user preferences.
#[derive(Debug, Clone)]
pub struct PreferencesResponseMessage {
    pub reminder_set: ParsedEnum<Boolean, u8>,
    pub temperature_scale: ParsedEnum<TemperatureScale, u8>,
    pub clock_mode: ParsedEnum<ClockMode, u8>,
    pub cleanup_cycle: ParsedEnum<CleanupCycle, u8>,
    pub dolphin_address: u8,
    pub m8_artificial_intelligence: ParsedEnum<Boolean, u8>,
}

/// Number of payload bytes that decoding a preferences response reads.
pub const PREFERENCES_LEN: usize = 9;

/// The 18 payload bytes of a preferences response.
pub open spec fn preferences_bytes(m: PreferencesResponseMessage) -> Seq<u8> {
    seq![
        0u8,
        m.reminder_set.raw(),
        0u8,
        m.temperature_scale.raw(),
        m.clock_mode.raw(),
        m.cleanup_cycle.raw(),
        m.dolphin_address,
        0u8,
        m.m8_artificial_intelligence.raw(),
    ] + Seq::new(9, |i: int| 0u8)
}

/// What decoding a preferences payload `p` gives: end of input below 9 bytes, and
/// otherwise the fields read from their bytes.
pub open spec fn preferences_decoding(p: Seq<u8>, r: Result<PreferencesResponseMessage, PayloadParseError>) -> bool {
    &&& (p.len() < PREFERENCES_LEN ==> r == Err::<PreferencesResponseMessage, PayloadParseError>(PayloadParseError::UnexpectedEof))
    &&& (p.len() >= PREFERENCES_LEN ==> r is Ok)
    &&& (r matches Ok(m) ==> {
        &&& holds_raw(m.reminder_set, p[1])
        &&& holds_raw(m.temperature_scale, p[3])
        &&& holds_raw(m.clock_mode, p[4])
        &&& holds_raw(m.cleanup_cycle, p[5])
        &&& m.dolphin_address == p[6]
        &&& holds_raw(m.m8_artificial_intelligence, p[8])
    })
}

impl PreferencesResponseMessage {
    pub fn to_payload(&self) -> (v: Vec<u8>)
        ensures
            v@ == preferences_bytes(*self),
    {
        let mut out: Vec<u8> = Vec::new();
        out.push(0);
        out.push(self.reminder_set.as_raw());
        out.push(0);
        out.push(self.temperature_scale.as_raw());
        out.push(self.clock_mode.as_raw());
        out.push(self.cleanup_cycle.as_raw());
        out.push(self.dolphin_address);
        out.push(0);
        out.push(self.m8_artificial_intelligence.as_raw());
        let mut i: usize = 0;
        while i < 9
            invariant
                i <= 9,
                out@ == preferences_bytes(*self).subrange(0, 9 + i as int),
            decreases 9 - i,
        {
            out.push(0);
            i = i + 1;
        }
        assert(out@ =~= preferences_bytes(*self));
        out
    }

    /// Decodes the payload; it needs 9 bytes.
    pub fn from_payload(value: &[u8]) -> (result: Result<Self, PayloadParseError>)
        ensures
            preferences_decoding(value@, result),
    {
        if value.len() < PREFERENCES_LEN {
            return Err(PayloadParseError::UnexpectedEof);
        }
        Ok(Self {
            reminder_set: ParsedEnum::from_raw(value[1]),
            temperature_scale: ParsedEnum::from_raw(value[3]),
            clock_mode: ParsedEnum::from_raw(value[4]),
            cleanup_cycle: ParsedEnum::from_raw(value[5]),
            dolphin_address: value[6],
            m8_artificial_intelligence: ParsedEnum::from_raw(value[8]),
        })
    }
}

/// Decoding the bytes of a preferences response gives each preference's byte back.
pub proof fn lemma_preferences_roundtrip(m: PreferencesResponseMessage, r: Result<PreferencesResponseMessage, PayloadParseError>)
    requires
        preferences_decoding(preferences_bytes(m), r),
    ensures
        r matches Ok(d) && {
            &&& d.reminder_set.raw() == m.reminder_set.raw()
            &&& d.temperature_scale.raw() == m.temperature_scale.raw()
            &&& d.clock_mode.raw() == m.clock_mode.raw()
            &&& d.cleanup_cycle.raw() == m.cleanup_cycle.raw()
            &&& d.dolphin_address == m.dolphin_address
            &&& d.m8_artificial_intelligence.raw() == m.m8_artificial_intelligence.raw()
        },
{
    let p = preferences_bytes(m);
    assert(p.len() == 18);
    assert(r is Ok);
}

/// A preference that a client changes.
#[derive(Debug, Clone, Copy)]
pub enum SetPreferenceMessage {
    Reminders(bool),
    TemperatureScale(TemperatureScale),
    ClockMode(ClockMode),
    CleanupCycle(CleanupCycle),
    DolphinAddress(u8),
    M8ArtificialIntelligence(bool),
}

/// The two payload bytes of a preference change: the preference's number and its value.
pub open spec fn set_preference_bytes(m: SetPreferenceMessage) -> Seq<u8> {
    match m {
        SetPreferenceMessage::Reminders(b) => seq![0x00u8, if b { 1u8 } else { 0u8 }],
        SetPreferenceMessage::TemperatureScale(s) => seq![0x01u8, temperature_scale_number(s) as u8],
        SetPreferenceMessage::ClockMode(c) => seq![0x02u8, clock_mode_number(c) as u8],
        SetPreferenceMessage::CleanupCycle(c) => seq![0x03u8, c.spec_half_hours()],
        SetPreferenceMessage::DolphinAddress(a) => seq![0x04u8, a],
        SetPreferenceMessage::M8ArtificialIntelligence(b) => seq![0x06u8, if b { 1u8 } else { 0u8 }],
    }
}

impl SetPreferenceMessage {
    /// The two payload bytes: the preference's number and its value.
    pub fn to_payload(&self) -> (v: Vec<u8>)
        ensures
            v@ == set_preference_bytes(*self),
    {
        let v = match self {
            SetPreferenceMessage::Reminders(v) => vec![0x00, if *v { 1 } else { 0 }],
            SetPreferenceMessage::TemperatureScale(v) => vec![0x01, v.number()],
            SetPreferenceMessage::ClockMode(v) => vec![0x02, v.number()],
            SetPreferenceMessage::CleanupCycle(v) => vec![0x03, v.to_u8()],
            SetPreferenceMessage::DolphinAddress(v) => vec![0x04, *v],
            SetPreferenceMessage::M8ArtificialIntelligence(v) => vec![0x06, if *v { 1 } else { 0 }],
        };
        assert(v@ =~= set_preference_bytes(*self));
        v
    }
}

/// One entry of the fault log.
#[derive(Debug, Clone)]
pub struct FaultResponseMessage {
    pub total_entries: u8,
    pub entry_number: u8,
    pub fault_code: ParsedEnum<FaultCode, u8>,
    pub days_ago: u8,
    pub time: ProtocolTime,
    pub set_temperature: u8,
}

/// Number of payload bytes of a fault log response.
pub const FAULT_LEN: usize = 10;

/// The 10 payload bytes of a fault log entry.
pub open spec fn fault_bytes(m: FaultResponseMessage) -> Seq<u8> {
    seq![
        m.total_entries,
        m.entry_number,
        m.fault_code.raw(),
        m.days_ago,
        m.time.hour(),
        m.time.minute(),
        0u8,
        m.set_temperature,
        0u8,
        0u8,
    ]
}

/// The time bytes of a fault log entry denote a time of day (decoding stops otherwise).
pub open spec fn fault_time_valid(p: Seq<u8>) -> bool {
    p.len() >= 6 ==> p[4] * 60 + p[5] < 24 * 60
}

/// What decoding a fault log payload `p` gives: end of input below 10 bytes, and
/// otherwise the fields read from their bytes.
pub open spec fn fault_decoding(p: Seq<u8>, r: Result<FaultResponseMessage, PayloadParseError>) -> bool {
    &&& (p.len() < FAULT_LEN ==> r == Err::<FaultResponseMessage, PayloadParseError>(PayloadParseError::UnexpectedEof))
    &&& (p.len() >= FAULT_LEN ==> r is Ok)
    &&& (r matches Ok(m) ==> {
        &&& m.total_entries == p[0]
        &&& m.entry_number == p[1]
        &&& holds_raw(m.fault_code, p[2])
        &&& m.days_ago == p[3]
        &&& m.time.hour() == (p[4] * 60 + p[5]) / 60
        &&& m.time.minute() == (p[4] * 60 + p[5]) % 60
        &&& m.set_temperature == p[7]
    })
}

impl FaultResponseMessage {
    pub fn to_payload(&self) -> (v: Vec<u8>)
        ensures
            v@ == fault_bytes(*self),
    {
        let time = write_u16_be(self.time.as_raw());
        let v = vec![
            self.total_entries,
            self.entry_number,
            self.fault_code.as_raw(),
            self.days_ago,
            time[0],
            time[1],
            0,
            self.set_temperature,
            0,
            0,
        ];
        assert(v@ =~= fault_bytes(*self));
        v
    }

    pub fn from_payload(value: &[u8]) -> (result: Result<Self, PayloadParseError>)
        requires
            fault_time_valid(value@),
        ensures
            fault_decoding(value@, result),
    {
        if value.len() < FAULT_LEN {
            return Err(PayloadParseError::UnexpectedEof);
        }
        Ok(Self {
            total_entries: value[0],
            entry_number: value[1],
            fault_code: ParsedEnum::from_raw(value[2]),
            days_ago: value[3],
            time: ProtocolTime::from_hm(value[4], value[5]),
            set_temperature: value[7],
        })
    }
}

/// Decoding the bytes of a fault log entry gives the entry back, for a time of day.
pub proof fn lemma_fault_roundtrip(m: FaultResponseMessage, r: Result<FaultResponseMessage, PayloadParseError>)
    requires
        m.time.hour() < 24,
        m.time.minute() < 60,
        fault_decoding(fault_bytes(m), r),
    ensures
        fault_time_valid(fault_bytes(m)),
        r matches Ok(d) && {
            &&& d.total_entries == m.total_entries
            &&& d.entry_number == m.entry_number
            &&& d.fault_code.raw() == m.fault_code.raw()
            &&& d.days_ago == m.days_ago
            &&& d.time.hour() == m.time.hour()
            &&& d.time.minute() == m.time.minute()
            &&& d.set_temperature == m.set_temperature
        },
{
    crate::messages::time::lemma_time_raw_roundtrip(m.time.hour(), m.time.minute());
}

/// The fault code of a fault log entry is its third payload byte, numbered as the
/// protocol's fault table numbers the faults (15 sensors out of sync, 16 water flow low, 17
/// water flow failed, …): an entry with a known fault writes that fault's number, and a
/// decoded entry names the fault of the number it carries.
pub proof fn lemma_fault_code_wire(
    m: FaultResponseMessage,
    c: FaultCode,
    p: Seq<u8>,
    r: Result<FaultResponseMessage, PayloadParseError>,
)
    ensures
        holds_known(m.fault_code, c) ==> fault_bytes(m)[2] == match c {
            FaultCode::SensorsOutOfSync => 0x0fu8,
            FaultCode::WaterFlowLow => 0x10u8,
            FaultCode::WaterFlowFailed => 0x11u8,
            FaultCode::SettingsReset1 => 0x12u8,
            FaultCode::PrimingMode => 0x13u8,
            FaultCode::ClockFailed => 0x14u8,
            FaultCode::SettingsReset2 => 0x15u8,
            FaultCode::ProgramMemoryFailure => 0x16u8,
            FaultCode::SensorsOutOfSyncCallForService => 0x1au8,
            FaultCode::HeaterIsDry => 0x1bu8,
            FaultCode::HeaterMayBeDry => 0x1cu8,
            FaultCode::WaterTooHot => 0x1du8,
            FaultCode::HeaterTooHot => 0x1eu8,
            FaultCode::SensorAFault => 0x1fu8,
            FaultCode::SensorBFault => 0x20u8,
            FaultCode::PumpMayBeStuckOn => 0x22u8,
            FaultCode::HotFault => 0x23u8,
            FaultCode::GfciTestFailed => 0x24u8,
            FaultCode::StandbyMode => 0x25u8,
        },
        fault_decoding(p, r) && r is Ok ==> ({
            let d = r->Ok_0;
            let b = p[2];
            &&& d.fault_code.raw() == b
            &&& d.fault_code.parsed() == (if b == 0x0f { Some(FaultCode::SensorsOutOfSync) } else
            if b == 0x10 { Some(FaultCode::WaterFlowLow) } else
            if b == 0x11 { Some(FaultCode::WaterFlowFailed) } else
            if b == 0x12 { Some(FaultCode::SettingsReset1) } else
            if b == 0x13 { Some(FaultCode::PrimingMode) } else
            if b == 0x14 { Some(FaultCode::ClockFailed) } else
            if b == 0x15 { Some(FaultCode::SettingsReset2) } else
            if b == 0x16 { Some(FaultCode::ProgramMemoryFailure) } else
            if b == 0x1a { Some(FaultCode::SensorsOutOfSyncCallForService) } else
            if b == 0x1b { Some(FaultCode::HeaterIsDry) } else
            if b == 0x1c { Some(FaultCode::HeaterMayBeDry) } else
            if b == 0x1d { Some(FaultCode::WaterTooHot) } else
            if b == 0x1e { Some(FaultCode::HeaterTooHot) } else
            if b == 0x1f { Some(FaultCode::SensorAFault) } else
            if b == 0x20 { Some(FaultCode::SensorBFault) } else
            if b == 0x22 { Some(FaultCode::PumpMayBeStuckOn) } else
            if b == 0x23 { Some(FaultCode::HotFault) } else
            if b == 0x24 { Some(FaultCode::GfciTestFailed) } else
            if b == 0x25 { Some(FaultCode::StandbyMode) } else
            { None })
        }),
{
    crate::messages::enums::lemma_fault_code_wire_table();
}

/// A preference change is two bytes, the preference's number and its value: reminders 0x00
/// (1 on, 0 off), temperature scale 0x01 (0 Fahrenheit, 1 Celsius), clock mode 0x02 (0 for
/// 12 hours, 1 for 24), cleanup cycle 0x03 (half hours), dolphin address 0x04, M8 0x06 (1
/// on, 0 off).
pub proof fn lemma_set_preference_wire(m: SetPreferenceMessage)
    ensures
        set_preference_bytes(m) == match m {
            SetPreferenceMessage::Reminders(b) => seq![0x00u8, if b { 1u8 } else { 0u8 }],
            SetPreferenceMessage::TemperatureScale(s) => seq![0x01u8, match s {
                TemperatureScale::Fahrenheit => 0x00u8,
                TemperatureScale::Celsius => 0x01u8,
            }],
            SetPreferenceMessage::ClockMode(c) => seq![0x02u8, match c {
                ClockMode::Hour12 => 0x00u8,
                ClockMode::Hour24 => 0x01u8,
            }],
            SetPreferenceMessage::CleanupCycle(c) => seq![0x03u8, c.spec_half_hours()],
            SetPreferenceMessage::DolphinAddress(a) => seq![0x04u8, a],
            SetPreferenceMessage::M8ArtificialIntelligence(b) => seq![0x06u8, if b { 1u8 } else { 0u8 }],
        },
{
    crate::messages::enums::lemma_temperature_scale_wire_table();
    crate::messages::enums::lemma_clock_mode_wire_table();
}

/// Where a fault log entry carries its fields, as the protocol lays them out: the number
/// of entries at byte 0, the entry's number at 1, the fault code at 2, the days since at 3,
/// hour and minute at 4 and 5, and the set temperature at 7, in 10 bytes; encoding writes
/// them there and decoding reads them from there.
pub proof fn lemma_fault_layout(m: FaultResponseMessage, p: Seq<u8>, r: Result<FaultResponseMessage, PayloadParseError>)
    ensures
        ({
            let b = fault_bytes(m);
            &&& b.len() == 10
            &&& b[0] == m.total_entries
            &&& b[1] == m.entry_number
            &&& b[2] == m.fault_code.raw()
            &&& b[3] == m.days_ago
            &&& b[4] == m.time.hour()
            &&& b[5] == m.time.minute()
            &&& b[7] == m.set_temperature
        }),
        fault_decoding(p, r) && r is Ok ==> ({
            let d = r->Ok_0;
            &&& p.len() >= 10
            &&& d.total_entries == p[0]
            &&& d.entry_number == p[1]
            &&& d.fault_code.raw() == p[2]
            &&& d.days_ago == p[3]
            &&& d.time.hour() == (p[4] * 60 + p[5]) / 60
            &&& d.time.minute() == (p[4] * 60 + p[5]) % 60
            &&& d.set_temperature == p[7]
        }),
{
}

} // verus!
