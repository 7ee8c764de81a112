//! The status update message, version 1 of its payload.

use vstd::prelude::*;
use crate::messages::byte_order::write_u16_be;
use crate::messages::enums::{
    TemperatureScale,
    Boolean, ClockMode, FilterMode, HeatingMode, HeatingState, InitializationMode, PumpStatus,
    RelayStatus, ReminderType, SpaState, TemperatureRange,
};
use crate::messages::parsed_enum::{ParsedEnum, ProtocolEnum, ProtocolPrimitive};
use crate::messages::payload_error::{PayloadEncodeError, PayloadParseError};
use crate::messages::status::{flags9_14_bytes, flags9_14_of, flag_bit, StatusFlags18_19, StatusFlags21, StatusFlags9_14, bit_field};
use crate::messages::temperature::ProtocolTemperature;
use crate::messages::time::ProtocolTime;

verus! {

/// `e` holds the raw byte `b` and the meaning that `b` has, if any.
pub open spec fn holds_raw<T: ProtocolEnum>(e: ParsedEnum<T, u8>, b: u8) -> bool {
    &&& e.raw() == b
    &&& e.parsed() == T::spec_from_u32(b as u32)
}

/// `e` holds the known value `v` and its raw byte.
pub open spec fn holds_known<T: ProtocolEnum>(e: ParsedEnum<T, u8>, v: T) -> bool {
    &&& e.parsed() == Some(v)
    &&& e.raw() as u32 == v.spec_to_u32()->Some_0
}

/// `e`'s value is known.
pub open spec fn is_known<T>(e: ParsedEnum<T, u8>) -> bool {
    e.parsed() is Some
}

/// Status fields of version 1 of the status update.
#[derive(Debug, Clone)]
pub struct StatusUpdateResponseV1 {
    pub spa_state: ParsedEnum<SpaState, u8>,
    pub init_mode: ParsedEnum<InitializationMode, u8>,
    pub current_temperature: Option<ProtocolTemperature>,
    pub time: ProtocolTime,
    pub heating_mode: ParsedEnum<HeatingMode, u8>,
    pub reminder_type: ParsedEnum<ReminderType, u8>,
    pub hold_timer: Option<ProtocolTime>,
    pub filter_mode: ParsedEnum<FilterMode, u8>,
    pub panel_locked: bool,
    pub temperate_range: TemperatureRange,
    pub clock_mode: ParsedEnum<ClockMode, u8>,
    pub needs_heat: bool,
    pub heating_state: ParsedEnum<HeatingState, u8>,
    pub mister_on: ParsedEnum<Boolean, u8>,
    pub set_temperature: ProtocolTemperature,
    pub pump_status: Vec<ParsedEnum<PumpStatus, u8>>,
    pub circulation_pump_on: ParsedEnum<Boolean, u8>,
    pub blower_status: ParsedEnum<RelayStatus, u8>,
    pub light_status: Vec<ParsedEnum<RelayStatus, u8>>,
    pub reminder_set: ParsedEnum<Boolean, u8>,
    pub notification_set: ParsedEnum<Boolean, u8>,
}

/// Fields of later versions of the status update; none are decoded yet.
#[derive(Debug, Clone)]
pub struct StatusUpdateResponseV2 {}

/// Fields of later versions of the status update; none are decoded yet.
#[derive(Debug, Clone)]
pub struct StatusUpdateResponseV3 {}

/// A status update; only version 1 of the payload is supported.
#[derive(Debug, Clone)]
pub struct StatusUpdateMessage {
    pub v1: StatusUpdateResponseV1,
    pub v2: Option<StatusUpdateResponseV2>,
    pub v3: Option<StatusUpdateResponseV3>,
}

/// Number of payload bytes of version 1 of the status update.
pub const STATUS_V1_LEN: usize = 22;

/// The time bytes of a status update denote a time of day (parsing would stop otherwise).
pub open spec fn status_time_valid(p: Seq<u8>) -> bool {
    p.len() >= 5 ==> p[3] * 60 + p[4] < 24 * 60
}

/// Whether a pump or light value is usable by the encoder: each listed entry up to `n` is
/// known.
pub open spec fn first_known<T>(v: Seq<ParsedEnum<T, u8>>, n: int) -> bool {
    forall|i: int| 0 <= i < n && i < v.len() ==> #[trigger] v[i].parsed() is Some
}

/// The value of entry `i` for the encoder: the listed value, or off when fewer are listed.
pub open spec fn pump_at(v: Seq<ParsedEnum<PumpStatus, u8>>, i: int) -> PumpStatus {
    if i < v.len() { v[i].parsed()->Some_0 } else { PumpStatus::Off }
}

pub open spec fn relay_at(v: Seq<ParsedEnum<RelayStatus, u8>>, i: int) -> RelayStatus {
    if i < v.len() { v[i].parsed()->Some_0 } else { RelayStatus::Off }
}

/// Whether the spa state is the A/B temperature test mode.
pub open spec fn ab_temps_on(s: StatusUpdateResponseV1) -> bool {
    s.spa_state.parsed() == Some(SpaState::AbTempsOn)
}

/// What the encoder needs: every field it reads has a known value, and in A/B temperature
/// mode the hold timer and the current temperature are present.
pub open spec fn status_v1_encodable(s: StatusUpdateResponseV1) -> bool {
    &&& is_known(s.clock_mode)
    &&& is_known(s.filter_mode)
    &&& is_known(s.heating_state)
    &&& is_known(s.circulation_pump_on)
    &&& is_known(s.blower_status)
    &&& is_known(s.reminder_set)
    &&& is_known(s.notification_set)
    &&& first_known(s.pump_status@, 6)
    &&& first_known(s.light_status@, 2)
    &&& ab_temps_on(s) ==> s.hold_timer is Some && s.current_temperature is Some
}

/// The flags that the encoder writes in bytes 9 to 14.
pub open spec fn status_v1_flags(s: StatusUpdateResponseV1) -> StatusFlags9_14 {
    StatusFlags9_14 {
        panel_locked: s.panel_locked,
        filter_mode: s.filter_mode.parsed()->Some_0,
        clock_mode: s.clock_mode.parsed()->Some_0,
        temperature_scale: s.set_temperature.raw_scale,
        heating_state: s.heating_state.parsed()->Some_0,
        needs_heat: s.needs_heat,
        temperature_range: s.temperate_range,
        pump1_status: pump_at(s.pump_status@, 0),
        pump2_status: pump_at(s.pump_status@, 1),
        pump3_status: pump_at(s.pump_status@, 2),
        pump4_status: pump_at(s.pump_status@, 3),
        pump5_status: pump_at(s.pump_status@, 4),
        pump6_status: pump_at(s.pump_status@, 5),
        circulation_pump_on: false,
        blower_status: s.blower_status.parsed()->Some_0,
        light1_status: relay_at(s.light_status@, 0),
        light2_status: relay_at(s.light_status@, 1),
    }
}

/// The 22 payload bytes of a status update: spa state, initialisation mode, current
/// temperature (0xff when unknown), hour, minute, heating mode, reminder type, the two
/// sensor bytes (hold minutes and current temperature in A/B mode, else zero), six flag
/// bytes, mister, two zero bytes, two flag bytes, set temperature, a flag byte.
pub open spec fn status_v1_bytes(s: StatusUpdateResponseV1) -> Seq<u8> {
    let ab = ab_temps_on(s);
    seq![
        s.spa_state.raw(),
        s.init_mode.raw(),
        if s.current_temperature is Some { s.current_temperature->Some_0.raw_value } else { 0xffu8 },
        s.time.hour(),
        s.time.minute(),
        s.heating_mode.raw(),
        s.reminder_type.raw(),
        if ab { s.hold_timer->Some_0.minute() } else { 0u8 },
        if ab { s.current_temperature->Some_0.raw_value } else { 0u8 },
    ] + flags9_14_bytes(status_v1_flags(s)) + seq![
        s.mister_on.raw(),
        0u8,
        0u8,
        flag_bit(false, 5),
        flag_bit(false, 0),
        s.set_temperature.raw_value,
        flag_bit(ab, 1) | flag_bit(false, 2) | flag_bit(false, 3),
    ]
}

fn pump_list(f: &StatusFlags9_14) -> (v: Vec<ParsedEnum<PumpStatus, u8>>)
    ensures
        v@.len() == 6,
        holds_known(v@[0], f.pump1_status),
        holds_known(v@[1], f.pump2_status),
        holds_known(v@[2], f.pump3_status),
        holds_known(v@[3], f.pump4_status),
        holds_known(v@[4], f.pump5_status),
        holds_known(v@[5], f.pump6_status),
{
    let mut v: Vec<ParsedEnum<PumpStatus, u8>> = Vec::new();
    v.push(ParsedEnum::new(f.pump1_status));
    v.push(ParsedEnum::new(f.pump2_status));
    v.push(ParsedEnum::new(f.pump3_status));
    v.push(ParsedEnum::new(f.pump4_status));
    v.push(ParsedEnum::new(f.pump5_status));
    v.push(ParsedEnum::new(f.pump6_status));
    v
}

fn light_list(f: &StatusFlags9_14) -> (v: Vec<ParsedEnum<RelayStatus, u8>>)
    ensures
        v@.len() == 2,
        holds_known(v@[0], f.light1_status),
        holds_known(v@[1], f.light2_status),
{
    let mut v: Vec<ParsedEnum<RelayStatus, u8>> = Vec::new();
    v.push(ParsedEnum::new(f.light1_status));
    v.push(ParsedEnum::new(f.light2_status));
    v
}

fn pump_status_at(v: &Vec<ParsedEnum<PumpStatus, u8>>, i: usize) -> (p: PumpStatus)
    requires
        first_known(v@, 6),
        i < 6,
    ensures
        p == pump_at(v@, i as int),
{
    if i < v.len() {
        *v[i].as_ref().unwrap()
    } else {
        PumpStatus::Off
    }
}

fn relay_status_at(v: &Vec<ParsedEnum<RelayStatus, u8>>, i: usize) -> (p: RelayStatus)
    requires
        first_known(v@, 2),
        i < 2,
    ensures
        p == relay_at(v@, i as int),
{
    if i < v.len() {
        *v[i].as_ref().unwrap()
    } else {
        RelayStatus::Off
    }
}

/// What decoding version 1 of a status update payload `p` gives: end of input below 15
/// bytes, invalid data when bytes 9 to 14 do not unpack, end of input again below 22 bytes,
/// and otherwise the fields read from their bytes.
pub open spec fn status_v1_decoding(p: Seq<u8>, r: Result<StatusUpdateResponseV1, PayloadParseError>) -> bool {
    &&& (p.len() < 15 ==> r == Err::<StatusUpdateResponseV1, PayloadParseError>(PayloadParseError::UnexpectedEof))
    &&& (p.len() >= 15 && flags9_14_of(p.subrange(9, 15)) is None ==> r == Err::<StatusUpdateResponseV1, PayloadParseError>(PayloadParseError::InvalidData))
    &&& (p.len() >= 15 && flags9_14_of(p.subrange(9, 15)) is Some && p.len() < STATUS_V1_LEN ==> r == Err::<StatusUpdateResponseV1, PayloadParseError>(PayloadParseError::UnexpectedEof))
    &&& (p.len() >= STATUS_V1_LEN && flags9_14_of(p.subrange(9, 15)) is Some ==> r is Ok)
    &&& (r matches Ok(s) ==> ({
        let f = flags9_14_of(p.subrange(9, 15))->Some_0;
        let scale = f.temperature_scale;
        &&& holds_raw(s.spa_state, p[0])
        &&& holds_raw(s.init_mode, p[1])
        &&& s.current_temperature == (if p[2] == 0xff { None } else { Some(ProtocolTemperature { raw_scale: scale, raw_value: p[2] }) })
        &&& s.time.hour() == (p[3] * 60 + p[4]) / 60
        &&& s.time.minute() == (p[3] * 60 + p[4]) % 60
        &&& holds_raw(s.heating_mode, p[5])
        &&& holds_raw(s.reminder_type, p[6])
        &&& s.hold_timer is None
        &&& holds_known(s.filter_mode, f.filter_mode)
        &&& s.panel_locked == f.panel_locked
        &&& s.temperate_range == f.temperature_range
        &&& holds_known(s.clock_mode, f.clock_mode)
        &&& s.needs_heat == f.needs_heat
        &&& holds_known(s.heating_state, f.heating_state)
        &&& holds_raw(s.mister_on, p[15])
        &&& s.set_temperature == ProtocolTemperature { raw_scale: scale, raw_value: p[20] }
        &&& s.pump_status@.len() == 6
        &&& holds_known(s.pump_status@[0], f.pump1_status)
        &&& holds_known(s.pump_status@[1], f.pump2_status)
        &&& holds_known(s.pump_status@[2], f.pump3_status)
        &&& holds_known(s.pump_status@[3], f.pump4_status)
        &&& holds_known(s.pump_status@[4], f.pump5_status)
        &&& holds_known(s.pump_status@[5], f.pump6_status)
        &&& holds_known(s.circulation_pump_on, if f.circulation_pump_on { Boolean::True } else { Boolean::False })
        &&& holds_known(s.blower_status, f.blower_status)
        &&& s.light_status@.len() == 2
        &&& holds_known(s.light_status@[0], f.light1_status)
        &&& holds_known(s.light_status@[1], f.light2_status)
        &&& holds_known(s.reminder_set, if bit_field(p[19], 0, 1) == 1 { Boolean::True } else { Boolean::False })
        &&& holds_known(s.notification_set, if bit_field(p[18], 5, 1) == 1 { Boolean::True } else { Boolean::False })
    }))
}

impl StatusUpdateResponseV1 {
    /// Decodes the payload of a status update.
    #[verifier::rlimit(100)]
    pub fn from_payload(value: &[u8]) -> (result: Result<Self, PayloadParseError>)
        requires
            status_time_valid(value@),
        ensures
            status_v1_decoding(value@, result),
    {
        if value.len() < 15 {
            return Err(PayloadParseError::UnexpectedEof);
        }
        let spa_state = ParsedEnum::from_raw(value[0]);
        let init_mode = ParsedEnum::from_raw(value[1]);
        let raw_current_temperature = value[2];
        let time = ProtocolTime::from_hm(value[3], value[4]);
        let heating_mode = ParsedEnum::from_raw(value[5]);
        let reminder_type = ParsedEnum::from_raw(value[6]);
        let flags_bytes = [value[9], value[10], value[11], value[12], value[13], value[14]];
        proof {
            assert(flags_bytes@ =~= value@.subrange(9, 15));
        }
        let unpacked9_14 = StatusFlags9_14::unpack(flags_bytes.as_slice())?;
        if value.len() < STATUS_V1_LEN {
            return Err(PayloadParseError::UnexpectedEof);
        }
        let mister_on = ParsedEnum::from_raw(value[15]);
        let unpacked18_19 = StatusFlags18_19::unpack([value[18], value[19]].as_slice());
        let raw_set_temperature = value[20];
        let _unpacked21 = StatusFlags21::unpack(value[21]);
        let scale = unpacked9_14.temperature_scale;
        let current_temperature = if raw_current_temperature == 0xff {
            None
        } else {
            Some(scale.new_protocol_temperature_from_raw(raw_current_temperature))
        };
        let set_temperature = scale.new_protocol_temperature_from_raw(raw_set_temperature);
        let pump_status = pump_list(&unpacked9_14);
        let light_status = light_list(&unpacked9_14);
        Ok(Self {
            spa_state,
            init_mode,
            current_temperature,
            time,
            heating_mode,
            reminder_type,
            hold_timer: None,
            filter_mode: ParsedEnum::new(unpacked9_14.filter_mode),
            panel_locked: unpacked9_14.panel_locked,
            temperate_range: unpacked9_14.temperature_range,
            clock_mode: ParsedEnum::new(unpacked9_14.clock_mode),
            needs_heat: unpacked9_14.needs_heat,
            heating_state: ParsedEnum::new(unpacked9_14.heating_state),
            mister_on,
            set_temperature,
            pump_status,
            circulation_pump_on: ParsedEnum::new(Boolean::from(unpacked9_14.circulation_pump_on)),
            blower_status: ParsedEnum::new(unpacked9_14.blower_status),
            light_status,
            reminder_set: ParsedEnum::new(Boolean::from(unpacked18_19.reminder)),
            notification_set: ParsedEnum::new(Boolean::from(unpacked18_19.notification)),
        })
    }

    /// Encodes the status into the 22 payload bytes.
    pub fn to_payload(&self) -> (result: Result<Vec<u8>, PayloadEncodeError>)
        requires
            status_v1_encodable(*self),
        ensures
            result is Ok && result->Ok_0@ == status_v1_bytes(*self),
    {
        let mut out: Vec<u8> = Vec::new();
        out.push(self.spa_state.as_raw());
        out.push(self.init_mode.as_raw());
        out.push(
            match &self.current_temperature {
                Some(t) => t.raw_value,
                None => 0xff,
            },
        );
        let time = write_u16_be(self.time.as_raw());
        out.push(time[0]);
        out.push(time[1]);
        out.push(self.heating_mode.as_raw());
        out.push(self.reminder_type.as_raw());
        let is_ab_temps_on = match self.spa_state.as_ref() {
            Some(s) => *s == SpaState::AbTempsOn,
            None => false,
        };
        let (sensor_a, sensor_b) = if is_ab_temps_on {
            (self.hold_timer.unwrap().to_minutes(), self.current_temperature.unwrap().raw_value)
        } else {
            (0u8, 0u8)
        };
        out.push(sensor_a);
        out.push(sensor_b);
        let flags9_14 = StatusFlags9_14 {
            temperature_scale: self.set_temperature.raw_scale,
            clock_mode: *self.clock_mode.as_ref().unwrap(),
            filter_mode: *self.filter_mode.as_ref().unwrap(),
            panel_locked: self.panel_locked,
            temperature_range: self.temperate_range,
            needs_heat: self.needs_heat,
            heating_state: *self.heating_state.as_ref().unwrap(),
            pump1_status: pump_status_at(&self.pump_status, 0),
            pump2_status: pump_status_at(&self.pump_status, 1),
            pump3_status: pump_status_at(&self.pump_status, 2),
            pump4_status: pump_status_at(&self.pump_status, 3),
            pump5_status: pump_status_at(&self.pump_status, 4),
            pump6_status: pump_status_at(&self.pump_status, 5),
            circulation_pump_on: bool::from(*self.circulation_pump_on.as_ref().unwrap()),
            blower_status: *self.blower_status.as_ref().unwrap(),
            light1_status: relay_status_at(&self.light_status, 0),
            light2_status: relay_status_at(&self.light_status, 1),
        };
        let packed9_14 = flags9_14.pack();
        let mut i: usize = 0;
        while i < 6
            invariant
                i <= 6,
                out@ == status_v1_bytes(*self).subrange(0, 9 + i as int),
                packed9_14@ == flags9_14_bytes(status_v1_flags(*self)),
            decreases 6 - i,
        {
            out.push(packed9_14[i]);
            i = i + 1;
        }
        out.push(self.mister_on.as_raw());
        out.push(0);
        out.push(0);
        let flags18_19 = StatusFlags18_19 {
            reminder: bool::from(*self.reminder_set.as_ref().unwrap()),
            notification: bool::from(*self.notification_set.as_ref().unwrap()),
        };
        let packed18_19 = flags18_19.pack();
        out.push(packed18_19[0]);
        out.push(packed18_19[1]);
        out.push(self.set_temperature.raw_value);
        let flags21 = StatusFlags21 { sensor_ab: is_ab_temps_on, timeouts_are_8hr: false, settings_locked: false };
        out.push(flags21.pack());
        assert(out@ =~= status_v1_bytes(*self));
        Ok(out)
    }
}

/// What decoding a status update payload gives: version 1 as `status_v1_decoding` says,
/// and no later version.
pub open spec fn status_update_decoding(p: Seq<u8>, r: Result<StatusUpdateMessage, PayloadParseError>) -> bool {
    match r {
        Ok(m) => m.v2 is None && m.v3 is None && status_v1_decoding(p, Ok(m.v1)),
        Err(e) => status_v1_decoding(p, Err(e)),
    }
}

impl StatusUpdateMessage {
    /// Decodes a status update payload (version 1).
    pub fn from_payload(value: &[u8]) -> (result: Result<Self, PayloadParseError>)
        requires
            status_time_valid(value@),
        ensures
            status_update_decoding(value@, result),
    {
        let v1 = StatusUpdateResponseV1::from_payload(value)?;
        Ok(Self { v1, v2: None, v3: None })
    }

    /// Encodes a status update payload; only version 1 is supported.
    pub fn to_payload(&self) -> (result: Result<Vec<u8>, PayloadEncodeError>)
        requires
            self.v2 is None,
            self.v3 is None,
            status_v1_encodable(self.v1),
        ensures
            result is Ok && result->Ok_0@ == status_v1_bytes(self.v1),
    {
        self.v1.to_payload()
    }
}

/// Decoding the bytes that a status update is encoded into gives back every field that
/// the encoding carries: the raw spa state, initialization mode, heating mode, reminder
/// type and mister, the time, the set temperature, the current temperature (when it is in
/// the set temperature's scale and not the 0xff that means unknown), the flags, and the
/// first six pumps and two lights (off where none is listed). The hold timer, the
/// circulation pump, the reminder and the notification flags are not carried: they come
/// back as no timer and `false`.
#[verifier::rlimit(100)]
pub proof fn lemma_status_v1_roundtrip(s: StatusUpdateResponseV1, r: Result<StatusUpdateResponseV1, PayloadParseError>)
    requires
        status_v1_encodable(s),
        s.time.hour() < 24,
        s.time.minute() < 60,
        s.current_temperature matches Some(t) ==> t.raw_value != 0xff && t.raw_scale == s.set_temperature.raw_scale,
        status_v1_decoding(status_v1_bytes(s), r),
    ensures
        r matches Ok(d) && {
            &&& d.spa_state.raw() == s.spa_state.raw()
            &&& d.init_mode.raw() == s.init_mode.raw()
            &&& d.current_temperature == s.current_temperature
            &&& d.time.hour() == s.time.hour()
            &&& d.time.minute() == s.time.minute()
            &&& d.heating_mode.raw() == s.heating_mode.raw()
            &&& d.reminder_type.raw() == s.reminder_type.raw()
            &&& d.hold_timer is None
            &&& d.filter_mode.parsed() == s.filter_mode.parsed()
            &&& d.panel_locked == s.panel_locked
            &&& d.temperate_range == s.temperate_range
            &&& d.clock_mode.parsed() == s.clock_mode.parsed()
            &&& d.needs_heat == s.needs_heat
            &&& d.heating_state.parsed() == s.heating_state.parsed()
            &&& d.mister_on.raw() == s.mister_on.raw()
            &&& d.set_temperature == s.set_temperature
            &&& d.pump_status@.len() == 6
            &&& forall|i: int| 0 <= i < 6 ==> (#[trigger] d.pump_status@[i]).parsed() == Some(pump_at(s.pump_status@, i))
            &&& d.blower_status.parsed() == s.blower_status.parsed()
            &&& d.light_status@.len() == 2
            &&& forall|i: int| 0 <= i < 2 ==> (#[trigger] d.light_status@[i]).parsed() == Some(relay_at(s.light_status@, i))
            &&& d.circulation_pump_on.parsed() == Some(Boolean::False)
            &&& d.reminder_set.parsed() == Some(Boolean::False)
            &&& d.notification_set.parsed() == Some(Boolean::False)
        },
{
    let p = status_v1_bytes(s);
    let f = status_v1_flags(s);
    lemma_status_bytes_facts(s);
    assert(flags9_14_of(p.subrange(9, 15)) == Some(f));
    assert(r is Ok);
    let d = r->Ok_0;
    assert(d.pump_status@.len() == 6);
    assert forall|i: int| 0 <= i < 6 implies (#[trigger] d.pump_status@[i]).parsed() == Some(pump_at(s.pump_status@, i)) by {
        if i == 0 {} else if i == 1 {} else if i == 2 {} else if i == 3 {} else if i == 4 {} else {}
    }
    assert forall|i: int| 0 <= i < 2 implies (#[trigger] d.light_status@[i]).parsed() == Some(relay_at(s.light_status@, i)) by {
        if i == 0 {} else {}
    }
}

/// The bytes of an encoded status update, position by position.
proof fn lemma_status_bytes_facts(s: StatusUpdateResponseV1)
    requires
        s.time.hour() < 24,
        s.time.minute() < 60,
    ensures
        status_v1_bytes(s).len() == STATUS_V1_LEN,
        status_v1_bytes(s)[0] == s.spa_state.raw(),
        status_v1_bytes(s)[1] == s.init_mode.raw(),
        status_v1_bytes(s)[2] == (if s.current_temperature is Some { s.current_temperature->Some_0.raw_value } else { 0xffu8 }),
        status_v1_bytes(s)[3] * 60 + status_v1_bytes(s)[4] == s.time.hour() * 60 + s.time.minute(),
        (status_v1_bytes(s)[3] * 60 + status_v1_bytes(s)[4]) / 60 == s.time.hour(),
        (status_v1_bytes(s)[3] * 60 + status_v1_bytes(s)[4]) % 60 == s.time.minute(),
        status_v1_bytes(s)[5] == s.heating_mode.raw(),
        status_v1_bytes(s)[6] == s.reminder_type.raw(),
        status_v1_bytes(s).subrange(9, 15) == flags9_14_bytes(status_v1_flags(s)),
        flags9_14_of(status_v1_bytes(s).subrange(9, 15)) == Some(status_v1_flags(s)),
        status_v1_bytes(s)[15] == s.mister_on.raw(),
        bit_field(status_v1_bytes(s)[18], 5, 1) == 0,
        bit_field(status_v1_bytes(s)[19], 0, 1) == 0,
        status_v1_bytes(s)[20] == s.set_temperature.raw_value,
{
    let p = status_v1_bytes(s);
    let f = status_v1_flags(s);
    assert(p.subrange(9, 15) =~= flags9_14_bytes(f));
    crate::messages::status::lemma_flags9_14_roundtrip(f);
    assert((0u8 >> 0u8) & 1 == 0u8 && (0u8 >> 5u8) & 1 == 0u8) by (bit_vector);
    assert(p[18] == 0u8 && p[19] == 0u8);
    crate::messages::time::lemma_time_raw_roundtrip(s.time.hour(), s.time.minute());
}

/// The temperature scale of a status update is bit 0 of payload byte 9: clear for
/// Fahrenheit, set for Celsius. A decoded update reads its set and current temperatures in
/// that scale, and an encoded update writes the bit from the scale of its set temperature.
pub proof fn lemma_status_temperature_scale(
    p: Seq<u8>,
    r: Result<StatusUpdateResponseV1, PayloadParseError>,
    s: StatusUpdateResponseV1,
)
    ensures
        status_v1_decoding(p, r) && r is Ok ==> ({
            let d = r->Ok_0;
            let scale = if p[9] & 1u8 == 0 { TemperatureScale::Fahrenheit } else { TemperatureScale::Celsius };
            &&& d.set_temperature.raw_scale == scale
            &&& (d.current_temperature matches Some(t) ==> t.raw_scale == scale)
        }),
        status_v1_bytes(s)[9] & 1u8 == (if s.set_temperature.raw_scale == TemperatureScale::Celsius { 1u8 } else { 0u8 }),
{
    crate::messages::enums::lemma_temperature_scale_wire_table();
    if status_v1_decoding(p, r) && r is Ok {
        let b = p[9];
        assert(p.subrange(9, 15)[0] == b);
        assert((b >> 0u8) & 1u8 == b & 1u8 && (b & 1u8 == 0u8 || b & 1u8 == 1u8)) by (bit_vector);
        assert(bit_field(b, 0, 1) == b & 1u8);
    }
    let f = status_v1_flags(s);
    crate::messages::status::lemma_flag_byte0(f);
    assert(status_v1_bytes(s)[9] == flags9_14_bytes(f)[0]);
    let b0 = flags9_14_bytes(f)[0];
    assert((b0 >> 0u8) & 1u8 == b0 & 1u8) by (bit_vector);
}

/// Where a status update carries its main fields, as the protocol lays them out: spa state
/// at byte 0, initialisation mode at 1, current temperature at 2 (0xff when unknown), hour
/// and minute at 3 and 4, heating mode at 5, reminder type at 6, the flags at 9 to 14,
/// the mister at 15 and the set temperature at 20; the update is 22 bytes long. Encoding
/// writes them there and decoding reads them from there.
pub proof fn lemma_status_layout(
    s: StatusUpdateResponseV1,
    p: Seq<u8>,
    r: Result<StatusUpdateResponseV1, PayloadParseError>,
)
    ensures
        ({
            let b = status_v1_bytes(s);
            &&& b.len() == 22
            &&& b[0] == s.spa_state.raw()
            &&& b[1] == s.init_mode.raw()
            &&& b[2] == (if s.current_temperature is Some { s.current_temperature->Some_0.raw_value } else { 0xffu8 })
            &&& b[3] == s.time.hour()
            &&& b[4] == s.time.minute()
            &&& b[5] == s.heating_mode.raw()
            &&& b[6] == s.reminder_type.raw()
            &&& b.subrange(9, 15) == flags9_14_bytes(status_v1_flags(s))
            &&& b[15] == s.mister_on.raw()
            &&& b[20] == s.set_temperature.raw_value
        }),
        status_v1_decoding(p, r) && r is Ok ==> ({
            let d = r->Ok_0;
            &&& p.len() >= 22
            &&& d.spa_state.raw() == p[0]
            &&& d.init_mode.raw() == p[1]
            &&& d.current_temperature is None <==> p[2] == 0xff
            &&& (d.current_temperature matches Some(t) ==> t.raw_value == p[2])
            &&& d.time.hour() == (p[3] * 60 + p[4]) / 60
            &&& d.time.minute() == (p[3] * 60 + p[4]) % 60
            &&& d.heating_mode.raw() == p[5]
            &&& d.reminder_type.raw() == p[6]
            &&& d.mister_on.raw() == p[15]
            &&& d.set_temperature.raw_value == p[20]
        }),
{
    let b = status_v1_bytes(s);
    assert(b.subrange(9, 15) =~= flags9_14_bytes(status_v1_flags(s)));
}

} // verus!
