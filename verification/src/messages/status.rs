//! The status update that the main board broadcasts: layout of its 22 payload bytes.

use vstd::prelude::*;
use crate::messages::byte_order::write_u16_be;
use crate::messages::enums::{
    boolean_number, clock_mode_number, clock_mode_of_number, filter_mode_number, filter_mode_of_number,
    heating_state_number, heating_state_of_number, pump_status_number, pump_status_of_number,
    relay_status_number, relay_status_of_number, temperature_range_number, temperature_range_of_number,
    temperature_scale_number, temperature_scale_of_number, Boolean, ClockMode, FilterMode,
    HeatingMode, HeatingState, InitializationMode, PumpStatus, RelayStatus, ReminderType, SpaState,
    TemperatureRange, TemperatureScale,
};
use crate::messages::parsed_enum::{ParsedEnum, ProtocolEnum};
use crate::messages::payload_error::{PayloadEncodeError, PayloadParseError};
use crate::messages::temperature::ProtocolTemperature;
use crate::messages::time::ProtocolTime;

verus! {

/// Bits `shift .. shift + width` of `b`, where `mask` has the low `width` bits set.
pub open spec fn bit_field(b: u8, shift: u8, mask: u8) -> u8 {
    (b >> shift) & mask
}

/// Payload bytes 9 to 14 of a status update.
#[derive(Debug, Clone, Copy, PartialEq, Eq, Structural)]
pub struct StatusFlags9_14 {
    pub panel_locked: bool,
    pub filter_mode: FilterMode,
    pub clock_mode: ClockMode,
    pub temperature_scale: TemperatureScale,
    pub heating_state: HeatingState,
    pub needs_heat: bool,
    pub temperature_range: TemperatureRange,
    pub pump4_status: PumpStatus,
    pub pump3_status: PumpStatus,
    pub pump2_status: PumpStatus,
    pub pump1_status: PumpStatus,
    pub pump6_status: PumpStatus,
    pub pump5_status: PumpStatus,
    pub blower_status: RelayStatus,
    pub circulation_pump_on: bool,
    pub light2_status: RelayStatus,
    pub light1_status: RelayStatus,
}

/// The flags that six bytes hold, or `None` when a field holds a number that its
/// enumeration does not define. Bits count from the most significant bit of byte 0.
pub open spec fn flags9_14_of(b: Seq<u8>) -> Option<StatusFlags9_14> {
    let filter_mode = filter_mode_of_number(bit_field(b[0], 3, 3) as u32);
    let clock_mode = clock_mode_of_number(bit_field(b[0], 1, 1) as u32);
    let temperature_scale = temperature_scale_of_number(bit_field(b[0], 0, 1) as u32);
    let heating_state = heating_state_of_number(bit_field(b[1], 4, 3) as u32);
    let temperature_range = temperature_range_of_number(bit_field(b[1], 2, 1) as u32);
    let pump4 = pump_status_of_number(bit_field(b[2], 6, 3) as u32);
    let pump3 = pump_status_of_number(bit_field(b[2], 4, 3) as u32);
    let pump2 = pump_status_of_number(bit_field(b[2], 2, 3) as u32);
    let pump1 = pump_status_of_number(bit_field(b[2], 0, 3) as u32);
    let pump6 = pump_status_of_number(bit_field(b[3], 6, 3) as u32);
    let pump5 = pump_status_of_number(bit_field(b[3], 4, 3) as u32);
    let blower = relay_status_of_number(bit_field(b[4], 1, 3) as u32);
    let light2 = relay_status_of_number(bit_field(b[5], 2, 3) as u32);
    let light1 = relay_status_of_number(bit_field(b[5], 0, 3) as u32);
    if filter_mode is Some && clock_mode is Some && temperature_scale is Some && heating_state is Some
        && temperature_range is Some && pump4 is Some && pump3 is Some && pump2 is Some && pump1 is Some
        && pump6 is Some && pump5 is Some && blower is Some && light2 is Some && light1 is Some {
        Some(StatusFlags9_14 {
            panel_locked: bit_field(b[0], 5, 1) == 1,
            filter_mode: filter_mode->Some_0,
            clock_mode: clock_mode->Some_0,
            temperature_scale: temperature_scale->Some_0,
            heating_state: heating_state->Some_0,
            needs_heat: bit_field(b[1], 3, 1) == 1,
            temperature_range: temperature_range->Some_0,
            pump4_status: pump4->Some_0,
            pump3_status: pump3->Some_0,
            pump2_status: pump2->Some_0,
            pump1_status: pump1->Some_0,
            pump6_status: pump6->Some_0,
            pump5_status: pump5->Some_0,
            blower_status: blower->Some_0,
            circulation_pump_on: bit_field(b[4], 0, 1) == 1,
            light2_status: light2->Some_0,
            light1_status: light1->Some_0,
        })
    } else {
        None
    }
}

pub open spec fn flag_bit(b: bool, shift: u8) -> u8 {
    if b { (1u8 << shift) } else { 0u8 }
}

/// The six bytes that hold the flags.
pub open spec fn flags9_14_bytes(f: StatusFlags9_14) -> Seq<u8> {
    seq![
        flag_bit(f.panel_locked, 5) | ((filter_mode_number(f.filter_mode) as u8) << 3u8) | ((
        clock_mode_number(f.clock_mode) as u8) << 1u8) | (temperature_scale_number(f.temperature_scale) as u8),
        ((heating_state_number(f.heating_state) as u8) << 4u8) | flag_bit(f.needs_heat, 3) | ((
        temperature_range_number(f.temperature_range) as u8) << 2u8),
        ((pump_status_number(f.pump4_status) as u8) << 6u8) | ((pump_status_number(f.pump3_status) as u8)
            << 4u8) | ((pump_status_number(f.pump2_status) as u8) << 2u8) | (pump_status_number(
            f.pump1_status,
        ) as u8),
        ((pump_status_number(f.pump6_status) as u8) << 6u8) | ((pump_status_number(f.pump5_status) as u8)
            << 4u8),
        ((relay_status_number(f.blower_status) as u8) << 1u8) | flag_bit(f.circulation_pump_on, 0),
        ((relay_status_number(f.light2_status) as u8) << 2u8) | (relay_status_number(f.light1_status) as u8),
    ]
}

proof fn lemma_shift_zero(x: u8)
    ensures
        x & 1 == bit_field(x, 0, 1),
        x & 3 == bit_field(x, 0, 3),
{
    assert(x & 1 == (x >> 0u8) & 1) by (bit_vector);
    assert(x & 3 == (x >> 0u8) & 3) by (bit_vector);
}

fn bit(b: bool, shift: u8) -> (r: u8)
    requires
        shift < 8,
    ensures
        r == flag_bit(b, shift),
{
    if b {
        1u8 << shift
    } else {
        0
    }
}

impl StatusFlags9_14 {
    /// Reads the flags from six bytes.
    pub fn unpack(b: &[u8]) -> (result: Result<Self, PayloadParseError>)
        requires
            b.len() == 6,
        ensures
            match flags9_14_of(b@) {
                Some(f) => result == Ok::<Self, PayloadParseError>(f),
                None => result == Err::<Self, PayloadParseError>(PayloadParseError::InvalidData),
            },
    {
        let filter_mode = FilterMode::from_u32(((b[0] >> 3) & 3) as u32);
        let clock_mode = ClockMode::from_u32(((b[0] >> 1) & 1) as u32);
        let temperature_scale = TemperatureScale::from_u32((b[0] & 1) as u32);
        let heating_state = HeatingState::from_u32(((b[1] >> 4) & 3) as u32);
        let temperature_range = TemperatureRange::from_u32(((b[1] >> 2) & 1) as u32);
        let pump4 = PumpStatus::from_u32(((b[2] >> 6) & 3) as u32);
        let pump3 = PumpStatus::from_u32(((b[2] >> 4) & 3) as u32);
        let pump2 = PumpStatus::from_u32(((b[2] >> 2) & 3) as u32);
        let pump1 = PumpStatus::from_u32((b[2] & 3) as u32);
        let pump6 = PumpStatus::from_u32(((b[3] >> 6) & 3) as u32);
        let pump5 = PumpStatus::from_u32(((b[3] >> 4) & 3) as u32);
        let blower = RelayStatus::from_u32(((b[4] >> 1) & 3) as u32);
        let light2 = RelayStatus::from_u32(((b[5] >> 2) & 3) as u32);
        let light1 = RelayStatus::from_u32((b[5] & 3) as u32);
        proof {
            lemma_shift_zero(b[0]);
            lemma_shift_zero(b[2]);
            lemma_shift_zero(b[4]);
            lemma_shift_zero(b[5]);
        }
        if filter_mode.is_some() && clock_mode.is_some() && temperature_scale.is_some()
            && heating_state.is_some() && temperature_range.is_some() && pump4.is_some()
            && pump3.is_some() && pump2.is_some() && pump1.is_some() && pump6.is_some()
            && pump5.is_some() && blower.is_some() && light2.is_some() && light1.is_some() {
            Ok(Self {
                panel_locked: (b[0] >> 5) & 1 == 1,
                filter_mode: filter_mode.unwrap(),
                clock_mode: clock_mode.unwrap(),
                temperature_scale: temperature_scale.unwrap(),
                heating_state: heating_state.unwrap(),
                needs_heat: (b[1] >> 3) & 1 == 1,
                temperature_range: temperature_range.unwrap(),
                pump4_status: pump4.unwrap(),
                pump3_status: pump3.unwrap(),
                pump2_status: pump2.unwrap(),
                pump1_status: pump1.unwrap(),
                pump6_status: pump6.unwrap(),
                pump5_status: pump5.unwrap(),
                blower_status: blower.unwrap(),
                circulation_pump_on: b[4] & 1 == 1,
                light2_status: light2.unwrap(),
                light1_status: light1.unwrap(),
            })
        } else {
            Err(PayloadParseError::InvalidData)
        }
    }

    fn pack_byte0(&self) -> (r: u8)
        ensures
            r == flags9_14_bytes(*self)[0],
    {
        bit(self.panel_locked, 5) | (self.filter_mode.number() << 3) | (self.clock_mode.number() << 1) | self.temperature_scale.number()
    }

    fn pack_byte1(&self) -> (r: u8)
        ensures
            r == flags9_14_bytes(*self)[1],
    {
        (self.heating_state.number() << 4) | bit(self.needs_heat, 3) | (self.temperature_range.number() << 2)
    }

    fn pack_byte2(&self) -> (r: u8)
        ensures
            r == flags9_14_bytes(*self)[2],
    {
        (self.pump4_status.number() << 6) | (self.pump3_status.number() << 4) | (self.pump2_status.number() << 2) | self.pump1_status.number()
    }

    fn pack_byte3(&self) -> (r: u8)
        ensures
            r == flags9_14_bytes(*self)[3],
    {
        (self.pump6_status.number() << 6) | (self.pump5_status.number() << 4)
    }

    fn pack_byte4(&self) -> (r: u8)
        ensures
            r == flags9_14_bytes(*self)[4],
    {
        (self.blower_status.number() << 1) | bit(self.circulation_pump_on, 0)
    }

    fn pack_byte5(&self) -> (r: u8)
        ensures
            r == flags9_14_bytes(*self)[5],
    {
        (self.light2_status.number() << 2) | self.light1_status.number()
    }

    /// The six bytes that hold the flags.
    pub fn pack(&self) -> (b: [u8; 6])
        ensures
            b@ == flags9_14_bytes(*self),
    {
        let b0 = self.pack_byte0();
        let b1 = self.pack_byte1();
        let b2 = self.pack_byte2();
        let b3 = self.pack_byte3();
        let b4 = self.pack_byte4();
        let b5 = self.pack_byte5();
        let ghost spec_bytes = flags9_14_bytes(*self);
        let b = [b0, b1, b2, b3, b4, b5];
        assert(b@ =~= spec_bytes);
        b
    }
}

/// Payload bytes 18 and 19 of a status update.
#[derive(Debug, Clone, Copy, PartialEq, Eq, Structural)]
pub struct StatusFlags18_19 {
    pub reminder: bool,
    pub notification: bool,
}

impl StatusFlags18_19 {
    /// Reads the flags from two bytes: bit 15 is the reminder, bit 2 the notification.
    pub fn unpack(b: &[u8]) -> (f: Self)
        requires
            b.len() == 2,
        ensures
            f.reminder == (bit_field(b@[1], 0, 1) == 1),
            f.notification == (bit_field(b@[0], 5, 1) == 1),
    {
        proof {
            lemma_shift_zero(b[1]);
        }
        Self { reminder: b[1] & 1 == 1, notification: (b[0] >> 5) & 1 == 1 }
    }

    pub fn pack(&self) -> (b: [u8; 2])
        ensures
            b@ == seq![flag_bit(self.notification, 5), flag_bit(self.reminder, 0)],
    {
        let b = [bit(self.notification, 5), bit(self.reminder, 0)];
        assert(b@ =~= seq![flag_bit(self.notification, 5), flag_bit(self.reminder, 0)]);
        b
    }
}

/// Payload byte 21 of a status update.
#[derive(Debug, Clone, Copy, PartialEq, Eq, Structural)]
pub struct StatusFlags21 {
    pub sensor_ab: bool,
    pub timeouts_are_8hr: bool,
    pub settings_locked: bool,
}

impl StatusFlags21 {
    /// Reads the flags from a byte: bit 6 sensor A/B, bit 5 the 8-hour timeouts, bit 4 the
    /// settings lock.
    pub fn unpack(b: u8) -> (f: Self)
        ensures
            f.sensor_ab == (bit_field(b, 1, 1) == 1),
            f.timeouts_are_8hr == (bit_field(b, 2, 1) == 1),
            f.settings_locked == (bit_field(b, 3, 1) == 1),
    {
        Self { sensor_ab: (b >> 1) & 1 == 1, timeouts_are_8hr: (b >> 2) & 1 == 1, settings_locked: (b >> 3) & 1 == 1 }
    }

    pub fn pack(&self) -> (b: u8)
        ensures
            b == flag_bit(self.sensor_ab, 1) | flag_bit(self.timeouts_are_8hr, 2) | flag_bit(self.settings_locked, 3),
    {
        bit(self.sensor_ab, 1) | bit(self.timeouts_are_8hr, 2) | bit(self.settings_locked, 3)
    }
}

proof fn lemma_flag_bit_shift(b: bool, shift: u8)
    requires
        shift < 8,
    ensures
        flag_bit(b, shift) == ((if b { 1u8 } else { 0u8 }) << shift),
{
    if !b {
        assert(0u8 << shift == 0u8) by (bit_vector);
    }
}

proof fn lemma_status_numbers(f: StatusFlags9_14)
    ensures
        filter_mode_number(f.filter_mode) <= 3,
        filter_mode_of_number((filter_mode_number(f.filter_mode) as u8) as u32) == Some(f.filter_mode),
        clock_mode_number(f.clock_mode) <= 1,
        clock_mode_of_number((clock_mode_number(f.clock_mode) as u8) as u32) == Some(f.clock_mode),
        temperature_scale_number(f.temperature_scale) <= 1,
        temperature_scale_of_number((temperature_scale_number(f.temperature_scale) as u8) as u32) == Some(f.temperature_scale),
        heating_state_number(f.heating_state) <= 3,
        heating_state_of_number((heating_state_number(f.heating_state) as u8) as u32) == Some(f.heating_state),
        temperature_range_number(f.temperature_range) <= 1,
        temperature_range_of_number((temperature_range_number(f.temperature_range) as u8) as u32) == Some(f.temperature_range),
{
}

proof fn lemma_pump_number(p: PumpStatus)
    ensures
        pump_status_number(p) <= 3,
        pump_status_of_number((pump_status_number(p) as u8) as u32) == Some(p),
{
}

proof fn lemma_relay_number(r: RelayStatus)
    ensures
        relay_status_number(r) <= 3,
        relay_status_of_number((relay_status_number(r) as u8) as u32) == Some(r),
{
}

proof fn lemma_byte0(panel: u8, fm: u8, cm: u8, ts: u8)
    requires
        panel <= 1 && fm <= 3 && cm <= 1 && ts <= 1,
    ensures
        bit_field((panel << 5u8) | (fm << 3u8) | (cm << 1u8) | ts, 5, 1) == panel,
        bit_field((panel << 5u8) | (fm << 3u8) | (cm << 1u8) | ts, 3, 3) == fm,
        bit_field((panel << 5u8) | (fm << 3u8) | (cm << 1u8) | ts, 1, 1) == cm,
        bit_field((panel << 5u8) | (fm << 3u8) | (cm << 1u8) | ts, 0, 1) == ts,
{
    assert(((((panel << 5u8) | (fm << 3u8) | (cm << 1u8) | ts) >> 5u8) & 1 == panel)
        && ((((panel << 5u8) | (fm << 3u8) | (cm << 1u8) | ts) >> 3u8) & 3 == fm)
        && ((((panel << 5u8) | (fm << 3u8) | (cm << 1u8) | ts) >> 1u8) & 1 == cm)
        && ((((panel << 5u8) | (fm << 3u8) | (cm << 1u8) | ts) >> 0u8) & 1 == ts)) by (bit_vector)
        requires
            panel <= 1 && fm <= 3 && cm <= 1 && ts <= 1,
    ;
}

proof fn lemma_byte1(hs: u8, needs: u8, tr: u8)
    requires
        hs <= 3 && needs <= 1 && tr <= 1,
    ensures
        bit_field((hs << 4u8) | (needs << 3u8) | (tr << 2u8), 4, 3) == hs,
        bit_field((hs << 4u8) | (needs << 3u8) | (tr << 2u8), 3, 1) == needs,
        bit_field((hs << 4u8) | (needs << 3u8) | (tr << 2u8), 2, 1) == tr,
{
    assert(((((hs << 4u8) | (needs << 3u8) | (tr << 2u8)) >> 4u8) & 3 == hs)
        && ((((hs << 4u8) | (needs << 3u8) | (tr << 2u8)) >> 3u8) & 1 == needs)
        && ((((hs << 4u8) | (needs << 3u8) | (tr << 2u8)) >> 2u8) & 1 == tr)) by (bit_vector)
        requires
            hs <= 3 && needs <= 1 && tr <= 1,
    ;
}

proof fn lemma_four_fields(a: u8, b: u8, c: u8, d: u8)
    requires
        a <= 3 && b <= 3 && c <= 3 && d <= 3,
    ensures
        bit_field((a << 6u8) | (b << 4u8) | (c << 2u8) | d, 6, 3) == a,
        bit_field((a << 6u8) | (b << 4u8) | (c << 2u8) | d, 4, 3) == b,
        bit_field((a << 6u8) | (b << 4u8) | (c << 2u8) | d, 2, 3) == c,
        bit_field((a << 6u8) | (b << 4u8) | (c << 2u8) | d, 0, 3) == d,
{
    assert(((((a << 6u8) | (b << 4u8) | (c << 2u8) | d) >> 6u8) & 3 == a)
        && ((((a << 6u8) | (b << 4u8) | (c << 2u8) | d) >> 4u8) & 3 == b)
        && ((((a << 6u8) | (b << 4u8) | (c << 2u8) | d) >> 2u8) & 3 == c)
        && ((((a << 6u8) | (b << 4u8) | (c << 2u8) | d) >> 0u8) & 3 == d)) by (bit_vector)
        requires
            a <= 3 && b <= 3 && c <= 3 && d <= 3,
    ;
}

proof fn lemma_last_bytes(p6: u8, p5: u8, blower: u8, circulation: u8, l2: u8, l1: u8)
    requires
        p5 <= 3 && p6 <= 3 && blower <= 3 && circulation <= 1 && l1 <= 3 && l2 <= 3,
    ensures
        bit_field((p6 << 6u8) | (p5 << 4u8), 6, 3) == p6,
        bit_field((p6 << 6u8) | (p5 << 4u8), 4, 3) == p5,
        bit_field((blower << 1u8) | circulation, 1, 3) == blower,
        bit_field((blower << 1u8) | circulation, 0, 1) == circulation,
        bit_field((l2 << 2u8) | l1, 2, 3) == l2,
        bit_field((l2 << 2u8) | l1, 0, 3) == l1,
        circulation << 0u8 == circulation,
{
    assert(((((p6 << 6u8) | (p5 << 4u8)) >> 6u8) & 3 == p6)
        && ((((p6 << 6u8) | (p5 << 4u8)) >> 4u8) & 3 == p5)
        && ((((blower << 1u8) | circulation) >> 1u8) & 3 == blower)
        && ((((blower << 1u8) | circulation) >> 0u8) & 1 == circulation)
        && ((((l2 << 2u8) | l1) >> 2u8) & 3 == l2)
        && ((((l2 << 2u8) | l1) >> 0u8) & 3 == l1)
        && (circulation << 0u8 == circulation)) by (bit_vector)
        requires
            p5 <= 3 && p6 <= 3 && blower <= 3 && circulation <= 1 && l1 <= 3 && l2 <= 3,
    ;
}

pub(crate) proof fn lemma_flag_byte0(f: StatusFlags9_14)
    ensures
        bit_field(flags9_14_bytes(f)[0], 5, 1) == (if f.panel_locked { 1u8 } else { 0u8 }),
        bit_field(flags9_14_bytes(f)[0], 3, 3) == filter_mode_number(f.filter_mode) as u8,
        bit_field(flags9_14_bytes(f)[0], 1, 1) == clock_mode_number(f.clock_mode) as u8,
        bit_field(flags9_14_bytes(f)[0], 0, 1) == temperature_scale_number(f.temperature_scale) as u8,
{
    lemma_status_numbers(f);
    let panel: u8 = if f.panel_locked { 1 } else { 0 };
    lemma_flag_bit_shift(f.panel_locked, 5);
    let fm = filter_mode_number(f.filter_mode) as u8;
    let cm = clock_mode_number(f.clock_mode) as u8;
    let ts = temperature_scale_number(f.temperature_scale) as u8;
    let b0 = flags9_14_bytes(f)[0];
    assert(b0 == (panel << 5u8) | (fm << 3u8) | (cm << 1u8) | ts);
    lemma_byte0(panel, fm, cm, ts);
}

proof fn lemma_flag_byte1(f: StatusFlags9_14)
    ensures
        bit_field(flags9_14_bytes(f)[1], 4, 3) == heating_state_number(f.heating_state) as u8,
        bit_field(flags9_14_bytes(f)[1], 3, 1) == (if f.needs_heat { 1u8 } else { 0u8 }),
        bit_field(flags9_14_bytes(f)[1], 2, 1) == temperature_range_number(f.temperature_range) as u8,
{
    lemma_status_numbers(f);
    let needs: u8 = if f.needs_heat { 1 } else { 0 };
    lemma_flag_bit_shift(f.needs_heat, 3);
    let hs = heating_state_number(f.heating_state) as u8;
    let tr = temperature_range_number(f.temperature_range) as u8;
    let b1 = flags9_14_bytes(f)[1];
    assert(b1 == (hs << 4u8) | (needs << 3u8) | (tr << 2u8));
    lemma_byte1(hs, needs, tr);
}

proof fn lemma_flag_byte2(f: StatusFlags9_14)
    ensures
        bit_field(flags9_14_bytes(f)[2], 6, 3) == pump_status_number(f.pump4_status) as u8,
        bit_field(flags9_14_bytes(f)[2], 4, 3) == pump_status_number(f.pump3_status) as u8,
        bit_field(flags9_14_bytes(f)[2], 2, 3) == pump_status_number(f.pump2_status) as u8,
        bit_field(flags9_14_bytes(f)[2], 0, 3) == pump_status_number(f.pump1_status) as u8,
{
    lemma_pump_number(f.pump1_status);
    lemma_pump_number(f.pump2_status);
    lemma_pump_number(f.pump3_status);
    lemma_pump_number(f.pump4_status);
    let b2 = flags9_14_bytes(f)[2];
    lemma_four_fields(
        pump_status_number(f.pump4_status) as u8,
        pump_status_number(f.pump3_status) as u8,
        pump_status_number(f.pump2_status) as u8,
        pump_status_number(f.pump1_status) as u8,
    );
}

proof fn lemma_flag_bytes3_5(f: StatusFlags9_14)
    ensures
        bit_field(flags9_14_bytes(f)[3], 6, 3) == pump_status_number(f.pump6_status) as u8,
        bit_field(flags9_14_bytes(f)[3], 4, 3) == pump_status_number(f.pump5_status) as u8,
        bit_field(flags9_14_bytes(f)[4], 1, 3) == relay_status_number(f.blower_status) as u8,
        bit_field(flags9_14_bytes(f)[4], 0, 1) == (if f.circulation_pump_on { 1u8 } else { 0u8 }),
        bit_field(flags9_14_bytes(f)[5], 2, 3) == relay_status_number(f.light2_status) as u8,
        bit_field(flags9_14_bytes(f)[5], 0, 3) == relay_status_number(f.light1_status) as u8,
{
    lemma_pump_number(f.pump5_status);
    lemma_pump_number(f.pump6_status);
    lemma_relay_number(f.blower_status);
    lemma_relay_number(f.light1_status);
    lemma_relay_number(f.light2_status);
    let circulation: u8 = if f.circulation_pump_on { 1 } else { 0 };
    lemma_flag_bit_shift(f.circulation_pump_on, 0);
    let b4 = flags9_14_bytes(f)[4];
    lemma_last_bytes(
        pump_status_number(f.pump6_status) as u8,
        pump_status_number(f.pump5_status) as u8,
        relay_status_number(f.blower_status) as u8,
        circulation,
        relay_status_number(f.light2_status) as u8,
        relay_status_number(f.light1_status) as u8,
    );
    assert(b4 == ((relay_status_number(f.blower_status) as u8) << 1u8) | circulation);
}

/// Reading the six flag bytes that the flags are packed into gives the flags back.
pub proof fn lemma_flags9_14_roundtrip(f: StatusFlags9_14)
    ensures
        flags9_14_of(flags9_14_bytes(f)) == Some(f),
{
    lemma_flag_byte0(f);
    lemma_flag_byte1(f);
    lemma_flag_byte2(f);
    lemma_flag_bytes3_5(f);
    lemma_status_numbers(f);
    lemma_pump_number(f.pump1_status);
    lemma_pump_number(f.pump2_status);
    lemma_pump_number(f.pump3_status);
    lemma_pump_number(f.pump4_status);
    lemma_pump_number(f.pump5_status);
    lemma_pump_number(f.pump6_status);
    lemma_relay_number(f.blower_status);
    lemma_relay_number(f.light1_status);
    lemma_relay_number(f.light2_status);
}

} // verus!
