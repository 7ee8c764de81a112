//! The simulated spa behind the mock main board: its run state, hardware and user
//! settings, and the status, configuration and fault log messages that describe them.

use chrono::Timelike;
use vstd::prelude::*;
use crate::messages::configuration::ConfigurationResponseMessage;
use crate::messages::enums::{
    Boolean, ClockMode, FilterMode, HeatingMode, HeatingState, InitializationMode, PumpConfig,
    PumpStatus, RelayStatus, ReminderType, SpaState, TemperatureRange, TemperatureScale,
};
use crate::messages::parsed_enum::ParsedEnum;
use crate::messages::settings::FaultResponseMessage;
use crate::messages::status_update::{holds_known, holds_raw, status_v1_bytes, StatusUpdateMessage, StatusUpdateResponseV1};
use crate::messages::temperature::{ProtocolTemperature, SetTemperature};
use crate::messages::time::ProtocolTime;

verus! {

/// Raw value of 39.5 °C, the default set temperature, in the Celsius scale (half degrees).
pub const DEFAULT_SET_TEMPERATURE_RAW: u8 = 79;

/// Raw value of 20 °C, the water temperature while heating, in the Celsius scale.
pub const LOW_TEMPERATURE_CELSIUS_RAW: u8 = 40;

/// Raw value of 20 °C (68 °F) in the Fahrenheit scale.
pub const LOW_TEMPERATURE_FAHRENHEIT_RAW: u8 = 68;

/// The simulated spa.
#[derive(Debug)]
pub struct MockSpa {
    pub run_state: MockSpaState,
    pub hardware: MockHardware,
    pub settings: UserSettings,
}

/// What the spa is doing.
#[derive(Debug, PartialEq, Eq, Structural, Clone, Copy)]
pub enum MockSpaState {
    Initializing,
    Heating,
    Hold,
}

/// The spa's pumps, blower and lights.
#[derive(Debug)]
pub struct MockHardware {
    pub pumps: Vec<PumpDevice>,
    pub blower: RelayDevice,
    pub lights: Vec<RelayDevice>,
}

/// A pump: what it does now and what it can do.
#[derive(Debug, Clone, Copy)]
pub struct PumpDevice {
    pub status: PumpStatus,
    pub capability: PumpConfig,
}

/// A device that is either on or off.
#[derive(Debug, Clone, Copy)]
pub struct RelayDevice {
    pub status: RelayStatus,
}

/// What the user has chosen. The set temperature is kept as its raw value in the user's
/// temperature scale.
#[derive(Debug)]
pub struct UserSettings {
    temp_range: TemperatureRange,
    clock_mode: ClockMode,
    temperature_scale: TemperatureScale,
    set_temperature: u8,
}

/// The status fields that follow from the run state.
#[derive(Debug)]
pub struct RuntimeStatus {
    pub spa_mode: SpaState,
    pub init_mode: InitializationMode,
    pub current_temperature: CurrentTemperatureState,
    pub heating_mode: HeatingMode,
    pub needs_heat: bool,
    pub heating_state: HeatingState,
    pub circulation_pump_on: bool,
    pub pumps_forced_low: Option<bool>,
}

/// Which water temperature the spa reports.
#[derive(Debug, Clone, Copy, PartialEq, Eq, Structural)]
pub enum CurrentTemperatureState {
    Unknown,
    Low,
    AtTarget,
}

/// The status fields that follow from the user's settings and the time of day.
#[derive(Debug)]
pub struct UserSettingsStatus {
    pub time: ProtocolTime,
    pub temperature_scale: TemperatureScale,
    pub temperature_range: TemperatureRange,
    pub clock_mode: ClockMode,
    pub set_temperature: ProtocolTemperature,
}

/// The status fields that follow from the hardware.
#[derive(Debug)]
pub struct HardwareStatus {
    pub pumps: Vec<ParsedEnum<PumpStatus, u8>>,
    pub blower: ParsedEnum<RelayStatus, u8>,
    pub lights: Vec<ParsedEnum<RelayStatus, u8>>,
}

/// The run-state fields of each state.
pub open spec fn runtime_status_of(s: MockSpaState) -> (SpaState, InitializationMode, CurrentTemperatureState, HeatingMode, bool, HeatingState, bool, Option<bool>) {
    match s {
        MockSpaState::Initializing => (
            SpaState::Initializing,
            InitializationMode::PrimingMode,
            CurrentTemperatureState::Unknown,
            HeatingMode::Rest,
            true,
            HeatingState::Off,
            false,
            Some(false),
        ),
        MockSpaState::Heating => (
            SpaState::Running,
            InitializationMode::Idle,
            CurrentTemperatureState::Low,
            HeatingMode::Ready,
            true,
            HeatingState::Heating,
            true,
            Some(true),
        ),
        MockSpaState::Hold => (
            SpaState::HoldMode,
            InitializationMode::Idle,
            CurrentTemperatureState::AtTarget,
            HeatingMode::ReadyInRest,
            false,
            HeatingState::HeatWaiting,
            false,
            None,
        ),
    }
}

/// The fields of a runtime status as a tuple.
pub open spec fn runtime_fields(r: RuntimeStatus) -> (SpaState, InitializationMode, CurrentTemperatureState, HeatingMode, bool, HeatingState, bool, Option<bool>) {
    (
        r.spa_mode,
        r.init_mode,
        r.current_temperature,
        r.heating_mode,
        r.needs_heat,
        r.heating_state,
        r.circulation_pump_on,
        r.pumps_forced_low,
    )
}

/// 20 °C in a temperature scale.
pub open spec fn low_temperature(scale: TemperatureScale) -> ProtocolTemperature {
    ProtocolTemperature {
        raw_scale: scale,
        raw_value: match scale {
            TemperatureScale::Celsius => LOW_TEMPERATURE_CELSIUS_RAW,
            TemperatureScale::Fahrenheit => LOW_TEMPERATURE_FAHRENHEIT_RAW,
        },
    }
}

/// Calls `chrono::Utc::now()` and reads the hour and minute of the result through
/// `chrono::Timelike`. The result depends on the clock; the contract states only the ranges
/// that chrono documents for `hour` (0 to 23) and `minute` (0 to 59).
#[verifier::external_body]
fn utc_hour_minute() -> (hm: (u8, u8))
    ensures
        hm.0 < 24,
        hm.1 < 60,
{
    let now = chrono::Utc::now();
    (now.hour() as u8, now.minute() as u8)
}

impl Default for PumpDevice {
    fn default() -> (p: Self)
        ensures
            p.status == PumpStatus::Off,
            p.capability == PumpConfig::Speed2,
    {
        Self { status: PumpStatus::Off, capability: PumpConfig::Speed2 }
    }
}

impl Default for RelayDevice {
    fn default() -> (r: Self)
        ensures
            r.status == RelayStatus::Off,
    {
        Self { status: RelayStatus::Off }
    }
}

impl Default for MockSpa {
    fn default() -> (s: Self)
        ensures
            s.is_default(),
    {
        let mut pumps: Vec<PumpDevice> = Vec::new();
        pumps.push(PumpDevice::default());
        let mut lights: Vec<RelayDevice> = Vec::new();
        lights.push(RelayDevice::default());
        Self {
            run_state: MockSpaState::Initializing,
            hardware: MockHardware { pumps, blower: RelayDevice::default(), lights },
            settings: UserSettings {
                temp_range: TemperatureRange::High,
                clock_mode: ClockMode::Hour12,
                temperature_scale: TemperatureScale::Celsius,
                set_temperature: DEFAULT_SET_TEMPERATURE_RAW,
            },
        }
    }
}

impl UserSettings {
    pub closed spec fn spec_temp_range(&self) -> TemperatureRange {
        self.temp_range
    }

    pub closed spec fn spec_clock_mode(&self) -> ClockMode {
        self.clock_mode
    }

    pub closed spec fn spec_temperature_scale(&self) -> TemperatureScale {
        self.temperature_scale
    }

    /// The set temperature's raw value in the user's scale.
    pub closed spec fn spec_set_temperature(&self) -> u8 {
        self.set_temperature
    }

    /// Takes `value` as the new set temperature, in the user's scale.
    pub fn adjust_temperature(&mut self, value: SetTemperature)
        ensures
            final(self).spec_set_temperature() == value.raw_value,
            final(self).spec_temp_range() == old(self).spec_temp_range(),
            final(self).spec_clock_mode() == old(self).spec_clock_mode(),
            final(self).spec_temperature_scale() == old(self).spec_temperature_scale(),
    {
        let new_temp = self.temperature_scale.new_protocol_temperature_from_raw(value.raw_value);
        self.set_temperature = new_temp.raw_value;
    }

    /// The settings as status fields, with the current time of day (UTC).
    pub fn as_status(&self) -> (s: UserSettingsStatus)
        ensures
            s.time.hour() < 24,
            s.time.minute() < 60,
            s.temperature_scale == self.spec_temperature_scale(),
            s.temperature_range == self.spec_temp_range(),
            s.clock_mode == self.spec_clock_mode(),
            s.set_temperature == (ProtocolTemperature {
                raw_scale: self.spec_temperature_scale(),
                raw_value: self.spec_set_temperature(),
            }),
    {
        let (hour, minute) = utc_hour_minute();
        self.as_status_at(hour, minute)
    }

    /// The settings as status fields at the time of day `hour`:`minute`.
    pub fn as_status_at(&self, hour: u8, minute: u8) -> (s: UserSettingsStatus)
        requires
            hour < 24,
            minute < 60,
        ensures
            s.time.hour() == hour,
            s.time.minute() == minute,
            s.temperature_scale == self.spec_temperature_scale(),
            s.temperature_range == self.spec_temp_range(),
            s.clock_mode == self.spec_clock_mode(),
            s.set_temperature == (ProtocolTemperature {
                raw_scale: self.spec_temperature_scale(),
                raw_value: self.spec_set_temperature(),
            }),
    {
        let time = ProtocolTime::from_hm(hour, minute);
        let set_temperature = self.temperature_scale.new_protocol_temperature_from_raw(self.set_temperature);
        UserSettingsStatus {
            time,
            temperature_scale: self.temperature_scale,
            temperature_range: self.temp_range,
            clock_mode: self.clock_mode,
            set_temperature,
        }
    }
}

impl MockSpaState {
    /// The status fields of this run state.
    pub fn as_status(&self) -> (r: RuntimeStatus)
        ensures
            runtime_fields(r) == runtime_status_of(*self),
    {
        match self {
            MockSpaState::Initializing => RuntimeStatus {
                spa_mode: SpaState::Initializing,
                init_mode: InitializationMode::PrimingMode,
                current_temperature: CurrentTemperatureState::Unknown,
                heating_mode: HeatingMode::Rest,
                needs_heat: true,
                heating_state: HeatingState::Off,
                circulation_pump_on: false,
                pumps_forced_low: Some(false),
            },
            MockSpaState::Heating => RuntimeStatus {
                spa_mode: SpaState::Running,
                init_mode: InitializationMode::Idle,
                current_temperature: CurrentTemperatureState::Low,
                heating_mode: HeatingMode::Ready,
                needs_heat: true,
                heating_state: HeatingState::Heating,
                circulation_pump_on: true,
                pumps_forced_low: Some(true),
            },
            MockSpaState::Hold => RuntimeStatus {
                spa_mode: SpaState::HoldMode,
                init_mode: InitializationMode::Idle,
                current_temperature: CurrentTemperatureState::AtTarget,
                heating_mode: HeatingMode::ReadyInRest,
                needs_heat: false,
                heating_state: HeatingState::HeatWaiting,
                circulation_pump_on: false,
                pumps_forced_low: None,
            },
        }
    }
}

impl MockHardware {
    /// The hardware's status fields: each pump's and light's status, and the blower's.
    pub fn as_status(&self) -> (s: HardwareStatus)
        ensures
            s.pumps@.len() == self.pumps@.len(),
            forall|i: int| 0 <= i < self.pumps@.len() ==> holds_known(#[trigger] s.pumps@[i], self.pumps@[i].status),
            holds_known(s.blower, self.blower.status),
            s.lights@.len() == self.lights@.len(),
            forall|i: int| 0 <= i < self.lights@.len() ==> holds_known(#[trigger] s.lights@[i], self.lights@[i].status),
    {
        let mut pumps: Vec<ParsedEnum<PumpStatus, u8>> = Vec::new();
        let mut i: usize = 0;
        while i < self.pumps.len()
            invariant
                i <= self.pumps@.len(),
                pumps@.len() == i,
                forall|j: int| 0 <= j < i ==> holds_known(#[trigger] pumps@[j], self.pumps@[j].status),
            decreases self.pumps@.len() - i,
        {
            pumps.push(ParsedEnum::new(self.pumps[i].status));
            i = i + 1;
        }
        let mut lights: Vec<ParsedEnum<RelayStatus, u8>> = Vec::new();
        let mut k: usize = 0;
        while k < self.lights.len()
            invariant
                k <= self.lights@.len(),
                lights@.len() == k,
                forall|j: int| 0 <= j < k ==> holds_known(#[trigger] lights@[j], self.lights@[j].status),
            decreases self.lights@.len() - k,
        {
            lights.push(ParsedEnum::new(self.lights[k].status));
            k = k + 1;
        }
        HardwareStatus { pumps, blower: ParsedEnum::new(self.blower.status), lights }
    }

    /// The configuration that the hardware amounts to: each pump's capability, a light for
    /// each light, a blower and a circulation pump, no auxiliaries and no mister.
    pub fn as_configuration(&self) -> (c: ConfigurationResponseMessage)
        ensures
            c.pumps@.len() == self.pumps@.len(),
            forall|i: int| 0 <= i < self.pumps@.len() ==> holds_known(#[trigger] c.pumps@[i], self.pumps@[i].capability),
            c.has_lights@.len() == self.lights@.len(),
            forall|i: int| 0 <= i < self.lights@.len() ==> holds_known(#[trigger] c.has_lights@[i], Boolean::True),
            c.has_blower,
            c.has_circulation_pump,
            c.has_aux@.len() == 0,
            holds_known(c.has_mister, Boolean::False),
    {
        let mut pumps: Vec<ParsedEnum<PumpConfig, u8>> = Vec::new();
        let mut i: usize = 0;
        while i < self.pumps.len()
            invariant
                i <= self.pumps@.len(),
                pumps@.len() == i,
                forall|j: int| 0 <= j < i ==> holds_known(#[trigger] pumps@[j], self.pumps@[j].capability),
            decreases self.pumps@.len() - i,
        {
            pumps.push(ParsedEnum::new(self.pumps[i].capability));
            i = i + 1;
        }
        let mut has_lights: Vec<ParsedEnum<Boolean, u8>> = Vec::new();
        let mut k: usize = 0;
        while k < self.lights.len()
            invariant
                k <= self.lights@.len(),
                has_lights@.len() == k,
                forall|j: int| 0 <= j < k ==> holds_known(#[trigger] has_lights@[j], Boolean::True),
            decreases self.lights@.len() - k,
        {
            has_lights.push(ParsedEnum::new(Boolean::True));
            k = k + 1;
        }
        ConfigurationResponseMessage {
            pumps,
            has_lights,
            has_blower: true,
            has_circulation_pump: true,
            has_aux: Vec::new(),
            has_mister: ParsedEnum::new(Boolean::False),
        }
    }
}

impl MockSpa {
    /// The spa as it starts: initializing, one two-speed pump, a blower and a light, all
    /// off, high range, 12-hour clock, Celsius, set to 39.5 °C.
    pub open spec fn is_default(&self) -> bool {
        &&& self.run_state == MockSpaState::Initializing
        &&& self.hardware.pumps@.len() == 1
        &&& self.hardware.pumps@[0].status == PumpStatus::Off
        &&& self.hardware.pumps@[0].capability == PumpConfig::Speed2
        &&& self.hardware.blower.status == RelayStatus::Off
        &&& self.hardware.lights@.len() == 1
        &&& self.hardware.lights@[0].status == RelayStatus::Off
        &&& self.settings.spec_temp_range() == TemperatureRange::High
        &&& self.settings.spec_clock_mode() == ClockMode::Hour12
        &&& self.settings.spec_temperature_scale() == TemperatureScale::Celsius
        &&& self.settings.spec_set_temperature() == DEFAULT_SET_TEMPERATURE_RAW
    }

    pub fn new() -> (s: Self)
        ensures
            s.is_default(),
    {
        Self::default()
    }

    /// The spa as a status update: the run state's fields, the hardware's (every pump
    /// forced to low while heating), the user's settings and the current time; no reminder,
    /// filter cycle, lock, mister, hold timer or notification.
    pub fn as_status(&self) -> (m: StatusUpdateMessage)
        ensures
            m.v2 is None,
            m.v3 is None,
            self.spa_status(m.v1),
    {
        let (hour, minute) = utc_hour_minute();
        self.as_status_at(hour, minute)
    }

    /// The spa as a status update at the time of day `hour`:`minute` (see `as_status`).
    pub fn as_status_at(&self, hour: u8, minute: u8) -> (m: StatusUpdateMessage)
        requires
            hour < 24,
            minute < 60,
        ensures
            m.v2 is None,
            m.v3 is None,
            self.spa_status(m.v1),
            m.v1.time.hour() == hour,
            m.v1.time.minute() == minute,
    {
        let run_status = self.run_state.as_status();
        let hw_status = self.hardware.as_status();
        let user_status = self.settings.as_status_at(hour, minute);
        let current_temperature = match run_status.current_temperature {
            CurrentTemperatureState::Unknown => None,
            CurrentTemperatureState::Low => {
                let raw = match user_status.temperature_scale {
                    TemperatureScale::Celsius => LOW_TEMPERATURE_CELSIUS_RAW,
                    TemperatureScale::Fahrenheit => LOW_TEMPERATURE_FAHRENHEIT_RAW,
                };
                Some(user_status.temperature_scale.new_protocol_temperature_from_raw(raw))
            },
            CurrentTemperatureState::AtTarget => Some(user_status.set_temperature),
        };
        let forced_low = match run_status.pumps_forced_low {
            Some(true) => true,
            _ => false,
        };
        let mut pump_status: Vec<ParsedEnum<PumpStatus, u8>> = Vec::new();
        let mut i: usize = 0;
        while i < hw_status.pumps.len()
            invariant
                i <= hw_status.pumps@.len(),
                hw_status.pumps@.len() == self.hardware.pumps@.len(),
                forall|j: int| 0 <= j < self.hardware.pumps@.len() ==> holds_known(#[trigger] hw_status.pumps@[j], self.hardware.pumps@[j].status),
                forced_low == (runtime_status_of(self.run_state).7 == Some(true)),
                pump_status@.len() == i,
                forall|j: int| 0 <= j < i ==> holds_known(
                    #[trigger] pump_status@[j],
                    if forced_low { PumpStatus::Low } else { self.hardware.pumps@[j].status },
                ),
            decreases hw_status.pumps@.len() - i,
        {
            if forced_low {
                pump_status.push(ParsedEnum::new(PumpStatus::Low));
            } else {
                pump_status.push(ParsedEnum::new(self.hardware.pumps[i].status));
            }
            i = i + 1;
        }
        let status = StatusUpdateResponseV1 {
            spa_state: ParsedEnum::new(run_status.spa_mode),
            init_mode: ParsedEnum::new(run_status.init_mode),
            current_temperature,
            time: user_status.time,
            heating_mode: ParsedEnum::new(run_status.heating_mode),
            reminder_type: ParsedEnum::new(ReminderType::NoReminder),
            hold_timer: None,
            filter_mode: ParsedEnum::new(FilterMode::Off),
            panel_locked: false,
            temperate_range: user_status.temperature_range,
            clock_mode: ParsedEnum::new(user_status.clock_mode),
            needs_heat: run_status.needs_heat,
            heating_state: ParsedEnum::new(run_status.heating_state),
            mister_on: ParsedEnum::new(Boolean::False),
            set_temperature: user_status.set_temperature,
            pump_status,
            circulation_pump_on: ParsedEnum::new(Boolean::from(run_status.circulation_pump_on)),
            blower_status: hw_status.blower,
            light_status: hw_status.lights,
            reminder_set: ParsedEnum::new(Boolean::False),
            notification_set: ParsedEnum::new(Boolean::False),
        };
        StatusUpdateMessage { v1: status, v2: None, v3: None }
    }

    /// Whether `s` describes this spa, at some time of day.
    /// The status update payloads that the spa broadcasts: the bytes of its status at some
    /// time of day (`spa_status` fixes every other field).
    pub open spec fn status_payload(&self, payload: Seq<u8>) -> bool {
        exists|s: StatusUpdateResponseV1| self.spa_status(s) && #[trigger] status_v1_bytes(s) == payload
    }

    pub open spec fn spa_status(&self, s: StatusUpdateResponseV1) -> bool {
        let (spa_mode, init_mode, current, heating_mode, needs_heat, heating_state, circulation, forced) =
            runtime_status_of(self.run_state);
        let scale = self.settings.spec_temperature_scale();
        let set_temperature = ProtocolTemperature { raw_scale: scale, raw_value: self.settings.spec_set_temperature() };
        &&& holds_known(s.spa_state, spa_mode)
        &&& holds_known(s.init_mode, init_mode)
        &&& s.current_temperature == match current {
            CurrentTemperatureState::Unknown => None,
            CurrentTemperatureState::Low => Some(low_temperature(scale)),
            CurrentTemperatureState::AtTarget => Some(set_temperature),
        }
        &&& s.time.hour() < 24
        &&& s.time.minute() < 60
        &&& holds_known(s.heating_mode, heating_mode)
        &&& holds_known(s.reminder_type, ReminderType::NoReminder)
        &&& s.hold_timer is None
        &&& holds_known(s.filter_mode, FilterMode::Off)
        &&& !s.panel_locked
        &&& s.temperate_range == self.settings.spec_temp_range()
        &&& holds_known(s.clock_mode, self.settings.spec_clock_mode())
        &&& s.needs_heat == needs_heat
        &&& holds_known(s.heating_state, heating_state)
        &&& holds_known(s.mister_on, Boolean::False)
        &&& s.set_temperature == set_temperature
        &&& s.pump_status@.len() == self.hardware.pumps@.len()
        &&& forall|i: int| 0 <= i < self.hardware.pumps@.len() ==> holds_known(
            #[trigger] s.pump_status@[i],
            if forced == Some(true) { PumpStatus::Low } else { self.hardware.pumps@[i].status },
        )
        &&& holds_known(s.circulation_pump_on, if circulation { Boolean::True } else { Boolean::False })
        &&& holds_known(s.blower_status, self.hardware.blower.status)
        &&& s.light_status@.len() == self.hardware.lights@.len()
        &&& forall|i: int| 0 <= i < self.hardware.lights@.len() ==> holds_known(#[trigger] s.light_status@[i], self.hardware.lights@[i].status)
        &&& holds_known(s.reminder_set, Boolean::False)
        &&& holds_known(s.notification_set, Boolean::False)
    }

    /// The spa's equipment as a configuration response.
    pub fn as_configuration(&self) -> (c: ConfigurationResponseMessage)
        ensures
            c.pumps@.len() == self.hardware.pumps@.len(),
            forall|i: int| 0 <= i < self.hardware.pumps@.len() ==> holds_known(#[trigger] c.pumps@[i], self.hardware.pumps@[i].capability),
            c.has_lights@.len() == self.hardware.lights@.len(),
            forall|i: int| 0 <= i < self.hardware.lights@.len() ==> holds_known(#[trigger] c.has_lights@[i], Boolean::True),
            c.has_blower,
            c.has_circulation_pump,
            c.has_aux@.len() == 0,
            holds_known(c.has_mister, Boolean::False),
    {
        self.hardware.as_configuration()
    }

    /// An empty fault log entry, whichever entry is asked for.
    pub fn as_fault_log(&self, _entry_num: u8) -> (f: FaultResponseMessage)
        ensures
            f.total_entries == 0,
            f.entry_number == 0,
            holds_raw(f.fault_code, 0),
            f.days_ago == 0,
            f.time.hour() == 0,
            f.time.minute() == 0,
            f.set_temperature == 0,
    {
        FaultResponseMessage {
            total_entries: 0,
            entry_number: 0,
            fault_code: ParsedEnum::from_raw(0),
            days_ago: 0,
            time: ProtocolTime::from_hm(0, 0),
            set_temperature: 0,
        }
    }
}

} // verus!
