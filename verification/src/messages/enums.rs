//! Enumerations carried in message payloads, with their numbers on the wire.

use vstd::prelude::*;
use crate::messages::parsed_enum::ProtocolEnum;

verus! {

/// A boolean as the protocol encodes it.
#[derive(Debug, PartialEq, Eq, Structural, Clone, Copy)]
pub enum Boolean {
    False,
    True,
}

/// The number of each `Boolean` on the wire.
pub open spec fn boolean_number(v: Boolean) -> u32 {
    match v {
        Boolean::False => 0x00,
        Boolean::True => 0x01,
    }
}

/// The `Boolean` that a number denotes, if any.
pub open spec fn boolean_of_number(n: u32) -> Option<Boolean> {
    if n == 0x00 {
        Some(Boolean::False)
    } else if n == 0x01 {
        Some(Boolean::True)
    } else {
        None
    }
}

impl ProtocolEnum for Boolean {
    open spec fn spec_to_u32(&self) -> Option<u32> {
        Some(boolean_number(*self))
    }

    open spec fn spec_from_u32(n: u32) -> Option<Self> {
        boolean_of_number(n)
    }

    fn to_u32(&self) -> (r: Option<u32>) {
        Some(match self {
            Boolean::False => 0x00,
            Boolean::True => 0x01,
        })
    }

    fn from_u32(n: u32) -> (r: Option<Self>) {
        match n {
            0x00 => Some(Boolean::False),
            0x01 => Some(Boolean::True),
            _ => None,
        }
    }

    proof fn lemma_from_to(&self) {
    }
}

impl Boolean {
    /// The value's number as a byte.
    pub(crate) fn number(&self) -> (r: u8)
        ensures
            r as u32 == boolean_number(*self),
            r == boolean_number(*self) as u8,
    {
        match self {
            Boolean::False => 0x00,
            Boolean::True => 0x01,
        }
    }
}

/// Item that a toggle request switches.
#[derive(Debug, PartialEq, Eq, Structural, Clone, Copy, Hash)]
pub enum ItemCode {
    NormalOperation,
    ClearNotification,
    Pump1,
    Pump2,
    Pump3,
    Pump4,
    Pump5,
    Pump6,
    Blower,
    Mister,
    Light1,
    Light2,
    Aux1,
    Aux2,
    SoakMode,
    HoldMode,
    TemperatureRange,
    HeatMode,
}

/// The number of each `ItemCode` on the wire.
pub open spec fn item_code_number(v: ItemCode) -> u32 {
    match v {
        ItemCode::NormalOperation => 0x01,
        ItemCode::ClearNotification => 0x03,
        ItemCode::Pump1 => 0x04,
        ItemCode::Pump2 => 0x05,
        ItemCode::Pump3 => 0x06,
        ItemCode::Pump4 => 0x07,
        ItemCode::Pump5 => 0x08,
        ItemCode::Pump6 => 0x09,
        ItemCode::Blower => 0x0c,
        ItemCode::Mister => 0x0e,
        ItemCode::Light1 => 0x11,
        ItemCode::Light2 => 0x12,
        ItemCode::Aux1 => 0x16,
        ItemCode::Aux2 => 0x17,
        ItemCode::SoakMode => 0x1d,
        ItemCode::HoldMode => 0x3c,
        ItemCode::TemperatureRange => 0x50,
        ItemCode::HeatMode => 0x51,
    }
}

/// The `ItemCode` that a number denotes, if any.
pub open spec fn item_code_of_number(n: u32) -> Option<ItemCode> {
    if n == 0x01 {
        Some(ItemCode::NormalOperation)
    } else if n == 0x03 {
        Some(ItemCode::ClearNotification)
    } else if n == 0x04 {
        Some(ItemCode::Pump1)
    } else if n == 0x05 {
        Some(ItemCode::Pump2)
    } else if n == 0x06 {
        Some(ItemCode::Pump3)
    } else if n == 0x07 {
        Some(ItemCode::Pump4)
    } else if n == 0x08 {
        Some(ItemCode::Pump5)
    } else if n == 0x09 {
        Some(ItemCode::Pump6)
    } else if n == 0x0c {
        Some(ItemCode::Blower)
    } else if n == 0x0e {
        Some(ItemCode::Mister)
    } else if n == 0x11 {
        Some(ItemCode::Light1)
    } else if n == 0x12 {
        Some(ItemCode::Light2)
    } else if n == 0x16 {
        Some(ItemCode::Aux1)
    } else if n == 0x17 {
        Some(ItemCode::Aux2)
    } else if n == 0x1d {
        Some(ItemCode::SoakMode)
    } else if n == 0x3c {
        Some(ItemCode::HoldMode)
    } else if n == 0x50 {
        Some(ItemCode::TemperatureRange)
    } else if n == 0x51 {
        Some(ItemCode::HeatMode)
    } else {
        None
    }
}

impl ProtocolEnum for ItemCode {
    open spec fn spec_to_u32(&self) -> Option<u32> {
        Some(item_code_number(*self))
    }

    open spec fn spec_from_u32(n: u32) -> Option<Self> {
        item_code_of_number(n)
    }

    fn to_u32(&self) -> (r: Option<u32>) {
        Some(match self {
            ItemCode::NormalOperation => 0x01,
            ItemCode::ClearNotification => 0x03,
            ItemCode::Pump1 => 0x04,
            ItemCode::Pump2 => 0x05,
            ItemCode::Pump3 => 0x06,
            ItemCode::Pump4 => 0x07,
            ItemCode::Pump5 => 0x08,
            ItemCode::Pump6 => 0x09,
            ItemCode::Blower => 0x0c,
            ItemCode::Mister => 0x0e,
            ItemCode::Light1 => 0x11,
            ItemCode::Light2 => 0x12,
            ItemCode::Aux1 => 0x16,
            ItemCode::Aux2 => 0x17,
            ItemCode::SoakMode => 0x1d,
            ItemCode::HoldMode => 0x3c,
            ItemCode::TemperatureRange => 0x50,
            ItemCode::HeatMode => 0x51,
        })
    }

    fn from_u32(n: u32) -> (r: Option<Self>) {
        match n {
            0x01 => Some(ItemCode::NormalOperation),
            0x03 => Some(ItemCode::ClearNotification),
            0x04 => Some(ItemCode::Pump1),
            0x05 => Some(ItemCode::Pump2),
            0x06 => Some(ItemCode::Pump3),
            0x07 => Some(ItemCode::Pump4),
            0x08 => Some(ItemCode::Pump5),
            0x09 => Some(ItemCode::Pump6),
            0x0c => Some(ItemCode::Blower),
            0x0e => Some(ItemCode::Mister),
            0x11 => Some(ItemCode::Light1),
            0x12 => Some(ItemCode::Light2),
            0x16 => Some(ItemCode::Aux1),
            0x17 => Some(ItemCode::Aux2),
            0x1d => Some(ItemCode::SoakMode),
            0x3c => Some(ItemCode::HoldMode),
            0x50 => Some(ItemCode::TemperatureRange),
            0x51 => Some(ItemCode::HeatMode),
            _ => None,
        }
    }

    proof fn lemma_from_to(&self) {
    }
}

impl ItemCode {
    /// The value's number as a byte.
    pub(crate) fn number(&self) -> (r: u8)
        ensures
            r as u32 == item_code_number(*self),
            r == item_code_number(*self) as u8,
    {
        match self {
            ItemCode::NormalOperation => 0x01,
            ItemCode::ClearNotification => 0x03,
            ItemCode::Pump1 => 0x04,
            ItemCode::Pump2 => 0x05,
            ItemCode::Pump3 => 0x06,
            ItemCode::Pump4 => 0x07,
            ItemCode::Pump5 => 0x08,
            ItemCode::Pump6 => 0x09,
            ItemCode::Blower => 0x0c,
            ItemCode::Mister => 0x0e,
            ItemCode::Light1 => 0x11,
            ItemCode::Light2 => 0x12,
            ItemCode::Aux1 => 0x16,
            ItemCode::Aux2 => 0x17,
            ItemCode::SoakMode => 0x1d,
            ItemCode::HoldMode => 0x3c,
            ItemCode::TemperatureRange => 0x50,
            ItemCode::HeatMode => 0x51,
        }
    }
}

/// Operating state of the spa.
#[derive(Debug, PartialEq, Eq, Structural, Clone, Copy)]
pub enum SpaState {
    Running,
    Initializing,
    HoldMode,
    AbTempsOn,
    TestMode,
}

/// The number of each `SpaState` on the wire.
pub open spec fn spa_state_number(v: SpaState) -> u32 {
    match v {
        SpaState::Running => 0x00,
        SpaState::Initializing => 0x01,
        SpaState::HoldMode => 0x05,
        SpaState::AbTempsOn => 0x14,
        SpaState::TestMode => 0x17,
    }
}

/// The `SpaState` that a number denotes, if any.
pub open spec fn spa_state_of_number(n: u32) -> Option<SpaState> {
    if n == 0x00 {
        Some(SpaState::Running)
    } else if n == 0x01 {
        Some(SpaState::Initializing)
    } else if n == 0x05 {
        Some(SpaState::HoldMode)
    } else if n == 0x14 {
        Some(SpaState::AbTempsOn)
    } else if n == 0x17 {
        Some(SpaState::TestMode)
    } else {
        None
    }
}

impl ProtocolEnum for SpaState {
    open spec fn spec_to_u32(&self) -> Option<u32> {
        Some(spa_state_number(*self))
    }

    open spec fn spec_from_u32(n: u32) -> Option<Self> {
        spa_state_of_number(n)
    }

    fn to_u32(&self) -> (r: Option<u32>) {
        Some(match self {
            SpaState::Running => 0x00,
            SpaState::Initializing => 0x01,
            SpaState::HoldMode => 0x05,
            SpaState::AbTempsOn => 0x14,
            SpaState::TestMode => 0x17,
        })
    }

    fn from_u32(n: u32) -> (r: Option<Self>) {
        match n {
            0x00 => Some(SpaState::Running),
            0x01 => Some(SpaState::Initializing),
            0x05 => Some(SpaState::HoldMode),
            0x14 => Some(SpaState::AbTempsOn),
            0x17 => Some(SpaState::TestMode),
            _ => None,
        }
    }

    proof fn lemma_from_to(&self) {
    }
}

impl SpaState {
    /// The value's number as a byte.
    pub(crate) fn number(&self) -> (r: u8)
        ensures
            r as u32 == spa_state_number(*self),
            r == spa_state_number(*self) as u8,
    {
        match self {
            SpaState::Running => 0x00,
            SpaState::Initializing => 0x01,
            SpaState::HoldMode => 0x05,
            SpaState::AbTempsOn => 0x14,
            SpaState::TestMode => 0x17,
        }
    }
}

/// Stage of the spa's start-up.
#[derive(Debug, PartialEq, Eq, Structural, Clone, Copy)]
pub enum InitializationMode {
    Idle,
    PrimingMode,
    PostSettingsReset,
    Reminder,
    Stage1,
    Stage2,
    Stage3,
}

/// The number of each `InitializationMode` on the wire.
pub open spec fn initialization_mode_number(v: InitializationMode) -> u32 {
    match v {
        InitializationMode::Idle => 0x00,
        InitializationMode::PrimingMode => 0x01,
        InitializationMode::PostSettingsReset => 0x02,
        InitializationMode::Reminder => 0x03,
        InitializationMode::Stage1 => 0x04,
        InitializationMode::Stage2 => 0x42,
        InitializationMode::Stage3 => 0x05,
    }
}

/// The `InitializationMode` that a number denotes, if any.
pub open spec fn initialization_mode_of_number(n: u32) -> Option<InitializationMode> {
    if n == 0x00 {
        Some(InitializationMode::Idle)
    } else if n == 0x01 {
        Some(InitializationMode::PrimingMode)
    } else if n == 0x02 {
        Some(InitializationMode::PostSettingsReset)
    } else if n == 0x03 {
        Some(InitializationMode::Reminder)
    } else if n == 0x04 {
        Some(InitializationMode::Stage1)
    } else if n == 0x42 {
        Some(InitializationMode::Stage2)
    } else if n == 0x05 {
        Some(InitializationMode::Stage3)
    } else {
        None
    }
}

impl ProtocolEnum for InitializationMode {
    open spec fn spec_to_u32(&self) -> Option<u32> {
        Some(initialization_mode_number(*self))
    }

    open spec fn spec_from_u32(n: u32) -> Option<Self> {
        initialization_mode_of_number(n)
    }

    fn to_u32(&self) -> (r: Option<u32>) {
        Some(match self {
            InitializationMode::Idle => 0x00,
            InitializationMode::PrimingMode => 0x01,
            InitializationMode::PostSettingsReset => 0x02,
            InitializationMode::Reminder => 0x03,
            InitializationMode::Stage1 => 0x04,
            InitializationMode::Stage2 => 0x42,
            InitializationMode::Stage3 => 0x05,
        })
    }

    fn from_u32(n: u32) -> (r: Option<Self>) {
        match n {
            0x00 => Some(InitializationMode::Idle),
            0x01 => Some(InitializationMode::PrimingMode),
            0x02 => Some(InitializationMode::PostSettingsReset),
            0x03 => Some(InitializationMode::Reminder),
            0x04 => Some(InitializationMode::Stage1),
            0x42 => Some(InitializationMode::Stage2),
            0x05 => Some(InitializationMode::Stage3),
            _ => None,
        }
    }

    proof fn lemma_from_to(&self) {
    }
}

impl InitializationMode {
    /// The value's number as a byte.
    pub(crate) fn number(&self) -> (r: u8)
        ensures
            r as u32 == initialization_mode_number(*self),
            r == initialization_mode_number(*self) as u8,
    {
        match self {
            InitializationMode::Idle => 0x00,
            InitializationMode::PrimingMode => 0x01,
            InitializationMode::PostSettingsReset => 0x02,
            InitializationMode::Reminder => 0x03,
            InitializationMode::Stage1 => 0x04,
            InitializationMode::Stage2 => 0x42,
            InitializationMode::Stage3 => 0x05,
        }
    }
}

/// Heating mode chosen by the user.
#[derive(Debug, PartialEq, Eq, Structural, Clone, Copy)]
pub enum HeatingMode {
    Ready,
    Rest,
    ReadyInRest,
}

/// The number of each `HeatingMode` on the wire.
pub open spec fn heating_mode_number(v: HeatingMode) -> u32 {
    match v {
        HeatingMode::Ready => 0x00,
        HeatingMode::Rest => 0x01,
        HeatingMode::ReadyInRest => 0x03,
    }
}

/// The `HeatingMode` that a number denotes, if any.
pub open spec fn heating_mode_of_number(n: u32) -> Option<HeatingMode> {
    if n == 0x00 {
        Some(HeatingMode::Ready)
    } else if n == 0x01 {
        Some(HeatingMode::Rest)
    } else if n == 0x03 {
        Some(HeatingMode::ReadyInRest)
    } else {
        None
    }
}

impl ProtocolEnum for HeatingMode {
    open spec fn spec_to_u32(&self) -> Option<u32> {
        Some(heating_mode_number(*self))
    }

    open spec fn spec_from_u32(n: u32) -> Option<Self> {
        heating_mode_of_number(n)
    }

    fn to_u32(&self) -> (r: Option<u32>) {
        Some(match self {
            HeatingMode::Ready => 0x00,
            HeatingMode::Rest => 0x01,
            HeatingMode::ReadyInRest => 0x03,
        })
    }

    fn from_u32(n: u32) -> (r: Option<Self>) {
        match n {
            0x00 => Some(HeatingMode::Ready),
            0x01 => Some(HeatingMode::Rest),
            0x03 => Some(HeatingMode::ReadyInRest),
            _ => None,
        }
    }

    proof fn lemma_from_to(&self) {
    }
}

impl HeatingMode {
    /// The value's number as a byte.
    pub(crate) fn number(&self) -> (r: u8)
        ensures
            r as u32 == heating_mode_number(*self),
            r == heating_mode_number(*self) as u8,
    {
        match self {
            HeatingMode::Ready => 0x00,
            HeatingMode::Rest => 0x01,
            HeatingMode::ReadyInRest => 0x03,
        }
    }
}

/// Reminder shown on the panel.
#[derive(Debug, PartialEq, Eq, Structural, Clone, Copy)]
pub enum ReminderType {
    NoReminder,
    CleanFilter,
    CheckPhLevel,
    CheckSanitizer,
}

/// The number of each `ReminderType` on the wire.
pub open spec fn reminder_type_number(v: ReminderType) -> u32 {
    match v {
        ReminderType::NoReminder => 0x00,
        ReminderType::CleanFilter => 0x04,
        ReminderType::CheckPhLevel => 0x0a,
        ReminderType::CheckSanitizer => 0x09,
    }
}

/// The `ReminderType` that a number denotes, if any.
pub open spec fn reminder_type_of_number(n: u32) -> Option<ReminderType> {
    if n == 0x00 {
        Some(ReminderType::NoReminder)
    } else if n == 0x04 {
        Some(ReminderType::CleanFilter)
    } else if n == 0x0a {
        Some(ReminderType::CheckPhLevel)
    } else if n == 0x09 {
        Some(ReminderType::CheckSanitizer)
    } else {
        None
    }
}

impl ProtocolEnum for ReminderType {
    open spec fn spec_to_u32(&self) -> Option<u32> {
        Some(reminder_type_number(*self))
    }

    open spec fn spec_from_u32(n: u32) -> Option<Self> {
        reminder_type_of_number(n)
    }

    fn to_u32(&self) -> (r: Option<u32>) {
        Some(match self {
            ReminderType::NoReminder => 0x00,
            ReminderType::CleanFilter => 0x04,
            ReminderType::CheckPhLevel => 0x0a,
            ReminderType::CheckSanitizer => 0x09,
        })
    }

    fn from_u32(n: u32) -> (r: Option<Self>) {
        match n {
            0x00 => Some(ReminderType::NoReminder),
            0x04 => Some(ReminderType::CleanFilter),
            0x0a => Some(ReminderType::CheckPhLevel),
            0x09 => Some(ReminderType::CheckSanitizer),
            _ => None,
        }
    }

    proof fn lemma_from_to(&self) {
    }
}

impl ReminderType {
    /// The value's number as a byte.
    pub(crate) fn number(&self) -> (r: u8)
        ensures
            r as u32 == reminder_type_number(*self),
            r == reminder_type_number(*self) as u8,
    {
        match self {
            ReminderType::NoReminder => 0x00,
            ReminderType::CleanFilter => 0x04,
            ReminderType::CheckPhLevel => 0x0a,
            ReminderType::CheckSanitizer => 0x09,
        }
    }
}

/// Filter cycles that are running.
#[derive(Debug, PartialEq, Eq, Structural, Clone, Copy)]
pub enum FilterMode {
    Off,
    Cycle1,
    Cycle2,
    Cycle1And2,
}

/// The number of each `FilterMode` on the wire.
pub open spec fn filter_mode_number(v: FilterMode) -> u32 {
    match v {
        FilterMode::Off => 0x00,
        FilterMode::Cycle1 => 0x01,
        FilterMode::Cycle2 => 0x02,
        FilterMode::Cycle1And2 => 0x03,
    }
}

/// The `FilterMode` that a number denotes, if any.
pub open spec fn filter_mode_of_number(n: u32) -> Option<FilterMode> {
    if n == 0x00 {
        Some(FilterMode::Off)
    } else if n == 0x01 {
        Some(FilterMode::Cycle1)
    } else if n == 0x02 {
        Some(FilterMode::Cycle2)
    } else if n == 0x03 {
        Some(FilterMode::Cycle1And2)
    } else {
        None
    }
}

impl ProtocolEnum for FilterMode {
    open spec fn spec_to_u32(&self) -> Option<u32> {
        Some(filter_mode_number(*self))
    }

    open spec fn spec_from_u32(n: u32) -> Option<Self> {
        filter_mode_of_number(n)
    }

    fn to_u32(&self) -> (r: Option<u32>) {
        Some(match self {
            FilterMode::Off => 0x00,
            FilterMode::Cycle1 => 0x01,
            FilterMode::Cycle2 => 0x02,
            FilterMode::Cycle1And2 => 0x03,
        })
    }

    fn from_u32(n: u32) -> (r: Option<Self>) {
        match n {
            0x00 => Some(FilterMode::Off),
            0x01 => Some(FilterMode::Cycle1),
            0x02 => Some(FilterMode::Cycle2),
            0x03 => Some(FilterMode::Cycle1And2),
            _ => None,
        }
    }

    proof fn lemma_from_to(&self) {
    }
}

impl FilterMode {
    /// The value's number as a byte.
    pub(crate) fn number(&self) -> (r: u8)
        ensures
            r as u32 == filter_mode_number(*self),
            r == filter_mode_number(*self) as u8,
    {
        match self {
            FilterMode::Off => 0x00,
            FilterMode::Cycle1 => 0x01,
            FilterMode::Cycle2 => 0x02,
            FilterMode::Cycle1And2 => 0x03,
        }
    }
}

/// Low or high temperature range.
#[derive(Debug, PartialEq, Eq, Structural, Clone, Copy)]
pub enum TemperatureRange {
    Low,
    High,
}

/// The number of each `TemperatureRange` on the wire.
pub open spec fn temperature_range_number(v: TemperatureRange) -> u32 {
    match v {
        TemperatureRange::Low => 0x00,
        TemperatureRange::High => 0x01,
    }
}

/// The `TemperatureRange` that a number denotes, if any.
pub open spec fn temperature_range_of_number(n: u32) -> Option<TemperatureRange> {
    if n == 0x00 {
        Some(TemperatureRange::Low)
    } else if n == 0x01 {
        Some(TemperatureRange::High)
    } else {
        None
    }
}

impl ProtocolEnum for TemperatureRange {
    open spec fn spec_to_u32(&self) -> Option<u32> {
        Some(temperature_range_number(*self))
    }

    open spec fn spec_from_u32(n: u32) -> Option<Self> {
        temperature_range_of_number(n)
    }

    fn to_u32(&self) -> (r: Option<u32>) {
        Some(match self {
            TemperatureRange::Low => 0x00,
            TemperatureRange::High => 0x01,
        })
    }

    fn from_u32(n: u32) -> (r: Option<Self>) {
        match n {
            0x00 => Some(TemperatureRange::Low),
            0x01 => Some(TemperatureRange::High),
            _ => None,
        }
    }

    proof fn lemma_from_to(&self) {
    }
}

impl TemperatureRange {
    /// The value's number as a byte.
    pub(crate) fn number(&self) -> (r: u8)
        ensures
            r as u32 == temperature_range_number(*self),
            r == temperature_range_number(*self) as u8,
    {
        match self {
            TemperatureRange::Low => 0x00,
            TemperatureRange::High => 0x01,
        }
    }
}

/// What the heater is doing.
#[derive(Debug, PartialEq, Eq, Structural, Clone, Copy)]
pub enum HeatingState {
    Off,
    Heating,
    HeatWaiting,
}

/// The number of each `HeatingState` on the wire.
pub open spec fn heating_state_number(v: HeatingState) -> u32 {
    match v {
        HeatingState::Off => 0x00,
        HeatingState::Heating => 0x01,
        HeatingState::HeatWaiting => 0x02,
    }
}

/// The `HeatingState` that a number denotes, if any.
pub open spec fn heating_state_of_number(n: u32) -> Option<HeatingState> {
    if n == 0x00 {
        Some(HeatingState::Off)
    } else if n == 0x01 {
        Some(HeatingState::Heating)
    } else if n == 0x02 {
        Some(HeatingState::HeatWaiting)
    } else {
        None
    }
}

impl ProtocolEnum for HeatingState {
    open spec fn spec_to_u32(&self) -> Option<u32> {
        Some(heating_state_number(*self))
    }

    open spec fn spec_from_u32(n: u32) -> Option<Self> {
        heating_state_of_number(n)
    }

    fn to_u32(&self) -> (r: Option<u32>) {
        Some(match self {
            HeatingState::Off => 0x00,
            HeatingState::Heating => 0x01,
            HeatingState::HeatWaiting => 0x02,
        })
    }

    fn from_u32(n: u32) -> (r: Option<Self>) {
        match n {
            0x00 => Some(HeatingState::Off),
            0x01 => Some(HeatingState::Heating),
            0x02 => Some(HeatingState::HeatWaiting),
            _ => None,
        }
    }

    proof fn lemma_from_to(&self) {
    }
}

impl HeatingState {
    /// The value's number as a byte.
    pub(crate) fn number(&self) -> (r: u8)
        ensures
            r as u32 == heating_state_number(*self),
            r == heating_state_number(*self) as u8,
    {
        match self {
            HeatingState::Off => 0x00,
            HeatingState::Heating => 0x01,
            HeatingState::HeatWaiting => 0x02,
        }
    }
}

/// Speed a pump runs at.
#[derive(Debug, PartialEq, Eq, Structural, Clone, Copy)]
pub enum PumpStatus {
    Off,
    Low,
    High,
}

/// The number of each `PumpStatus` on the wire.
pub open spec fn pump_status_number(v: PumpStatus) -> u32 {
    match v {
        PumpStatus::Off => 0x00,
        PumpStatus::Low => 0x01,
        PumpStatus::High => 0x02,
    }
}

/// The `PumpStatus` that a number denotes, if any.
pub open spec fn pump_status_of_number(n: u32) -> Option<PumpStatus> {
    if n == 0x00 {
        Some(PumpStatus::Off)
    } else if n == 0x01 {
        Some(PumpStatus::Low)
    } else if n == 0x02 {
        Some(PumpStatus::High)
    } else {
        None
    }
}

impl ProtocolEnum for PumpStatus {
    open spec fn spec_to_u32(&self) -> Option<u32> {
        Some(pump_status_number(*self))
    }

    open spec fn spec_from_u32(n: u32) -> Option<Self> {
        pump_status_of_number(n)
    }

    fn to_u32(&self) -> (r: Option<u32>) {
        Some(match self {
            PumpStatus::Off => 0x00,
            PumpStatus::Low => 0x01,
            PumpStatus::High => 0x02,
        })
    }

    fn from_u32(n: u32) -> (r: Option<Self>) {
        match n {
            0x00 => Some(PumpStatus::Off),
            0x01 => Some(PumpStatus::Low),
            0x02 => Some(PumpStatus::High),
            _ => None,
        }
    }

    proof fn lemma_from_to(&self) {
    }
}

impl PumpStatus {
    /// The value's number as a byte.
    pub(crate) fn number(&self) -> (r: u8)
        ensures
            r as u32 == pump_status_number(*self),
            r == pump_status_number(*self) as u8,
    {
        match self {
            PumpStatus::Off => 0x00,
            PumpStatus::Low => 0x01,
            PumpStatus::High => 0x02,
        }
    }
}

/// State of a relay-driven device.
#[derive(Debug, PartialEq, Eq, Structural, Clone, Copy)]
pub enum RelayStatus {
    Off,
    On,
}

/// The number of each `RelayStatus` on the wire.
pub open spec fn relay_status_number(v: RelayStatus) -> u32 {
    match v {
        RelayStatus::Off => 0x00,
        RelayStatus::On => 0x03,
    }
}

/// The `RelayStatus` that a number denotes, if any.
pub open spec fn relay_status_of_number(n: u32) -> Option<RelayStatus> {
    if n == 0x00 {
        Some(RelayStatus::Off)
    } else if n == 0x03 {
        Some(RelayStatus::On)
    } else {
        None
    }
}

impl ProtocolEnum for RelayStatus {
    open spec fn spec_to_u32(&self) -> Option<u32> {
        Some(relay_status_number(*self))
    }

    open spec fn spec_from_u32(n: u32) -> Option<Self> {
        relay_status_of_number(n)
    }

    fn to_u32(&self) -> (r: Option<u32>) {
        Some(match self {
            RelayStatus::Off => 0x00,
            RelayStatus::On => 0x03,
        })
    }

    fn from_u32(n: u32) -> (r: Option<Self>) {
        match n {
            0x00 => Some(RelayStatus::Off),
            0x03 => Some(RelayStatus::On),
            _ => None,
        }
    }

    proof fn lemma_from_to(&self) {
    }
}

impl RelayStatus {
    /// The value's number as a byte.
    pub(crate) fn number(&self) -> (r: u8)
        ensures
            r as u32 == relay_status_number(*self),
            r == relay_status_number(*self) as u8,
    {
        match self {
            RelayStatus::Off => 0x00,
            RelayStatus::On => 0x03,
        }
    }
}

/// Supply voltage of the heater.
#[derive(Debug, PartialEq, Eq, Structural, Clone, Copy)]
pub enum HeaterVoltage {
    V240,
}

/// The number of each `HeaterVoltage` on the wire.
pub open spec fn heater_voltage_number(v: HeaterVoltage) -> u32 {
    match v {
        HeaterVoltage::V240 => 0x01,
    }
}

/// The `HeaterVoltage` that a number denotes, if any.
pub open spec fn heater_voltage_of_number(n: u32) -> Option<HeaterVoltage> {
    if n == 0x01 {
        Some(HeaterVoltage::V240)
    } else {
        None
    }
}

impl ProtocolEnum for HeaterVoltage {
    open spec fn spec_to_u32(&self) -> Option<u32> {
        Some(heater_voltage_number(*self))
    }

    open spec fn spec_from_u32(n: u32) -> Option<Self> {
        heater_voltage_of_number(n)
    }

    fn to_u32(&self) -> (r: Option<u32>) {
        Some(match self {
            HeaterVoltage::V240 => 0x01,
        })
    }

    fn from_u32(n: u32) -> (r: Option<Self>) {
        match n {
            0x01 => Some(HeaterVoltage::V240),
            _ => None,
        }
    }

    proof fn lemma_from_to(&self) {
    }
}

impl HeaterVoltage {
    /// The value's number as a byte.
    pub(crate) fn number(&self) -> (r: u8)
        ensures
            r as u32 == heater_voltage_number(*self),
            r == heater_voltage_number(*self) as u8,
    {
        match self {
            HeaterVoltage::V240 => 0x01,
        }
    }
}

/// Kind of heater.
#[derive(Debug, PartialEq, Eq, Structural, Clone, Copy)]
pub enum HeaterType {
    Standard,
}

/// The number of each `HeaterType` on the wire.
pub open spec fn heater_type_number(v: HeaterType) -> u32 {
    match v {
        HeaterType::Standard => 0x0a,
    }
}

/// The `HeaterType` that a number denotes, if any.
pub open spec fn heater_type_of_number(n: u32) -> Option<HeaterType> {
    if n == 0x0a {
        Some(HeaterType::Standard)
    } else {
        None
    }
}

impl ProtocolEnum for HeaterType {
    open spec fn spec_to_u32(&self) -> Option<u32> {
        Some(heater_type_number(*self))
    }

    open spec fn spec_from_u32(n: u32) -> Option<Self> {
        heater_type_of_number(n)
    }

    fn to_u32(&self) -> (r: Option<u32>) {
        Some(match self {
            HeaterType::Standard => 0x0a,
        })
    }

    fn from_u32(n: u32) -> (r: Option<Self>) {
        match n {
            0x0a => Some(HeaterType::Standard),
            _ => None,
        }
    }

    proof fn lemma_from_to(&self) {
    }
}

impl HeaterType {
    /// The value's number as a byte.
    pub(crate) fn number(&self) -> (r: u8)
        ensures
            r as u32 == heater_type_number(*self),
            r == heater_type_number(*self) as u8,
    {
        match self {
            HeaterType::Standard => 0x0a,
        }
    }
}

/// 12- or 24-hour clock.
#[derive(Debug, PartialEq, Eq, Structural, Clone, Copy)]
pub enum ClockMode {
    Hour12,
    Hour24,
}

/// The number of each `ClockMode` on the wire.
pub open spec fn clock_mode_number(v: ClockMode) -> u32 {
    match v {
        ClockMode::Hour12 => 0x00,
        ClockMode::Hour24 => 0x01,
    }
}

/// The `ClockMode` that a number denotes, if any.
pub open spec fn clock_mode_of_number(n: u32) -> Option<ClockMode> {
    if n == 0x00 {
        Some(ClockMode::Hour12)
    } else if n == 0x01 {
        Some(ClockMode::Hour24)
    } else {
        None
    }
}

impl ProtocolEnum for ClockMode {
    open spec fn spec_to_u32(&self) -> Option<u32> {
        Some(clock_mode_number(*self))
    }

    open spec fn spec_from_u32(n: u32) -> Option<Self> {
        clock_mode_of_number(n)
    }

    fn to_u32(&self) -> (r: Option<u32>) {
        Some(match self {
            ClockMode::Hour12 => 0x00,
            ClockMode::Hour24 => 0x01,
        })
    }

    fn from_u32(n: u32) -> (r: Option<Self>) {
        match n {
            0x00 => Some(ClockMode::Hour12),
            0x01 => Some(ClockMode::Hour24),
            _ => None,
        }
    }

    proof fn lemma_from_to(&self) {
    }
}

impl ClockMode {
    /// The value's number as a byte.
    pub(crate) fn number(&self) -> (r: u8)
        ensures
            r as u32 == clock_mode_number(*self),
            r == clock_mode_number(*self) as u8,
    {
        match self {
            ClockMode::Hour12 => 0x00,
            ClockMode::Hour24 => 0x01,
        }
    }
}

/// Fault recorded in the fault log.
#[derive(Debug, PartialEq, Eq, Structural, Clone, Copy)]
pub enum FaultCode {
    SensorsOutOfSync,
    WaterFlowLow,
    WaterFlowFailed,
    SettingsReset1,
    PrimingMode,
    ClockFailed,
    SettingsReset2,
    ProgramMemoryFailure,
    SensorsOutOfSyncCallForService,
    HeaterIsDry,
    HeaterMayBeDry,
    WaterTooHot,
    HeaterTooHot,
    SensorAFault,
    SensorBFault,
    PumpMayBeStuckOn,
    HotFault,
    GfciTestFailed,
    StandbyMode,
}

/// The number of each `FaultCode` on the wire.
pub open spec fn fault_code_number(v: FaultCode) -> u32 {
    match v {
        FaultCode::SensorsOutOfSync => 0x0f,
        FaultCode::WaterFlowLow => 0x10,
        FaultCode::WaterFlowFailed => 0x11,
        FaultCode::SettingsReset1 => 0x12,
        FaultCode::PrimingMode => 0x13,
        FaultCode::ClockFailed => 0x14,
        FaultCode::SettingsReset2 => 0x15,
        FaultCode::ProgramMemoryFailure => 0x16,
        FaultCode::SensorsOutOfSyncCallForService => 0x1a,
        FaultCode::HeaterIsDry => 0x1b,
        FaultCode::HeaterMayBeDry => 0x1c,
        FaultCode::WaterTooHot => 0x1d,
        FaultCode::HeaterTooHot => 0x1e,
        FaultCode::SensorAFault => 0x1f,
        FaultCode::SensorBFault => 0x20,
        FaultCode::PumpMayBeStuckOn => 0x22,
        FaultCode::HotFault => 0x23,
        FaultCode::GfciTestFailed => 0x24,
        FaultCode::StandbyMode => 0x25,
    }
}

/// The `FaultCode` that a number denotes, if any.
pub open spec fn fault_code_of_number(n: u32) -> Option<FaultCode> {
    if n == 0x0f {
        Some(FaultCode::SensorsOutOfSync)
    } else if n == 0x10 {
        Some(FaultCode::WaterFlowLow)
    } else if n == 0x11 {
        Some(FaultCode::WaterFlowFailed)
    } else if n == 0x12 {
        Some(FaultCode::SettingsReset1)
    } else if n == 0x13 {
        Some(FaultCode::PrimingMode)
    } else if n == 0x14 {
        Some(FaultCode::ClockFailed)
    } else if n == 0x15 {
        Some(FaultCode::SettingsReset2)
    } else if n == 0x16 {
        Some(FaultCode::ProgramMemoryFailure)
    } else if n == 0x1a {
        Some(FaultCode::SensorsOutOfSyncCallForService)
    } else if n == 0x1b {
        Some(FaultCode::HeaterIsDry)
    } else if n == 0x1c {
        Some(FaultCode::HeaterMayBeDry)
    } else if n == 0x1d {
        Some(FaultCode::WaterTooHot)
    } else if n == 0x1e {
        Some(FaultCode::HeaterTooHot)
    } else if n == 0x1f {
        Some(FaultCode::SensorAFault)
    } else if n == 0x20 {
        Some(FaultCode::SensorBFault)
    } else if n == 0x22 {
        Some(FaultCode::PumpMayBeStuckOn)
    } else if n == 0x23 {
        Some(FaultCode::HotFault)
    } else if n == 0x24 {
        Some(FaultCode::GfciTestFailed)
    } else if n == 0x25 {
        Some(FaultCode::StandbyMode)
    } else {
        None
    }
}

impl ProtocolEnum for FaultCode {
    open spec fn spec_to_u32(&self) -> Option<u32> {
        Some(fault_code_number(*self))
    }

    open spec fn spec_from_u32(n: u32) -> Option<Self> {
        fault_code_of_number(n)
    }

    fn to_u32(&self) -> (r: Option<u32>) {
        Some(match self {
            FaultCode::SensorsOutOfSync => 0x0f,
            FaultCode::WaterFlowLow => 0x10,
            FaultCode::WaterFlowFailed => 0x11,
            FaultCode::SettingsReset1 => 0x12,
            FaultCode::PrimingMode => 0x13,
            FaultCode::ClockFailed => 0x14,
            FaultCode::SettingsReset2 => 0x15,
            FaultCode::ProgramMemoryFailure => 0x16,
            FaultCode::SensorsOutOfSyncCallForService => 0x1a,
            FaultCode::HeaterIsDry => 0x1b,
            FaultCode::HeaterMayBeDry => 0x1c,
            FaultCode::WaterTooHot => 0x1d,
            FaultCode::HeaterTooHot => 0x1e,
            FaultCode::SensorAFault => 0x1f,
            FaultCode::SensorBFault => 0x20,
            FaultCode::PumpMayBeStuckOn => 0x22,
            FaultCode::HotFault => 0x23,
            FaultCode::GfciTestFailed => 0x24,
            FaultCode::StandbyMode => 0x25,
        })
    }

    fn from_u32(n: u32) -> (r: Option<Self>) {
        match n {
            0x0f => Some(FaultCode::SensorsOutOfSync),
            0x10 => Some(FaultCode::WaterFlowLow),
            0x11 => Some(FaultCode::WaterFlowFailed),
            0x12 => Some(FaultCode::SettingsReset1),
            0x13 => Some(FaultCode::PrimingMode),
            0x14 => Some(FaultCode::ClockFailed),
            0x15 => Some(FaultCode::SettingsReset2),
            0x16 => Some(FaultCode::ProgramMemoryFailure),
            0x1a => Some(FaultCode::SensorsOutOfSyncCallForService),
            0x1b => Some(FaultCode::HeaterIsDry),
            0x1c => Some(FaultCode::HeaterMayBeDry),
            0x1d => Some(FaultCode::WaterTooHot),
            0x1e => Some(FaultCode::HeaterTooHot),
            0x1f => Some(FaultCode::SensorAFault),
            0x20 => Some(FaultCode::SensorBFault),
            0x22 => Some(FaultCode::PumpMayBeStuckOn),
            0x23 => Some(FaultCode::HotFault),
            0x24 => Some(FaultCode::GfciTestFailed),
            0x25 => Some(FaultCode::StandbyMode),
            _ => None,
        }
    }

    proof fn lemma_from_to(&self) {
    }
}

impl FaultCode {
    /// The value's number as a byte.
    pub(crate) fn number(&self) -> (r: u8)
        ensures
            r as u32 == fault_code_number(*self),
            r == fault_code_number(*self) as u8,
    {
        match self {
            FaultCode::SensorsOutOfSync => 0x0f,
            FaultCode::WaterFlowLow => 0x10,
            FaultCode::WaterFlowFailed => 0x11,
            FaultCode::SettingsReset1 => 0x12,
            FaultCode::PrimingMode => 0x13,
            FaultCode::ClockFailed => 0x14,
            FaultCode::SettingsReset2 => 0x15,
            FaultCode::ProgramMemoryFailure => 0x16,
            FaultCode::SensorsOutOfSyncCallForService => 0x1a,
            FaultCode::HeaterIsDry => 0x1b,
            FaultCode::HeaterMayBeDry => 0x1c,
            FaultCode::WaterTooHot => 0x1d,
            FaultCode::HeaterTooHot => 0x1e,
            FaultCode::SensorAFault => 0x1f,
            FaultCode::SensorBFault => 0x20,
            FaultCode::PumpMayBeStuckOn => 0x22,
            FaultCode::HotFault => 0x23,
            FaultCode::GfciTestFailed => 0x24,
            FaultCode::StandbyMode => 0x25,
        }
    }
}

/// Outcome of the GFCI test.
#[derive(Debug, PartialEq, Eq, Structural, Clone, Copy)]
pub enum GfciTestResult {
    Fail,
    Pass,
}

/// The number of each `GfciTestResult` on the wire.
pub open spec fn gfci_test_result_number(v: GfciTestResult) -> u32 {
    match v {
        GfciTestResult::Fail => 0x00,
        GfciTestResult::Pass => 0x01,
    }
}

/// The `GfciTestResult` that a number denotes, if any.
pub open spec fn gfci_test_result_of_number(n: u32) -> Option<GfciTestResult> {
    if n == 0x00 {
        Some(GfciTestResult::Fail)
    } else if n == 0x01 {
        Some(GfciTestResult::Pass)
    } else {
        None
    }
}

impl ProtocolEnum for GfciTestResult {
    open spec fn spec_to_u32(&self) -> Option<u32> {
        Some(gfci_test_result_number(*self))
    }

    open spec fn spec_from_u32(n: u32) -> Option<Self> {
        gfci_test_result_of_number(n)
    }

    fn to_u32(&self) -> (r: Option<u32>) {
        Some(match self {
            GfciTestResult::Fail => 0x00,
            GfciTestResult::Pass => 0x01,
        })
    }

    fn from_u32(n: u32) -> (r: Option<Self>) {
        match n {
            0x00 => Some(GfciTestResult::Fail),
            0x01 => Some(GfciTestResult::Pass),
            _ => None,
        }
    }

    proof fn lemma_from_to(&self) {
    }
}

impl GfciTestResult {
    /// The value's number as a byte.
    pub(crate) fn number(&self) -> (r: u8)
        ensures
            r as u32 == gfci_test_result_number(*self),
            r == gfci_test_result_number(*self) as u8,
    {
        match self {
            GfciTestResult::Fail => 0x00,
            GfciTestResult::Pass => 0x01,
        }
    }
}

/// Lock or unlock of the settings or the panel.
#[derive(Debug, PartialEq, Eq, Structural, Clone, Copy)]
pub enum LockRequestMessage {
    LockSettings,
    LockPanel,
    UnlockSettings,
    UnlockPanel,
}

/// The number of each `LockRequestMessage` on the wire.
pub open spec fn lock_request_message_number(v: LockRequestMessage) -> u32 {
    match v {
        LockRequestMessage::LockSettings => 0x01,
        LockRequestMessage::LockPanel => 0x02,
        LockRequestMessage::UnlockSettings => 0x03,
        LockRequestMessage::UnlockPanel => 0x04,
    }
}

/// The `LockRequestMessage` that a number denotes, if any.
pub open spec fn lock_request_message_of_number(n: u32) -> Option<LockRequestMessage> {
    if n == 0x01 {
        Some(LockRequestMessage::LockSettings)
    } else if n == 0x02 {
        Some(LockRequestMessage::LockPanel)
    } else if n == 0x03 {
        Some(LockRequestMessage::UnlockSettings)
    } else if n == 0x04 {
        Some(LockRequestMessage::UnlockPanel)
    } else {
        None
    }
}

impl ProtocolEnum for LockRequestMessage {
    open spec fn spec_to_u32(&self) -> Option<u32> {
        Some(lock_request_message_number(*self))
    }

    open spec fn spec_from_u32(n: u32) -> Option<Self> {
        lock_request_message_of_number(n)
    }

    fn to_u32(&self) -> (r: Option<u32>) {
        Some(match self {
            LockRequestMessage::LockSettings => 0x01,
            LockRequestMessage::LockPanel => 0x02,
            LockRequestMessage::UnlockSettings => 0x03,
            LockRequestMessage::UnlockPanel => 0x04,
        })
    }

    fn from_u32(n: u32) -> (r: Option<Self>) {
        match n {
            0x01 => Some(LockRequestMessage::LockSettings),
            0x02 => Some(LockRequestMessage::LockPanel),
            0x03 => Some(LockRequestMessage::UnlockSettings),
            0x04 => Some(LockRequestMessage::UnlockPanel),
            _ => None,
        }
    }

    proof fn lemma_from_to(&self) {
    }
}

impl LockRequestMessage {
    /// The value's number as a byte.
    pub(crate) fn number(&self) -> (r: u8)
        ensures
            r as u32 == lock_request_message_number(*self),
            r == lock_request_message_number(*self) as u8,
    {
        match self {
            LockRequestMessage::LockSettings => 0x01,
            LockRequestMessage::LockPanel => 0x02,
            LockRequestMessage::UnlockSettings => 0x03,
            LockRequestMessage::UnlockPanel => 0x04,
        }
    }
}

/// Speeds a pump supports.
#[derive(Debug, PartialEq, Eq, Structural, Clone, Copy)]
pub enum PumpConfig {
    Absent,
    Speed1,
    Speed2,
}

/// The number of each `PumpConfig` on the wire.
pub open spec fn pump_config_number(v: PumpConfig) -> u32 {
    match v {
        PumpConfig::Absent => 0x00,
        PumpConfig::Speed1 => 0x01,
        PumpConfig::Speed2 => 0x02,
    }
}

/// The `PumpConfig` that a number denotes, if any.
pub open spec fn pump_config_of_number(n: u32) -> Option<PumpConfig> {
    if n == 0x00 {
        Some(PumpConfig::Absent)
    } else if n == 0x01 {
        Some(PumpConfig::Speed1)
    } else if n == 0x02 {
        Some(PumpConfig::Speed2)
    } else {
        None
    }
}

impl ProtocolEnum for PumpConfig {
    open spec fn spec_to_u32(&self) -> Option<u32> {
        Some(pump_config_number(*self))
    }

    open spec fn spec_from_u32(n: u32) -> Option<Self> {
        pump_config_of_number(n)
    }

    fn to_u32(&self) -> (r: Option<u32>) {
        Some(match self {
            PumpConfig::Absent => 0x00,
            PumpConfig::Speed1 => 0x01,
            PumpConfig::Speed2 => 0x02,
        })
    }

    fn from_u32(n: u32) -> (r: Option<Self>) {
        match n {
            0x00 => Some(PumpConfig::Absent),
            0x01 => Some(PumpConfig::Speed1),
            0x02 => Some(PumpConfig::Speed2),
            _ => None,
        }
    }

    proof fn lemma_from_to(&self) {
    }
}

impl PumpConfig {
    /// The value's number as a byte.
    pub(crate) fn number(&self) -> (r: u8)
        ensures
            r as u32 == pump_config_number(*self),
            r == pump_config_number(*self) as u8,
    {
        match self {
            PumpConfig::Absent => 0x00,
            PumpConfig::Speed1 => 0x01,
            PumpConfig::Speed2 => 0x02,
        }
    }
}

/// Whether a relay-driven device is fitted.
#[derive(Debug, PartialEq, Eq, Structural, Clone, Copy)]
pub enum RelayConfig {
    Absent,
    Present,
}

/// The number of each `RelayConfig` on the wire.
pub open spec fn relay_config_number(v: RelayConfig) -> u32 {
    match v {
        RelayConfig::Absent => 0x00,
        RelayConfig::Present => 0x01,
    }
}

/// The `RelayConfig` that a number denotes, if any.
pub open spec fn relay_config_of_number(n: u32) -> Option<RelayConfig> {
    if n == 0x00 {
        Some(RelayConfig::Absent)
    } else if n == 0x01 {
        Some(RelayConfig::Present)
    } else {
        None
    }
}

impl ProtocolEnum for RelayConfig {
    open spec fn spec_to_u32(&self) -> Option<u32> {
        Some(relay_config_number(*self))
    }

    open spec fn spec_from_u32(n: u32) -> Option<Self> {
        relay_config_of_number(n)
    }

    fn to_u32(&self) -> (r: Option<u32>) {
        Some(match self {
            RelayConfig::Absent => 0x00,
            RelayConfig::Present => 0x01,
        })
    }

    fn from_u32(n: u32) -> (r: Option<Self>) {
        match n {
            0x00 => Some(RelayConfig::Absent),
            0x01 => Some(RelayConfig::Present),
            _ => None,
        }
    }

    proof fn lemma_from_to(&self) {
    }
}

impl RelayConfig {
    /// The value's number as a byte.
    pub(crate) fn number(&self) -> (r: u8)
        ensures
            r as u32 == relay_config_number(*self),
            r == relay_config_number(*self) as u8,
    {
        match self {
            RelayConfig::Absent => 0x00,
            RelayConfig::Present => 0x01,
        }
    }
}

/// Test setting to toggle.
#[derive(Debug, PartialEq, Eq, Structural, Clone, Copy)]
pub enum ToggleTestMessage {
    SensorABTemperatures,
    Timeouts,
    TempLimits,
}

/// The number of each `ToggleTestMessage` on the wire.
pub open spec fn toggle_test_message_number(v: ToggleTestMessage) -> u32 {
    match v {
        ToggleTestMessage::SensorABTemperatures => 0x03,
        ToggleTestMessage::Timeouts => 0x04,
        ToggleTestMessage::TempLimits => 0x05,
    }
}

/// The `ToggleTestMessage` that a number denotes, if any.
pub open spec fn toggle_test_message_of_number(n: u32) -> Option<ToggleTestMessage> {
    if n == 0x03 {
        Some(ToggleTestMessage::SensorABTemperatures)
    } else if n == 0x04 {
        Some(ToggleTestMessage::Timeouts)
    } else if n == 0x05 {
        Some(ToggleTestMessage::TempLimits)
    } else {
        None
    }
}

impl ProtocolEnum for ToggleTestMessage {
    open spec fn spec_to_u32(&self) -> Option<u32> {
        Some(toggle_test_message_number(*self))
    }

    open spec fn spec_from_u32(n: u32) -> Option<Self> {
        toggle_test_message_of_number(n)
    }

    fn to_u32(&self) -> (r: Option<u32>) {
        Some(match self {
            ToggleTestMessage::SensorABTemperatures => 0x03,
            ToggleTestMessage::Timeouts => 0x04,
            ToggleTestMessage::TempLimits => 0x05,
        })
    }

    fn from_u32(n: u32) -> (r: Option<Self>) {
        match n {
            0x03 => Some(ToggleTestMessage::SensorABTemperatures),
            0x04 => Some(ToggleTestMessage::Timeouts),
            0x05 => Some(ToggleTestMessage::TempLimits),
            _ => None,
        }
    }

    proof fn lemma_from_to(&self) {
    }
}

impl ToggleTestMessage {
    /// The value's number as a byte.
    pub(crate) fn number(&self) -> (r: u8)
        ensures
            r as u32 == toggle_test_message_number(*self),
            r == toggle_test_message_number(*self) as u8,
    {
        match self {
            ToggleTestMessage::SensorABTemperatures => 0x03,
            ToggleTestMessage::Timeouts => 0x04,
            ToggleTestMessage::TempLimits => 0x05,
        }
    }
}

/// Fahrenheit or Celsius.
#[derive(Debug, PartialEq, Eq, Structural, Clone, Copy)]
pub enum TemperatureScale {
    Fahrenheit,
    Celsius,
}

/// The number of each `TemperatureScale` on the wire.
pub open spec fn temperature_scale_number(v: TemperatureScale) -> u32 {
    match v {
        TemperatureScale::Fahrenheit => 0x00,
        TemperatureScale::Celsius => 0x01,
    }
}

/// The `TemperatureScale` that a number denotes, if any.
pub open spec fn temperature_scale_of_number(n: u32) -> Option<TemperatureScale> {
    if n == 0x00 {
        Some(TemperatureScale::Fahrenheit)
    } else if n == 0x01 {
        Some(TemperatureScale::Celsius)
    } else {
        None
    }
}

impl ProtocolEnum for TemperatureScale {
    open spec fn spec_to_u32(&self) -> Option<u32> {
        Some(temperature_scale_number(*self))
    }

    open spec fn spec_from_u32(n: u32) -> Option<Self> {
        temperature_scale_of_number(n)
    }

    fn to_u32(&self) -> (r: Option<u32>) {
        Some(match self {
            TemperatureScale::Fahrenheit => 0x00,
            TemperatureScale::Celsius => 0x01,
        })
    }

    fn from_u32(n: u32) -> (r: Option<Self>) {
        match n {
            0x00 => Some(TemperatureScale::Fahrenheit),
            0x01 => Some(TemperatureScale::Celsius),
            _ => None,
        }
    }

    proof fn lemma_from_to(&self) {
    }
}

impl TemperatureScale {
    /// The value's number as a byte.
    pub(crate) fn number(&self) -> (r: u8)
        ensures
            r as u32 == temperature_scale_number(*self),
            r == temperature_scale_number(*self) as u8,
    {
        match self {
            TemperatureScale::Fahrenheit => 0x00,
            TemperatureScale::Celsius => 0x01,
        }
    }
}

/// `Boolean` on the wire, as the protocol's table numbers it: the number of each value, the
/// value of each number, and no value for any other number.
pub proof fn lemma_boolean_wire_table()
    ensures
        Boolean::False.spec_to_u32() == Some(0x00u32),
        Boolean::True.spec_to_u32() == Some(0x01u32),
        Boolean::spec_from_u32(0x00u32) == Some(Boolean::False),
        Boolean::spec_from_u32(0x01u32) == Some(Boolean::True),
        forall|n: u32| n != 0x00 && n != 0x01 ==> #[trigger] Boolean::spec_from_u32(n) is None,
{
}

/// `ItemCode` on the wire, as the protocol's table numbers it: the number of each value, the
/// value of each number, and no value for any other number.
pub proof fn lemma_item_code_wire_table()
    ensures
        ItemCode::NormalOperation.spec_to_u32() == Some(0x01u32),
        ItemCode::ClearNotification.spec_to_u32() == Some(0x03u32),
        ItemCode::Pump1.spec_to_u32() == Some(0x04u32),
        ItemCode::Pump2.spec_to_u32() == Some(0x05u32),
        ItemCode::Pump3.spec_to_u32() == Some(0x06u32),
        ItemCode::Pump4.spec_to_u32() == Some(0x07u32),
        ItemCode::Pump5.spec_to_u32() == Some(0x08u32),
        ItemCode::Pump6.spec_to_u32() == Some(0x09u32),
        ItemCode::Blower.spec_to_u32() == Some(0x0cu32),
        ItemCode::Mister.spec_to_u32() == Some(0x0eu32),
        ItemCode::Light1.spec_to_u32() == Some(0x11u32),
        ItemCode::Light2.spec_to_u32() == Some(0x12u32),
        ItemCode::Aux1.spec_to_u32() == Some(0x16u32),
        ItemCode::Aux2.spec_to_u32() == Some(0x17u32),
        ItemCode::SoakMode.spec_to_u32() == Some(0x1du32),
        ItemCode::HoldMode.spec_to_u32() == Some(0x3cu32),
        ItemCode::TemperatureRange.spec_to_u32() == Some(0x50u32),
        ItemCode::HeatMode.spec_to_u32() == Some(0x51u32),
        ItemCode::spec_from_u32(0x01u32) == Some(ItemCode::NormalOperation),
        ItemCode::spec_from_u32(0x03u32) == Some(ItemCode::ClearNotification),
        ItemCode::spec_from_u32(0x04u32) == Some(ItemCode::Pump1),
        ItemCode::spec_from_u32(0x05u32) == Some(ItemCode::Pump2),
        ItemCode::spec_from_u32(0x06u32) == Some(ItemCode::Pump3),
        ItemCode::spec_from_u32(0x07u32) == Some(ItemCode::Pump4),
        ItemCode::spec_from_u32(0x08u32) == Some(ItemCode::Pump5),
        ItemCode::spec_from_u32(0x09u32) == Some(ItemCode::Pump6),
        ItemCode::spec_from_u32(0x0cu32) == Some(ItemCode::Blower),
        ItemCode::spec_from_u32(0x0eu32) == Some(ItemCode::Mister),
        ItemCode::spec_from_u32(0x11u32) == Some(ItemCode::Light1),
        ItemCode::spec_from_u32(0x12u32) == Some(ItemCode::Light2),
        ItemCode::spec_from_u32(0x16u32) == Some(ItemCode::Aux1),
        ItemCode::spec_from_u32(0x17u32) == Some(ItemCode::Aux2),
        ItemCode::spec_from_u32(0x1du32) == Some(ItemCode::SoakMode),
        ItemCode::spec_from_u32(0x3cu32) == Some(ItemCode::HoldMode),
        ItemCode::spec_from_u32(0x50u32) == Some(ItemCode::TemperatureRange),
        ItemCode::spec_from_u32(0x51u32) == Some(ItemCode::HeatMode),
        forall|n: u32| n != 0x01 && n != 0x03 && n != 0x04 && n != 0x05 && n != 0x06 && n != 0x07 && n != 0x08 && n != 0x09 && n != 0x0c && n != 0x0e && n != 0x11 && n != 0x12 && n != 0x16 && n != 0x17 && n != 0x1d && n != 0x3c && n != 0x50 && n != 0x51 ==> #[trigger] ItemCode::spec_from_u32(n) is None,
{
}

/// `SpaState` on the wire, as the protocol's table numbers it: the number of each value, the
/// value of each number, and no value for any other number.
pub proof fn lemma_spa_state_wire_table()
    ensures
        SpaState::Running.spec_to_u32() == Some(0x00u32),
        SpaState::Initializing.spec_to_u32() == Some(0x01u32),
        SpaState::HoldMode.spec_to_u32() == Some(0x05u32),
        SpaState::AbTempsOn.spec_to_u32() == Some(0x14u32),
        SpaState::TestMode.spec_to_u32() == Some(0x17u32),
        SpaState::spec_from_u32(0x00u32) == Some(SpaState::Running),
        SpaState::spec_from_u32(0x01u32) == Some(SpaState::Initializing),
        SpaState::spec_from_u32(0x05u32) == Some(SpaState::HoldMode),
        SpaState::spec_from_u32(0x14u32) == Some(SpaState::AbTempsOn),
        SpaState::spec_from_u32(0x17u32) == Some(SpaState::TestMode),
        forall|n: u32| n != 0x00 && n != 0x01 && n != 0x05 && n != 0x14 && n != 0x17 ==> #[trigger] SpaState::spec_from_u32(n) is None,
{
}

/// `InitializationMode` on the wire, as the protocol's table numbers it: the number of each value, the
/// value of each number, and no value for any other number.
pub proof fn lemma_initialization_mode_wire_table()
    ensures
        InitializationMode::Idle.spec_to_u32() == Some(0x00u32),
        InitializationMode::PrimingMode.spec_to_u32() == Some(0x01u32),
        InitializationMode::PostSettingsReset.spec_to_u32() == Some(0x02u32),
        InitializationMode::Reminder.spec_to_u32() == Some(0x03u32),
        InitializationMode::Stage1.spec_to_u32() == Some(0x04u32),
        InitializationMode::Stage2.spec_to_u32() == Some(0x42u32),
        InitializationMode::Stage3.spec_to_u32() == Some(0x05u32),
        InitializationMode::spec_from_u32(0x00u32) == Some(InitializationMode::Idle),
        InitializationMode::spec_from_u32(0x01u32) == Some(InitializationMode::PrimingMode),
        InitializationMode::spec_from_u32(0x02u32) == Some(InitializationMode::PostSettingsReset),
        InitializationMode::spec_from_u32(0x03u32) == Some(InitializationMode::Reminder),
        InitializationMode::spec_from_u32(0x04u32) == Some(InitializationMode::Stage1),
        InitializationMode::spec_from_u32(0x42u32) == Some(InitializationMode::Stage2),
        InitializationMode::spec_from_u32(0x05u32) == Some(InitializationMode::Stage3),
        forall|n: u32| n != 0x00 && n != 0x01 && n != 0x02 && n != 0x03 && n != 0x04 && n != 0x42 && n != 0x05 ==> #[trigger] InitializationMode::spec_from_u32(n) is None,
{
}

/// `HeatingMode` on the wire, as the protocol's table numbers it: the number of each value, the
/// value of each number, and no value for any other number.
pub proof fn lemma_heating_mode_wire_table()
    ensures
        HeatingMode::Ready.spec_to_u32() == Some(0x00u32),
        HeatingMode::Rest.spec_to_u32() == Some(0x01u32),
        HeatingMode::ReadyInRest.spec_to_u32() == Some(0x03u32),
        HeatingMode::spec_from_u32(0x00u32) == Some(HeatingMode::Ready),
        HeatingMode::spec_from_u32(0x01u32) == Some(HeatingMode::Rest),
        HeatingMode::spec_from_u32(0x03u32) == Some(HeatingMode::ReadyInRest),
        forall|n: u32| n != 0x00 && n != 0x01 && n != 0x03 ==> #[trigger] HeatingMode::spec_from_u32(n) is None,
{
}

/// `ReminderType` on the wire, as the protocol's table numbers it: the number of each value, the
/// value of each number, and no value for any other number.
pub proof fn lemma_reminder_type_wire_table()
    ensures
        ReminderType::NoReminder.spec_to_u32() == Some(0x00u32),
        ReminderType::CleanFilter.spec_to_u32() == Some(0x04u32),
        ReminderType::CheckPhLevel.spec_to_u32() == Some(0x0au32),
        ReminderType::CheckSanitizer.spec_to_u32() == Some(0x09u32),
        ReminderType::spec_from_u32(0x00u32) == Some(ReminderType::NoReminder),
        ReminderType::spec_from_u32(0x04u32) == Some(ReminderType::CleanFilter),
        ReminderType::spec_from_u32(0x0au32) == Some(ReminderType::CheckPhLevel),
        ReminderType::spec_from_u32(0x09u32) == Some(ReminderType::CheckSanitizer),
        forall|n: u32| n != 0x00 && n != 0x04 && n != 0x0a && n != 0x09 ==> #[trigger] ReminderType::spec_from_u32(n) is None,
{
}

/// `FilterMode` on the wire, as the protocol's table numbers it: the number of each value, the
/// value of each number, and no value for any other number.
pub proof fn lemma_filter_mode_wire_table()
    ensures
        FilterMode::Off.spec_to_u32() == Some(0x00u32),
        FilterMode::Cycle1.spec_to_u32() == Some(0x01u32),
        FilterMode::Cycle2.spec_to_u32() == Some(0x02u32),
        FilterMode::Cycle1And2.spec_to_u32() == Some(0x03u32),
        FilterMode::spec_from_u32(0x00u32) == Some(FilterMode::Off),
        FilterMode::spec_from_u32(0x01u32) == Some(FilterMode::Cycle1),
        FilterMode::spec_from_u32(0x02u32) == Some(FilterMode::Cycle2),
        FilterMode::spec_from_u32(0x03u32) == Some(FilterMode::Cycle1And2),
        forall|n: u32| n != 0x00 && n != 0x01 && n != 0x02 && n != 0x03 ==> #[trigger] FilterMode::spec_from_u32(n) is None,
{
}

/// `TemperatureRange` on the wire, as the protocol's table numbers it: the number of each value, the
/// value of each number, and no value for any other number.
pub proof fn lemma_temperature_range_wire_table()
    ensures
        TemperatureRange::Low.spec_to_u32() == Some(0x00u32),
        TemperatureRange::High.spec_to_u32() == Some(0x01u32),
        TemperatureRange::spec_from_u32(0x00u32) == Some(TemperatureRange::Low),
        TemperatureRange::spec_from_u32(0x01u32) == Some(TemperatureRange::High),
        forall|n: u32| n != 0x00 && n != 0x01 ==> #[trigger] TemperatureRange::spec_from_u32(n) is None,
{
}

/// `HeatingState` on the wire, as the protocol's table numbers it: the number of each value, the
/// value of each number, and no value for any other number.
pub proof fn lemma_heating_state_wire_table()
    ensures
        HeatingState::Off.spec_to_u32() == Some(0x00u32),
        HeatingState::Heating.spec_to_u32() == Some(0x01u32),
        HeatingState::HeatWaiting.spec_to_u32() == Some(0x02u32),
        HeatingState::spec_from_u32(0x00u32) == Some(HeatingState::Off),
        HeatingState::spec_from_u32(0x01u32) == Some(HeatingState::Heating),
        HeatingState::spec_from_u32(0x02u32) == Some(HeatingState::HeatWaiting),
        forall|n: u32| n != 0x00 && n != 0x01 && n != 0x02 ==> #[trigger] HeatingState::spec_from_u32(n) is None,
{
}

/// `PumpStatus` on the wire, as the protocol's table numbers it: the number of each value, the
/// value of each number, and no value for any other number.
pub proof fn lemma_pump_status_wire_table()
    ensures
        PumpStatus::Off.spec_to_u32() == Some(0x00u32),
        PumpStatus::Low.spec_to_u32() == Some(0x01u32),
        PumpStatus::High.spec_to_u32() == Some(0x02u32),
        PumpStatus::spec_from_u32(0x00u32) == Some(PumpStatus::Off),
        PumpStatus::spec_from_u32(0x01u32) == Some(PumpStatus::Low),
        PumpStatus::spec_from_u32(0x02u32) == Some(PumpStatus::High),
        forall|n: u32| n != 0x00 && n != 0x01 && n != 0x02 ==> #[trigger] PumpStatus::spec_from_u32(n) is None,
{
}

/// `RelayStatus` on the wire, as the protocol's table numbers it: the number of each value, the
/// value of each number, and no value for any other number.
pub proof fn lemma_relay_status_wire_table()
    ensures
        RelayStatus::Off.spec_to_u32() == Some(0x00u32),
        RelayStatus::On.spec_to_u32() == Some(0x03u32),
        RelayStatus::spec_from_u32(0x00u32) == Some(RelayStatus::Off),
        RelayStatus::spec_from_u32(0x03u32) == Some(RelayStatus::On),
        forall|n: u32| n != 0x00 && n != 0x03 ==> #[trigger] RelayStatus::spec_from_u32(n) is None,
{
}

/// `HeaterVoltage` on the wire, as the protocol's table numbers it: the number of each value, the
/// value of each number, and no value for any other number.
pub proof fn lemma_heater_voltage_wire_table()
    ensures
        HeaterVoltage::V240.spec_to_u32() == Some(0x01u32),
        HeaterVoltage::spec_from_u32(0x01u32) == Some(HeaterVoltage::V240),
        forall|n: u32| n != 0x01 ==> #[trigger] HeaterVoltage::spec_from_u32(n) is None,
{
}

/// `HeaterType` on the wire, as the protocol's table numbers it: the number of each value, the
/// value of each number, and no value for any other number.
pub proof fn lemma_heater_type_wire_table()
    ensures
        HeaterType::Standard.spec_to_u32() == Some(0x0au32),
        HeaterType::spec_from_u32(0x0au32) == Some(HeaterType::Standard),
        forall|n: u32| n != 0x0a ==> #[trigger] HeaterType::spec_from_u32(n) is None,
{
}

/// `ClockMode` on the wire, as the protocol's table numbers it: the number of each value, the
/// value of each number, and no value for any other number.
pub proof fn lemma_clock_mode_wire_table()
    ensures
        ClockMode::Hour12.spec_to_u32() == Some(0x00u32),
        ClockMode::Hour24.spec_to_u32() == Some(0x01u32),
        ClockMode::spec_from_u32(0x00u32) == Some(ClockMode::Hour12),
        ClockMode::spec_from_u32(0x01u32) == Some(ClockMode::Hour24),
        forall|n: u32| n != 0x00 && n != 0x01 ==> #[trigger] ClockMode::spec_from_u32(n) is None,
{
}

/// `FaultCode` on the wire, as the protocol's table numbers it: the number of each value, the
/// value of each number, and no value for any other number.
pub proof fn lemma_fault_code_wire_table()
    ensures
        FaultCode::SensorsOutOfSync.spec_to_u32() == Some(0x0fu32),
        FaultCode::WaterFlowLow.spec_to_u32() == Some(0x10u32),
        FaultCode::WaterFlowFailed.spec_to_u32() == Some(0x11u32),
        FaultCode::SettingsReset1.spec_to_u32() == Some(0x12u32),
        FaultCode::PrimingMode.spec_to_u32() == Some(0x13u32),
        FaultCode::ClockFailed.spec_to_u32() == Some(0x14u32),
        FaultCode::SettingsReset2.spec_to_u32() == Some(0x15u32),
        FaultCode::ProgramMemoryFailure.spec_to_u32() == Some(0x16u32),
        FaultCode::SensorsOutOfSyncCallForService.spec_to_u32() == Some(0x1au32),
        FaultCode::HeaterIsDry.spec_to_u32() == Some(0x1bu32),
        FaultCode::HeaterMayBeDry.spec_to_u32() == Some(0x1cu32),
        FaultCode::WaterTooHot.spec_to_u32() == Some(0x1du32),
        FaultCode::HeaterTooHot.spec_to_u32() == Some(0x1eu32),
        FaultCode::SensorAFault.spec_to_u32() == Some(0x1fu32),
        FaultCode::SensorBFault.spec_to_u32() == Some(0x20u32),
        FaultCode::PumpMayBeStuckOn.spec_to_u32() == Some(0x22u32),
        FaultCode::HotFault.spec_to_u32() == Some(0x23u32),
        FaultCode::GfciTestFailed.spec_to_u32() == Some(0x24u32),
        FaultCode::StandbyMode.spec_to_u32() == Some(0x25u32),
        FaultCode::spec_from_u32(0x0fu32) == Some(FaultCode::SensorsOutOfSync),
        FaultCode::spec_from_u32(0x10u32) == Some(FaultCode::WaterFlowLow),
        FaultCode::spec_from_u32(0x11u32) == Some(FaultCode::WaterFlowFailed),
        FaultCode::spec_from_u32(0x12u32) == Some(FaultCode::SettingsReset1),
        FaultCode::spec_from_u32(0x13u32) == Some(FaultCode::PrimingMode),
        FaultCode::spec_from_u32(0x14u32) == Some(FaultCode::ClockFailed),
        FaultCode::spec_from_u32(0x15u32) == Some(FaultCode::SettingsReset2),
        FaultCode::spec_from_u32(0x16u32) == Some(FaultCode::ProgramMemoryFailure),
        FaultCode::spec_from_u32(0x1au32) == Some(FaultCode::SensorsOutOfSyncCallForService),
        FaultCode::spec_from_u32(0x1bu32) == Some(FaultCode::HeaterIsDry),
        FaultCode::spec_from_u32(0x1cu32) == Some(FaultCode::HeaterMayBeDry),
        FaultCode::spec_from_u32(0x1du32) == Some(FaultCode::WaterTooHot),
        FaultCode::spec_from_u32(0x1eu32) == Some(FaultCode::HeaterTooHot),
        FaultCode::spec_from_u32(0x1fu32) == Some(FaultCode::SensorAFault),
        FaultCode::spec_from_u32(0x20u32) == Some(FaultCode::SensorBFault),
        FaultCode::spec_from_u32(0x22u32) == Some(FaultCode::PumpMayBeStuckOn),
        FaultCode::spec_from_u32(0x23u32) == Some(FaultCode::HotFault),
        FaultCode::spec_from_u32(0x24u32) == Some(FaultCode::GfciTestFailed),
        FaultCode::spec_from_u32(0x25u32) == Some(FaultCode::StandbyMode),
        forall|n: u32| n != 0x0f && n != 0x10 && n != 0x11 && n != 0x12 && n != 0x13 && n != 0x14 && n != 0x15 && n != 0x16 && n != 0x1a && n != 0x1b && n != 0x1c && n != 0x1d && n != 0x1e && n != 0x1f && n != 0x20 && n != 0x22 && n != 0x23 && n != 0x24 && n != 0x25 ==> #[trigger] FaultCode::spec_from_u32(n) is None,
{
}

/// `GfciTestResult` on the wire, as the protocol's table numbers it: the number of each value, the
/// value of each number, and no value for any other number.
pub proof fn lemma_gfci_test_result_wire_table()
    ensures
        GfciTestResult::Fail.spec_to_u32() == Some(0x00u32),
        GfciTestResult::Pass.spec_to_u32() == Some(0x01u32),
        GfciTestResult::spec_from_u32(0x00u32) == Some(GfciTestResult::Fail),
        GfciTestResult::spec_from_u32(0x01u32) == Some(GfciTestResult::Pass),
        forall|n: u32| n != 0x00 && n != 0x01 ==> #[trigger] GfciTestResult::spec_from_u32(n) is None,
{
}

/// `LockRequestMessage` on the wire, as the protocol's table numbers it: the number of each value, the
/// value of each number, and no value for any other number.
pub proof fn lemma_lock_request_message_wire_table()
    ensures
        LockRequestMessage::LockSettings.spec_to_u32() == Some(0x01u32),
        LockRequestMessage::LockPanel.spec_to_u32() == Some(0x02u32),
        LockRequestMessage::UnlockSettings.spec_to_u32() == Some(0x03u32),
        LockRequestMessage::UnlockPanel.spec_to_u32() == Some(0x04u32),
        LockRequestMessage::spec_from_u32(0x01u32) == Some(LockRequestMessage::LockSettings),
        LockRequestMessage::spec_from_u32(0x02u32) == Some(LockRequestMessage::LockPanel),
        LockRequestMessage::spec_from_u32(0x03u32) == Some(LockRequestMessage::UnlockSettings),
        LockRequestMessage::spec_from_u32(0x04u32) == Some(LockRequestMessage::UnlockPanel),
        forall|n: u32| n != 0x01 && n != 0x02 && n != 0x03 && n != 0x04 ==> #[trigger] LockRequestMessage::spec_from_u32(n) is None,
{
}

/// `PumpConfig` on the wire, as the protocol's table numbers it: the number of each value, the
/// value of each number, and no value for any other number.
pub proof fn lemma_pump_config_wire_table()
    ensures
        PumpConfig::Absent.spec_to_u32() == Some(0x00u32),
        PumpConfig::Speed1.spec_to_u32() == Some(0x01u32),
        PumpConfig::Speed2.spec_to_u32() == Some(0x02u32),
        PumpConfig::spec_from_u32(0x00u32) == Some(PumpConfig::Absent),
        PumpConfig::spec_from_u32(0x01u32) == Some(PumpConfig::Speed1),
        PumpConfig::spec_from_u32(0x02u32) == Some(PumpConfig::Speed2),
        forall|n: u32| n != 0x00 && n != 0x01 && n != 0x02 ==> #[trigger] PumpConfig::spec_from_u32(n) is None,
{
}

/// `RelayConfig` on the wire, as the protocol's table numbers it: the number of each value, the
/// value of each number, and no value for any other number.
pub proof fn lemma_relay_config_wire_table()
    ensures
        RelayConfig::Absent.spec_to_u32() == Some(0x00u32),
        RelayConfig::Present.spec_to_u32() == Some(0x01u32),
        RelayConfig::spec_from_u32(0x00u32) == Some(RelayConfig::Absent),
        RelayConfig::spec_from_u32(0x01u32) == Some(RelayConfig::Present),
        forall|n: u32| n != 0x00 && n != 0x01 ==> #[trigger] RelayConfig::spec_from_u32(n) is None,
{
}

/// `ToggleTestMessage` on the wire, as the protocol's table numbers it: the number of each value, the
/// value of each number, and no value for any other number.
pub proof fn lemma_toggle_test_message_wire_table()
    ensures
        ToggleTestMessage::SensorABTemperatures.spec_to_u32() == Some(0x03u32),
        ToggleTestMessage::Timeouts.spec_to_u32() == Some(0x04u32),
        ToggleTestMessage::TempLimits.spec_to_u32() == Some(0x05u32),
        ToggleTestMessage::spec_from_u32(0x03u32) == Some(ToggleTestMessage::SensorABTemperatures),
        ToggleTestMessage::spec_from_u32(0x04u32) == Some(ToggleTestMessage::Timeouts),
        ToggleTestMessage::spec_from_u32(0x05u32) == Some(ToggleTestMessage::TempLimits),
        forall|n: u32| n != 0x03 && n != 0x04 && n != 0x05 ==> #[trigger] ToggleTestMessage::spec_from_u32(n) is None,
{
}

/// `TemperatureScale` on the wire, as the protocol's table numbers it: the number of each value, the
/// value of each number, and no value for any other number.
pub proof fn lemma_temperature_scale_wire_table()
    ensures
        TemperatureScale::Fahrenheit.spec_to_u32() == Some(0x00u32),
        TemperatureScale::Celsius.spec_to_u32() == Some(0x01u32),
        TemperatureScale::spec_from_u32(0x00u32) == Some(TemperatureScale::Fahrenheit),
        TemperatureScale::spec_from_u32(0x01u32) == Some(TemperatureScale::Celsius),
        forall|n: u32| n != 0x00 && n != 0x01 ==> #[trigger] TemperatureScale::spec_from_u32(n) is None,
{
}

} // verus!
