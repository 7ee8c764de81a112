//! Temperatures as raw protocol values in Fahrenheit (1 degree per unit) or Celsius (half a
//! degree per unit). Conversion to and from physical temperatures, which needs floating
//! point, is done outside this library.

use vstd::prelude::*;
use crate::messages::enums::TemperatureScale;

verus! {

/// A temperature as it is on the wire, with the scale it is in.
#[derive(Debug, Clone, Copy, PartialEq, Eq, Structural)]
pub struct ProtocolTemperature {
    pub raw_scale: TemperatureScale,
    pub raw_value: u8,
}

/// A requested temperature as it is on the wire.
#[derive(Debug, Clone, Copy, PartialEq, Eq, Structural)]
pub struct SetTemperature {
    pub raw_value: u8,
}

impl TemperatureScale {
    /// The temperature with raw value `raw_value` in this scale.
    pub fn new_protocol_temperature_from_raw(&self, raw_value: u8) -> (t: ProtocolTemperature)
        ensures
            t == (ProtocolTemperature { raw_scale: *self, raw_value }),
    {
        ProtocolTemperature { raw_scale: *self, raw_value }
    }
}

} // verus!
