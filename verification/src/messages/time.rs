//! Time of day as the protocol carries it: hour and minute.

use std::time::Duration;
use vstd::prelude::*;
use crate::messages::clock::duration_nanos;

verus! {

/// Whole seconds of a `Duration`, the value that `Duration::as_secs` returns.
pub uninterp spec fn duration_secs(d: Duration) -> u64;

/// Calls `Duration::as_secs`; the contract names its result `duration_secs`.
#[verifier::external_body]
pub(crate) fn duration_as_secs(d: &Duration) -> (secs: u64)
    ensures
        secs == duration_secs(*d),
{
    d.as_secs()
}

/// Calls `Duration::from_secs`; the contract claims what the documentation states: the
/// result is `secs` whole seconds and no fraction, so `as_secs` gives back `secs` and
/// `as_nanos` gives `secs` times 10^9.
#[verifier::external_body]
pub(crate) fn duration_from_secs(secs: u64) -> (d: Duration)
    ensures
        duration_secs(d) == secs,
        duration_nanos(d) == secs * 1_000_000_000,
{
    Duration::from_secs(secs)
}

/// A time of day of less than 24 hours, with the duration that it was made from.
#[derive(Debug, Copy, Clone)]
pub struct ProtocolTime {
    duration: Duration,
    hour: u8,
    minute: u8,
}

/// Why a duration is not a time of day.
#[derive(Debug, PartialEq, Eq, Structural, Clone, Copy)]
pub enum ProtocolTimeError {
    /// The duration is 24 hours or longer.
    ExceedsSingleDay,
}

impl ProtocolTime {
    pub closed spec fn hour(&self) -> u8 {
        self.hour
    }

    pub closed spec fn minute(&self) -> u8 {
        self.minute
    }

    pub closed spec fn duration(&self) -> Duration {
        self.duration
    }

    /// The time of day that `duration` after midnight denotes (seconds are dropped).
    pub fn from_duration(duration: Duration) -> (result: Result<Self, ProtocolTimeError>)
        ensures
            duration_secs(duration) / 3600 < 24 <==> result is Ok,
            result matches Ok(t) ==> {
                &&& t.hour() == duration_secs(duration) / 3600
                &&& t.minute() == (duration_secs(duration) / 60) % 60
                &&& t.duration() == duration
            },
            result matches Err(e) ==> e == ProtocolTimeError::ExceedsSingleDay,
    {
        let secs = duration_as_secs(&duration);
        let total_minutes = secs / 60;
        let hour = total_minutes / 60;
        let minute = total_minutes % 60;
        if hour >= 24 {
            return Err(ProtocolTimeError::ExceedsSingleDay);
        }
        Ok(Self { duration, hour: hour as u8, minute: minute as u8 })
    }

    /// The time `hour`:`minute`; minutes of 60 or more carry over into the hours.
    pub fn from_hm(hour: u8, minute: u8) -> (t: Self)
        requires
            hour * 60 + minute < 24 * 60,
        ensures
            t.hour() == (hour * 60 + minute) / 60,
            t.minute() == (hour * 60 + minute) % 60,
            duration_secs(t.duration()) == minute * 60 + hour * 3600,
            duration_nanos(t.duration()) == (minute * 60 + hour * 3600) * 1_000_000_000,
    {
        let secs = (minute as u64) * 60 + (hour as u64) * 60 * 60;
        let result = Self::from_duration(duration_from_secs(secs));
        proof {
            assert(secs / 60 == hour * 60 + minute);
        }
        match result {
            Ok(t) => t,
            Err(_) => {
                proof {
                    assert(false);
                }
                Self { duration: duration_from_secs(0), hour: 0, minute: 0 }
            },
        }
    }

    pub fn as_duration(&self) -> (d: Duration)
        ensures
            d == self.duration(),
    {
        self.duration
    }

    /// The time as sent on the wire: hour in the high byte, minute in the low byte.
    pub fn as_raw(&self) -> (raw: u16)
        ensures
            raw == self.hour() * 256 + self.minute(),
    {
        (self.hour as u16) * 256 + (self.minute as u16)
    }

    /// The minutes past the hour.
    pub fn to_minutes(&self) -> (m: u8)
        ensures
            m == self.minute(),
    {
        self.minute
    }
}

/// A valid hour and minute read off the wire are written back as the same two bytes.
pub proof fn lemma_time_raw_roundtrip(hour: u8, minute: u8)
    requires
        hour < 24,
        minute < 60,
    ensures
        (hour * 60 + minute) / 60 == hour,
        (hour * 60 + minute) % 60 == minute,
        ((hour * 60 + minute) / 60) * 256 + (hour * 60 + minute) % 60 == hour * 256 + minute,
{
}

} // verus!
