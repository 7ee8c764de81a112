//! Timers that a platform provides to the main board: one-shot and periodic timers created
//! with a callback.

use std::fmt::Debug;
use std::time::Duration;
use vstd::prelude::*;

verus! {

/// A platform's source of timers.
pub trait SimpleTimerService: ErrorType {
    type Timer: OnceTimer<Error = Self::Error> + PeriodicTimer<Error = Self::Error> + 'static;

    /// A timer that runs `callback` whenever it fires.
    fn timer(&mut self, callback: impl FnMut() + Send + 'static) -> Result<Self::Timer, Self::Error>;
}

/// A timer that can be asked whether it is scheduled, and cancelled.
pub trait Timer: ErrorType {
    fn is_scheduled(&self) -> Result<bool, Self::Error>;

    fn cancel(&mut self) -> Result<bool, Self::Error>;
}

/// The error type of a timer service and its timers.
pub trait ErrorType {
    type Error: Debug;
}

/// A timer that fires once, after a delay.
pub trait OnceTimer: Timer {
    fn after(&mut self, duration: Duration) -> Result<(), Self::Error>;
}

/// A timer that fires repeatedly, at a period.
pub trait PeriodicTimer: Timer {
    fn every(&mut self, duration: Duration) -> Result<(), Self::Error>;
}

} // verus!
