//! Control logic for a temperature-driven fan with an RGB status indicator.
//!
//! The library decides when the fan runs: a debounced hysteresis policy over
//! milli-Celsius readings, driven through an abstract [`ShimLayer`] capability
//! so that the decisions never touch hardware directly.
use vstd::prelude::*;

pub mod config;
pub mod cpu;
pub mod debounce;
pub mod engine;
pub mod error;

pub use config::FanshimConfig;
pub use debounce::{DebounceCounters, FanAction};
pub use engine::{control_cycle, initial_setup, ShimEvent, ShimLayer};
pub use error::FanshimError;

verus! {

/// Number of milli-degrees in one degree Celsius.
pub const MILLI_CELSIUS_IN_CELSIUS: i32 = 1000;

/// Temperature in millidegrees Celsius. Divide by 1000 to get "regular" Celsius.
#[derive(Debug, Clone, Copy, PartialEq, Eq, Structural)]
pub struct MilliCelsius(pub i32);

/// True when `celsius` whole degrees can be held as milli-Celsius in an `i32`.
pub open spec fn celsius_fits(celsius: int) -> bool {
    i32::MIN <= celsius * 1000 <= i32::MAX
}

impl MilliCelsius {
    /// Converts whole degrees Celsius to milli-Celsius, or `None` when the
    /// product does not fit in an `i32`.
    pub fn from_celsius(celsius: i32) -> (r: Option<MilliCelsius>)
        ensures
            r is Some <==> celsius_fits(celsius as int),
            r matches Some(m) ==> m.0 == celsius * 1000,
    {
        // i32::MIN / 1000 and i32::MAX / 1000, rounded towards zero.
        if celsius < -2147483 || celsius > 2147483 {
            None
        } else {
            Some(MilliCelsius(celsius * MILLI_CELSIUS_IN_CELSIUS))
        }
    }
}

} // verus!
