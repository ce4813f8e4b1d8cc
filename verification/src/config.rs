//! The settings that a query is answered under.

use crate::location::GeoLocation;
use crate::weather::WeatherUnits;
use vstd::prelude::*;
use vstd::string::*;

verus! {

/// The settings, as they were read at startup.
#[derive(Debug)]
pub struct Config {
    /// Whether the place is looked up by network address before the fixed
    /// place is used.
    pub use_ip_location: bool,
    /// The trigger: what a query begins with to be answered.
    pub prefix: String,
    /// The fixed place. It is needed even where lookup is switched on: a
    /// failed lookup falls back to it.
    pub weather_location: GeoLocation,
    /// The key that the weather service knows the caller by.
    pub openweatherapi_key: String,
    /// The measurement system of the temperatures.
    pub units: WeatherUnits,
}

impl Config {
    /// Whether the settings can be used: the trigger is not empty and the
    /// fixed place is on the globe.
    pub open spec fn wf(self) -> bool {
        &&& self.prefix@.len() > 0
        &&& self.weather_location.in_range()
    }

    /// Tells whether the settings can be used.
    pub fn is_valid(&self) -> (ok: bool)
        ensures
            ok == self.wf(),
    {
        !self.prefix.as_str().is_empty() && self.weather_location.is_in_range()
    }
}

} // verus!
