//! Where to ask the weather for: the configured place, or the one that a
//! lookup by network address gave.

use crate::config::Config;
use crate::decimal::Decimal;
use vstd::prelude::*;

verus! {

/// The largest latitude, in millionths of a degree.
pub const MAX_LAT_MICROS: i64 = 90_000_000;

/// The largest longitude, in millionths of a degree.
pub const MAX_LON_MICROS: i64 = 180_000_000;

/// A place on earth, in degrees north and east.
#[derive(Clone, Copy, Debug, PartialEq, Eq, Structural)]
pub struct GeoLocation {
    pub lat: Decimal,
    pub lon: Decimal,
}

impl GeoLocation {
    /// Whether the place is on the globe: at most 90 degrees north or south
    /// and at most 180 degrees east or west.
    pub open spec fn in_range(self) -> bool {
        &&& -90_000_000 <= self.lat.micros <= 90_000_000
        &&& -180_000_000 <= self.lon.micros <= 180_000_000
    }

    /// Tells whether the place is on the globe.
    pub fn is_in_range(&self) -> (ok: bool)
        ensures
            ok == self.in_range(),
    {
        -MAX_LAT_MICROS <= self.lat.micros && self.lat.micros <= MAX_LAT_MICROS && -MAX_LON_MICROS
            <= self.lon.micros && self.lon.micros <= MAX_LON_MICROS
    }
}

/// The place to ask the weather for. It is the looked-up place where lookup
/// is switched on and gave a place on the globe, and the fixed place in
/// every other case: a lookup that failed is `None`.
pub open spec fn resolved(config: Config, lookup: Option<GeoLocation>) -> GeoLocation {
    if config.use_ip_location && lookup is Some && lookup.unwrap().in_range() {
        lookup.unwrap()
    } else {
        config.weather_location
    }
}

/// Picks the place to ask the weather for, given what the lookup by network
/// address answered, if it was asked at all. A failed lookup is no error:
/// the fixed place takes over.
pub fn resolve(config: &Config, lookup: Option<GeoLocation>) -> (place: GeoLocation)
    ensures
        place == resolved(*config, lookup),
        !config.use_ip_location ==> place == config.weather_location,
        lookup is None ==> place == config.weather_location,
        config.wf() ==> place.in_range(),
{
    if !config.use_ip_location {
        return config.weather_location;
    }
    match lookup {
        Some(found) => {
            if found.is_in_range() {
                found
            } else {
                config.weather_location
            }
        },
        None => config.weather_location,
    }
}

} // verus!
