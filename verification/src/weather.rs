//! Measurement systems and the shape of a decoded weather report.

use crate::decimal::Decimal;
use vstd::prelude::*;
use vstd::string::*;

verus! {

/// The measurement system that temperatures are asked for and shown in.
#[derive(Clone, Copy, Debug, PartialEq, Eq, Structural)]
pub enum WeatherUnits {
    Standard,
    Metric,
    Imperial,
}

impl Default for WeatherUnits {
    fn default() -> (units: Self)
        ensures
            units == WeatherUnits::Metric,
    {
        WeatherUnits::Metric
    }
}

impl WeatherUnits {
    /// The value of the `units` parameter that the weather service expects.
    pub open spec fn query_param(self) -> Seq<char> {
        match self {
            WeatherUnits::Standard => "standard"@,
            WeatherUnits::Metric => "metric"@,
            WeatherUnits::Imperial => "imperial"@,
        }
    }

    /// The symbol that follows a temperature on screen.
    pub open spec fn suffix(self) -> Seq<char> {
        match self {
            WeatherUnits::Standard => "K"@,
            WeatherUnits::Metric => "\u{b0}C"@,
            WeatherUnits::Imperial => "\u{b0}F"@,
        }
    }

    /// Renders the system as the weather service names it.
    pub fn to_string(&self) -> (text: String)
        ensures
            text@ == self.query_param(),
    {
        match self {
            WeatherUnits::Standard => String::from_str("standard"),
            WeatherUnits::Metric => String::from_str("metric"),
            WeatherUnits::Imperial => String::from_str("imperial"),
        }
    }

    /// Renders the symbol of the system's temperature scale.
    pub fn unit_suffix(&self) -> (text: String)
        ensures
            text@ == self.suffix(),
    {
        match self {
            WeatherUnits::Standard => String::from_str("K"),
            WeatherUnits::Metric => String::from_str("\u{b0}C"),
            WeatherUnits::Imperial => String::from_str("\u{b0}F"),
        }
    }
}

/// Two measurement systems are named alike by the weather service only if
/// they are the same system, and each name is one of the three the service
/// knows.
pub proof fn lemma_query_param_distinct(a: WeatherUnits, b: WeatherUnits)
    ensures
        a.query_param() == b.query_param() <==> a == b,
        a.query_param() == seq!['s', 't', 'a', 'n', 'd', 'a', 'r', 'd']
            || a.query_param() == seq!['m', 'e', 't', 'r', 'i', 'c']
            || a.query_param() == seq!['i', 'm', 'p', 'e', 'r', 'i', 'a', 'l'],
{
    reveal_strlit("standard");
    reveal_strlit("metric");
    reveal_strlit("imperial");
    assert("standard"@ =~= seq!['s', 't', 'a', 'n', 'd', 'a', 'r', 'd']);
    assert("metric"@ =~= seq!['m', 'e', 't', 'r', 'i', 'c']);
    assert("imperial"@ =~= seq!['i', 'm', 'p', 'e', 'r', 'i', 'a', 'l']);
}

/// Two measurement systems show the same temperature symbol only if they are
/// the same system.
pub proof fn lemma_suffix_distinct(a: WeatherUnits, b: WeatherUnits)
    ensures
        a.suffix() == b.suffix() <==> a == b,
        a.suffix() == seq!['K'] || a.suffix() == seq!['\u{b0}', 'C'] || a.suffix() == seq![
            '\u{b0}',
            'F',
        ],
{
    reveal_strlit("K");
    reveal_strlit("\u{b0}C");
    reveal_strlit("\u{b0}F");
    assert("K"@ =~= seq!['K']);
    assert("\u{b0}C"@ =~= seq!['\u{b0}', 'C']);
    assert("\u{b0}F"@ =~= seq!['\u{b0}', 'F']);
}

/// A weather report as the service sent it and a decoder read it. Only the
/// conditions, the main block, the place's number and its name are shown;
/// the rest is carried along.
#[derive(Debug)]
pub struct WeatherResponse {
    pub _coord: Coord,
    /// The conditions, the most relevant first. The service promises at
    /// least one; a report is held to that before any of it is shown.
    pub weather: Vec<Weather>,
    pub _base: String,
    pub main: Main,
    pub _visibility: Option<u32>,
    pub _wind: Wind,
    pub _clouds: Clouds,
    pub _dt: i64,
    pub _sys: Sys,
    pub _timezone: i32,
    /// The number under which the service knows the place.
    pub id: i32,
    /// The name of the place.
    pub name: String,
    pub _cod: i32,
}

/// Where the report was measured, in degrees.
#[derive(Debug)]
pub struct Coord {
    pub _lon: Decimal,
    pub _lat: Decimal,
}

/// One weather condition.
#[derive(Debug)]
pub struct Weather {
    pub _id: i32,
    pub _main: String,
    /// The condition in words, in the language asked for.
    pub description: String,
    pub _icon: String,
}

/// The measurements of a report. Temperatures are in the scale of the
/// measurement system asked for.
#[derive(Debug)]
pub struct Main {
    pub temp: Decimal,
    pub feels_like: Decimal,
    pub _temp_min: Decimal,
    pub _temp_max: Decimal,
    /// Air pressure in hectopascal.
    pub pressure: i32,
    /// Relative humidity in percent.
    pub humidity: i32,
    pub _sea_level: Option<i32>,
    pub _grnd_level: Option<i32>,
}

/// Wind speed and direction.
#[derive(Debug)]
pub struct Wind {
    pub _speed: Decimal,
    pub _deg: i32,
}

/// Cloud cover in percent.
#[derive(Debug)]
pub struct Clouds {
    pub _all: i32,
}

/// What the service adds about the place: country, sunrise and sunset.
#[derive(Debug)]
pub struct Sys {
    pub _type: Option<i32>,
    pub _id: Option<i32>,
    pub _country: String,
    pub _sunrise: i64,
    pub _sunset: i64,
}

} // verus!
