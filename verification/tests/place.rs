use anyrun_weather::config::Config;
use anyrun_weather::decimal::Decimal;
use anyrun_weather::location::{resolve, GeoLocation};
use anyrun_weather::weather::WeatherUnits;

fn place(lat: i64, lon: i64) -> GeoLocation {
    GeoLocation { lat: Decimal::from_micros(lat), lon: Decimal::from_micros(lon) }
}

fn settings(use_ip_location: bool) -> Config {
    Config {
        use_ip_location,
        prefix: String::from("wttr"),
        weather_location: place(52_520_000, 13_405_000),
        openweatherapi_key: String::from("k"),
        units: WeatherUnits::Metric,
    }
}

#[test]
fn the_fixed_place_is_used_when_lookup_is_off() {
    let fixed = place(52_520_000, 13_405_000);
    assert_eq!(resolve(&settings(false), None), fixed);
    assert_eq!(resolve(&settings(false), Some(place(48_856_600, 2_352_200))), fixed);
    assert_eq!(resolve(&settings(false), Some(place(999_000_000, 0))), fixed);
}

#[test]
fn the_looked_up_place_is_used_when_lookup_is_on() {
    let found = place(48_856_600, 2_352_200);
    assert_eq!(resolve(&settings(true), Some(found)), found);
}

#[test]
fn a_failed_lookup_falls_back_to_the_fixed_place() {
    assert_eq!(resolve(&settings(true), None), place(52_520_000, 13_405_000));
}

#[test]
fn a_looked_up_place_off_the_globe_falls_back_to_the_fixed_place() {
    let fixed = place(52_520_000, 13_405_000);
    assert_eq!(resolve(&settings(true), Some(place(90_000_001, 0))), fixed);
    assert_eq!(resolve(&settings(true), Some(place(0, -180_000_001))), fixed);
}

#[test]
fn the_globe_ends_at_ninety_and_a_hundred_and_eighty_degrees() {
    assert!(place(90_000_000, 180_000_000).is_in_range());
    assert!(place(-90_000_000, -180_000_000).is_in_range());
    assert!(place(0, 0).is_in_range());
    assert!(!place(90_000_001, 0).is_in_range());
    assert!(!place(-90_000_001, 0).is_in_range());
    assert!(!place(0, 180_000_001).is_in_range());
    assert!(!place(0, -180_000_001).is_in_range());
}

#[test]
fn settings_need_a_trigger_and_a_place_on_the_globe() {
    assert!(settings(true).is_valid());
    assert!(settings(false).is_valid());
    let mut no_trigger = settings(false);
    no_trigger.prefix = String::new();
    assert!(!no_trigger.is_valid());
    let mut off_globe = settings(true);
    off_globe.weather_location = place(91_000_000, 0);
    assert!(!off_globe.is_valid());
}
