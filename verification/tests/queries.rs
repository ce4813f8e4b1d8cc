use anyrun_weather::catalog::Catalog;
use anyrun_weather::client::FetchReply;
use anyrun_weather::config::Config;
use anyrun_weather::decimal::Decimal;
use anyrun_weather::location::GeoLocation;
use anyrun_weather::weather::{
    Clouds, Coord, Main, Sys, Weather, WeatherResponse, WeatherUnits, Wind,
};
use anyrun_weather::{details_url, info, init, Action, Phase, State};

fn place(lat: i64, lon: i64) -> GeoLocation {
    GeoLocation { lat: Decimal::from_micros(lat), lon: Decimal::from_micros(lon) }
}

fn settings(prefix: &str, use_ip_location: bool) -> Config {
    Config {
        use_ip_location,
        prefix: String::from(prefix),
        weather_location: place(52_520_000, 13_405_000),
        openweatherapi_key: String::from("key"),
        units: WeatherUnits::Metric,
    }
}

fn report(weather: Vec<Weather>, id: i32) -> FetchReply {
    FetchReply::Body(WeatherResponse {
        _coord: Coord { _lon: Decimal::from_micros(0), _lat: Decimal::from_micros(0) },
        weather,
        _base: String::from("stations"),
        main: Main {
            temp: Decimal::from_micros(21_340_000),
            feels_like: Decimal::from_micros(20_100_000),
            _temp_min: Decimal::from_micros(20_000_000),
            _temp_max: Decimal::from_micros(22_000_000),
            pressure: 1013,
            humidity: 55,
            _sea_level: None,
            _grnd_level: None,
        },
        _visibility: None,
        _wind: Wind { _speed: Decimal::from_micros(0), _deg: 0 },
        _clouds: Clouds { _all: 0 },
        _dt: 0,
        _sys: Sys { _type: None, _id: None, _country: String::from("XX"), _sunrise: 0, _sunset: 0 },
        _timezone: 0,
        id,
        name: String::from("Testville"),
        _cod: 200,
    })
}

fn clear_sky() -> Vec<Weather> {
    vec![Weather {
        _id: 800,
        _main: String::from("Clear"),
        description: String::from("clear sky"),
        _icon: String::from("01d"),
    }]
}

fn english() -> Catalog {
    let mut catalog = Catalog::new();
    catalog.insert(String::from("feels_like"), String::from("Feels like"));
    catalog.insert(String::from("humidity"), String::from("Humidity"));
    catalog.insert(String::from("pressure"), String::from("Pressure"));
    catalog.insert(String::from("data_for"), String::from("Data for"));
    catalog.insert(String::from("error_getting_weather"), String::from("Error getting weather"));
    catalog.insert(String::from("error_openweather_api"), String::from("OpenWeather API did not answer"));
    catalog.insert(String::from("config_not_loaded"), String::from("Config not loaded"));
    catalog.insert(String::from("config_malformed"), String::from("Config file missing or malformed"));
    catalog
}

fn started(config: Option<Config>) -> State {
    State::new(config, Some(String::from("en-GB")))
}

fn shown(action: Action) -> Vec<(String, String, Option<String>)> {
    match action {
        Action::Present(entries) => {
            entries.into_iter().map(|e| (e.title, e.icon, e.description)).collect()
        }
        other => panic!("nothing to show yet: {:?}", other),
    }
}

fn address(action: Action) -> String {
    match action {
        Action::Fetch(url) => url,
        other => panic!("no request: {:?}", other),
    }
}

const FIXED_URL: &str =
    "https://api.openweathermap.org/data/2.5/weather?lat=52.52&lon=13.405&appid=key&units=metric&lang=en-GB";

#[test]
fn text_without_the_trigger_shows_nothing() {
    for text in ["", "weather", "wtt", "Wttr", "x wttr", "   "] {
        let mut state = started(Some(settings("wttr", false)));
        assert!(shown(state.handle_query(text, &english())).is_empty());
        assert_eq!(state.phase(), Phase::Idle);
        assert_eq!(state.city_id(), None);

        let mut state = started(Some(settings("wttr", true)));
        assert!(shown(state.handle_query(text, &english())).is_empty());
        assert_eq!(state.phase(), Phase::Idle);
    }
}

#[test]
fn text_without_the_trigger_shows_nothing_without_settings() {
    for text in ["", "weather", "wtt", "Wttr", "x wttr"] {
        let mut state = started(None);
        assert!(shown(state.handle_query(text, &english())).is_empty());
        assert_eq!(state.phase(), Phase::Idle);
    }
}

#[test]
fn the_trigger_of_the_settings_is_the_one_that_counts() {
    let mut state = started(Some(settings(":w", false)));
    assert_eq!(state.trigger(), ":w");
    assert!(shown(state.handle_query("wttr", &english())).is_empty());
    assert_eq!(address(state.handle_query(":w", &english())), FIXED_URL);
}

#[test]
fn the_trigger_without_settings_shows_the_one_entry_that_says_so() {
    let mut state = started(None);
    assert_eq!(state.trigger(), "wttr");
    let entries = shown(state.handle_query("wttr", &english()));
    assert_eq!(
        entries,
        vec![(
            String::from("Config not loaded"),
            String::from("dialog-error"),
            Some(String::from("Config file missing or malformed")),
        )]
    );
    assert_eq!(state.phase(), Phase::Idle);
    assert_eq!(state.city_id(), None);
    assert!(!state.has_config());
}

#[test]
fn settings_that_cannot_be_used_count_as_none() {
    let mut state = started(Some(settings("", false)));
    assert!(!state.has_config());
    assert_eq!(shown(state.handle_query("wttr", &english())).len(), 1);

    let mut off_globe = settings("wttr", true);
    off_globe.weather_location = place(0, 200_000_000);
    let mut state = started(Some(off_globe));
    assert!(!state.has_config());
    let entries = shown(state.handle_query(" wttr ", &english()));
    assert_eq!(entries.len(), 1);
    assert_eq!(entries[0].1, "dialog-error");
    assert_eq!(entries[0].0, "Config not loaded");
}

#[test]
fn with_lookup_off_the_fixed_place_is_asked_for_at_once() {
    let mut state = started(Some(settings("wttr", false)));
    assert_eq!(address(state.handle_query("wttr", &english())), FIXED_URL);
    assert_eq!(state.phase(), Phase::Fetching);
}

#[test]
fn with_lookup_on_the_place_is_looked_up_first() {
    let mut state = started(Some(settings("wttr", true)));
    assert!(matches!(state.handle_query("wttr oslo", &english()), Action::Locate));
    assert_eq!(state.phase(), Phase::Resolving);
    let url = address(state.handle_location(Some(place(59_913_900, 10_752_200))));
    assert_eq!(
        url,
        "https://api.openweathermap.org/data/2.5/weather?lat=59.9139&lon=10.7522&appid=key&units=metric&lang=en-GB"
    );
    assert_eq!(state.phase(), Phase::Fetching);
}

#[test]
fn a_failed_lookup_asks_for_the_fixed_place() {
    let mut state = started(Some(settings("wttr", true)));
    assert!(matches!(state.handle_query("wttr", &english()), Action::Locate));
    assert_eq!(address(state.handle_location(None)), FIXED_URL);

    let mut state = started(Some(settings("wttr", true)));
    assert!(matches!(state.handle_query("wttr", &english()), Action::Locate));
    assert_eq!(address(state.handle_location(Some(place(95_000_000, 0)))), FIXED_URL);
}

#[test]
fn a_report_is_shown_and_its_place_kept() {
    let mut state = started(Some(settings("wttr", false)));
    assert_eq!(address(state.handle_query("wttr", &english())), FIXED_URL);
    let entries = shown(state.handle_reply(report(clear_sky(), 2950159), &english()));
    assert_eq!(
        entries,
        vec![(
            String::from("21.3°C"),
            String::from("weather"),
            Some(String::from(
                "clear sky\nFeels like: 20.1 °C\nHumidity: 55 %\nPressure: 1013 hPa\n\nData for: Testville"
            )),
        )]
    );
    assert_eq!(state.phase(), Phase::Idle);
    assert_eq!(state.city_id(), Some(2950159));

    let effect = state.handle_selection();
    assert_eq!(effect.open_url, "https://openweathermap.org/city/2950159");
    assert!(effect.open_url.contains("2950159"));
    assert!(effect.close_session);
}

#[test]
fn a_report_after_a_lookup_is_shown_and_its_place_kept() {
    let mut state = started(Some(settings("wttr", true)));
    assert!(matches!(state.handle_query("wttr", &english()), Action::Locate));
    assert!(matches!(state.handle_location(None), Action::Fetch(_)));
    let entries = shown(state.handle_reply(report(clear_sky(), 7), &english()));
    assert_eq!(entries.len(), 1);
    assert_eq!(entries[0].1, "weather");
    assert_eq!(state.city_id(), Some(7));
    assert_eq!(state.handle_selection().open_url, "https://openweathermap.org/city/7");
}

#[test]
fn every_failure_is_shown_as_one_error() {
    let replies = vec![FetchReply::Unreachable, FetchReply::Unreadable, report(Vec::new(), 5)];
    for reply in replies {
        let mut state = started(Some(settings("wttr", false)));
        assert!(matches!(state.handle_query("wttr", &english()), Action::Fetch(_)));
        let entries = shown(state.handle_reply(reply, &english()));
        assert_eq!(
            entries,
            vec![(
                String::from("Error getting weather"),
                String::from("dialog-error"),
                Some(String::from("OpenWeather API did not answer")),
            )]
        );
        assert_eq!(state.phase(), Phase::Idle);
        assert_eq!(state.city_id(), None);
    }
}

#[test]
fn a_failure_keeps_the_place_of_the_report_before_it() {
    let mut state = started(Some(settings("wttr", false)));
    state.handle_query("wttr", &english());
    state.handle_reply(report(clear_sky(), 11), &english());
    assert_eq!(state.city_id(), Some(11));
    state.handle_query("wttr", &english());
    state.handle_reply(FetchReply::Unreachable, &english());
    assert_eq!(state.city_id(), Some(11));
    state.handle_query("wttr", &english());
    state.handle_reply(report(clear_sky(), 12), &english());
    assert_eq!(state.city_id(), Some(12));
}

#[test]
fn the_language_found_is_spoken_and_asked_for() {
    let mut state = State::new(Some(settings("wttr", false)), Some(String::from("de-DE")));
    assert_eq!(state.lang(), "de-DE");
    let url = address(state.handle_query("wttr", &Catalog::new()));
    assert!(url.ends_with("&lang=de-DE"));
}

#[test]
fn american_english_is_spoken_where_no_language_was_found() {
    let state = State::new(None, None);
    assert_eq!(state.lang(), "en-US");
    assert_eq!(state.phase(), Phase::Idle);
    assert_eq!(state.city_id(), None);
}

#[test]
fn startup_keeps_usable_settings_and_no_place() {
    let state = init(Some(settings("wttr", true)));
    assert!(state.has_config());
    assert_eq!(state.phase(), Phase::Idle);
    assert_eq!(state.city_id(), None);
    assert!(!init(None).has_config());
    assert!(!init(Some(settings("", true))).has_config());
}

#[test]
fn the_page_of_a_place_is_found_by_its_number() {
    assert_eq!(details_url(2950159), "https://openweathermap.org/city/2950159");
    assert_eq!(details_url(0), "https://openweathermap.org/city/0");
    assert_eq!(details_url(-3), "https://openweathermap.org/city/-3");
}

#[test]
fn the_component_is_listed_as_weather() {
    let about = info();
    assert_eq!(about.name, "Weather");
    assert_eq!(about.icon, "weather");
}
