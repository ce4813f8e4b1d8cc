use anyrun_weather::weather::WeatherUnits;

#[test]
fn query_parameters_are_the_three_the_service_knows() {
    assert_eq!(WeatherUnits::Standard.to_string(), "standard");
    assert_eq!(WeatherUnits::Metric.to_string(), "metric");
    assert_eq!(WeatherUnits::Imperial.to_string(), "imperial");
}

#[test]
fn suffixes_are_the_three_scales() {
    assert_eq!(WeatherUnits::Standard.unit_suffix(), "K");
    assert_eq!(WeatherUnits::Metric.unit_suffix(), "°C");
    assert_eq!(WeatherUnits::Imperial.unit_suffix(), "°F");
}

#[test]
fn query_parameters_and_suffixes_differ_between_systems() {
    let all = [WeatherUnits::Standard, WeatherUnits::Metric, WeatherUnits::Imperial];
    for (i, a) in all.iter().enumerate() {
        for (j, b) in all.iter().enumerate() {
            assert_eq!(a.to_string() == b.to_string(), i == j);
            assert_eq!(a.unit_suffix() == b.unit_suffix(), i == j);
        }
    }
}

#[test]
fn query_parameters_are_the_same_on_every_call() {
    assert_eq!(WeatherUnits::Metric.to_string(), WeatherUnits::Metric.to_string());
    assert_eq!(WeatherUnits::Imperial.unit_suffix(), WeatherUnits::Imperial.unit_suffix());
}

#[test]
fn metric_is_the_default() {
    assert_eq!(WeatherUnits::default(), WeatherUnits::Metric);
}
