use voicebot::config::{load_config, ConfigError};

const FULL: &str = "[discord]\ntoken=SECRET-REDACTED\nprefix=!\n\n[openweather]\nopenweather_token=abc123\nlocation=Berlin\nmeasurement_system=metric\n";

const NO_WEATHER: &str = "[discord]\ntoken=SECRET-REDACTED\nprefix=~\n";

#[test]
fn full_configuration_loads_every_field() {
    let c = load_config(FULL).expect("loads");
    assert_eq!(c.token, "SECRET-REDACTED");
    assert_eq!(c.prefix, "!");
    let w = c.weather.expect("weather configured");
    assert_eq!(w.api_key, "abc123");
    assert_eq!(w.location, "Berlin");
    assert_eq!(w.units, "metric");
}

#[test]
fn weather_is_absent_without_a_key() {
    let c = load_config(NO_WEATHER).expect("loads");
    assert_eq!(c.prefix, "~");
    assert!(c.weather.is_none());
}

#[test]
fn missing_token_is_fatal() {
    let text = "[discord]\nprefix=!\n";
    assert_eq!(load_config(text), Err(ConfigError::MissingToken));
}

#[test]
fn missing_prefix_is_fatal() {
    let text = "[discord]\ntoken=SECRET-REDACTED\n";
    assert_eq!(load_config(text), Err(ConfigError::MissingPrefix));
}

#[test]
fn weather_key_without_location_is_fatal() {
    let text = "[discord]\ntoken=t\nprefix=!\n[openweather]\nopenweather_token=abc\nmeasurement_system=metric\n";
    assert_eq!(load_config(text), Err(ConfigError::MissingWeatherLocation));
}

#[test]
fn weather_key_without_measurement_system_is_fatal() {
    let text = "[discord]\ntoken=t\nprefix=!\n[openweather]\nopenweather_token=abc\nlocation=Berlin\n";
    assert_eq!(load_config(text), Err(ConfigError::MissingWeatherSystem));
}

#[test]
fn empty_text_is_missing_token() {
    assert_eq!(load_config(""), Err(ConfigError::MissingToken));
}
