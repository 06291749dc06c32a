use vstd::prelude::*;

verus! {

/// What a key holds in a section of a configuration text written in the
/// conventional `[section]` / `key=value` layout, as rust-ini reads it.
/// The outcome is a function of the three arguments alone.
pub uninterp spec fn ini_value(text: Seq<char>, section: Seq<char>, key: Seq<char>) -> Option<
    Seq<char>,
>;

/// Relies on rust-ini: `Ini::load_from_str` parses the text, and
/// `Ini::section` with `Properties::get` looks the key up in the named
/// section. Unparseable text, a missing section and a missing key all
/// give `None`.
#[verifier::external_body]
fn ini_get(text: &str, section: &str, key: &str) -> (r: Option<String>)
    ensures
        (r matches Some(v) ==> ini_value(text@, section@, key@) == Some(v@)),
        (r is None ==> ini_value(text@, section@, key@) is None),
{
    match ini::Ini::load_from_str(text) {
        Ok(doc) => doc.section(Some(section)).and_then(|p| p.get(key)).map(|v| v.to_string()),
        Err(_) => None,
    }
}

/// A missing required configuration field; fatal at startup.
#[derive(Clone, Copy, PartialEq, Eq, Structural, Debug)]
pub enum ConfigError {
    MissingToken,
    MissingPrefix,
    MissingWeatherLocation,
    MissingWeatherSystem,
}

/// Credentials and parameters of the weather lookup; present as a whole
/// or not at all.
#[derive(Clone, PartialEq, Debug)]
pub struct WeatherConfig {
    pub api_key: String,
    pub location: String,
    pub units: String,
}

/// The bot's startup configuration: platform token, command prefix, and
/// the optional weather lookup settings. Without the latter the weather
/// command degrades to a configuration-missing response.
#[derive(Clone, PartialEq, Debug)]
pub struct Config {
    pub token: String,
    pub prefix: String,
    pub weather: Option<WeatherConfig>,
}

/// Assembles a configuration from its file text.
///
/// The token and the prefix come from the `discord` section and are
/// required. A weather API key in the `openweather` section makes the
/// location and measurement system required as well; without a key the
/// weather settings are absent and the command is disabled.
pub fn load_config(text: &str) -> (r: Result<Config, ConfigError>)
    ensures
        (r is Ok <==> ini_value(text@, "discord"@, "token"@) is Some && ini_value(
            text@,
            "discord"@,
            "prefix"@,
        ) is Some && (ini_value(text@, "openweather"@, "openweather_token"@) is Some
            ==> ini_value(text@, "openweather"@, "location"@) is Some && ini_value(
            text@,
            "openweather"@,
            "measurement_system"@,
        ) is Some)),
        (r matches Ok(c) ==> {
            &&& Some(c.token@) == ini_value(text@, "discord"@, "token"@)
            &&& Some(c.prefix@) == ini_value(text@, "discord"@, "prefix"@)
            &&& (c.weather is Some <==> ini_value(
                text@,
                "openweather"@,
                "openweather_token"@,
            ) is Some)
            &&& (c.weather matches Some(w) ==> {
                &&& Some(w.api_key@) == ini_value(text@, "openweather"@, "openweather_token"@)
                &&& Some(w.location@) == ini_value(text@, "openweather"@, "location"@)
                &&& Some(w.units@) == ini_value(text@, "openweather"@, "measurement_system"@)
            })
        }),
        r == Err::<Config, ConfigError>(ConfigError::MissingToken) <==> ini_value(
            text@,
            "discord"@,
            "token"@,
        ) is None,
        r == Err::<Config, ConfigError>(ConfigError::MissingPrefix) <==> ini_value(
            text@,
            "discord"@,
            "token"@,
        ) is Some && ini_value(text@, "discord"@, "prefix"@) is None,
{
    let token = match ini_get(text, "discord", "token") {
        Some(t) => t,
        None => {
            return Err(ConfigError::MissingToken);
        },
    };
    let prefix = match ini_get(text, "discord", "prefix") {
        Some(p) => p,
        None => {
            return Err(ConfigError::MissingPrefix);
        },
    };
    let weather = match ini_get(text, "openweather", "openweather_token") {
        Some(api_key) => {
            let location = match ini_get(text, "openweather", "location") {
                Some(l) => l,
                None => {
                    return Err(ConfigError::MissingWeatherLocation);
                },
            };
            let units = match ini_get(text, "openweather", "measurement_system") {
                Some(u) => u,
                None => {
                    return Err(ConfigError::MissingWeatherSystem);
                },
            };
            Some(WeatherConfig { api_key, location, units })
        },
        None => None,
    };
    Ok(Config { token, prefix, weather })
}

} // verus!
