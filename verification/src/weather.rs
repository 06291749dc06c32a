use vstd::prelude::*;

verus! {

/// The lowercase form of a string, per the Unicode tables: a function
/// of the characters alone.
pub uninterp spec fn lower_of(s: Seq<char>) -> Seq<char>;

/// Relies on str::to_lowercase: the result depends on the characters
/// alone, and an empty string stays empty.
#[verifier::external_body]
fn lowercase(s: &str) -> (r: String)
    ensures
        r@ == lower_of(s@),
        s@.len() == 0 ==> r@.len() == 0,
{
    s.to_lowercase()
}

/// One weather observation as the report shows it. The numeric fields
/// arrive already written out by the caller, since the lookup hands
/// them over in a form the report only ever displays.
#[derive(Clone, Debug)]
pub struct WeatherReport {
    /// Name of the place observed.
    pub place: String,
    /// Head condition, e.g. `Clouds`; shown lowercased.
    pub condition: String,
    /// Temperature in degrees, written out.
    pub temperature: String,
    /// Felt temperature in degrees, written out.
    pub feels_like: String,
    /// Relative humidity in percent, written out.
    pub humidity: String,
    /// Wind speed in meters per second, written out.
    pub wind_speed: String,
    /// Longer condition description, shown as given.
    pub description: String,
}

/// The title line of the weather report for `place`.
pub open spec fn spec_weather_title(place: Seq<char>) -> Seq<char> {
    "Today's weather in **"@ + place + "**"@
}

/// The body of the weather report: condition lowercased, then the
/// written-out numbers and the description, one labelled line each.
pub open spec fn spec_weather_body(r: WeatherReport) -> Seq<char> {
    "Weather: **"@ + lower_of(r.condition@) + "**\nTemperature: **"@ + r.temperature@
        + "°C**\nFeels like: **"@ + r.feels_like@ + "°C**\nHumidity: **"@ + r.humidity@
        + "%**\nWind: **"@ + r.wind_speed@ + "m/s**\nDescription: **"@ + r.description@ + "**"@
}

/// Writes the report's title line.
pub fn weather_title(report: &WeatherReport) -> (r: String)
    ensures
        r@ == spec_weather_title(report.place@),
{
    let mut s = String::new();
    s.append("Today's weather in **");
    s.append(report.place.as_str());
    s.append("**");
    proof {
        assert(s@ =~= spec_weather_title(report.place@));
    }
    s
}

/// Writes the report's body, exactly as `spec_weather_body` states it.
pub fn format_weather_report(report: &WeatherReport) -> (r: String)
    ensures
        r@ == spec_weather_body(*report),
{
    let low = lowercase(report.condition.as_str());
    let mut s = String::new();
    s.append("Weather: **");
    s.append(low.as_str());
    s.append("**\nTemperature: **");
    s.append(report.temperature.as_str());
    s.append("°C**\nFeels like: **");
    s.append(report.feels_like.as_str());
    s.append("°C**\nHumidity: **");
    s.append(report.humidity.as_str());
    s.append("%**\nWind: **");
    s.append(report.wind_speed.as_str());
    s.append("m/s**\nDescription: **");
    s.append(report.description.as_str());
    s.append("**");
    proof {
        assert(s@ =~= spec_weather_body(*report));
    }
    s
}

} // verus!
