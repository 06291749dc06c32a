use voicebot::render::render_reply;
use voicebot::router::Reply;
use voicebot::weather::{format_weather_report, weather_title, WeatherReport};

#[test]
fn fixed_replies_render_their_exact_text() {
    assert_eq!(render_reply(&Reply::Pong), "Pong!");
    assert_eq!(render_reply(&Reply::NotInVoice), "Not in a voice channel");
    assert_eq!(render_reply(&Reply::LeftVoice), "Left voice channel");
    assert_eq!(render_reply(&Reply::Stopped), "Stopped");
    assert_eq!(render_reply(&Reply::UsagePlay), "Must provide a URL to a video or audio");
    assert_eq!(render_reply(&Reply::InvalidUrl), "Must provide a valid URL");
    assert_eq!(render_reply(&Reply::UsageVolume), "Numeric value from 1 to 100 is needed");
    assert_eq!(render_reply(&Reply::EmptyQueue), "Current song list is empty :(");
    assert_eq!(render_reply(&Reply::NowMuted), "Now muted");
    assert_eq!(render_reply(&Reply::AlreadyMuted), "Already muted");
    assert_eq!(
        render_reply(&Reply::WeatherKeyMissing),
        "You did not specify openweather api key in configuration file"
    );
}

#[test]
fn playing_and_queued_replies_embed_the_title() {
    assert_eq!(render_reply(&Reply::Playing("Song A".to_owned())), "Playing: **Song A**");
    assert_eq!(
        render_reply(&Reply::QueuedBehind("Song A".to_owned())),
        "Song placed in queue and will be played after **Song A**"
    );
    assert_eq!(
        render_reply(&Reply::ResolveFailed("no codec".to_owned())),
        "Error starting source no codec"
    );
}

#[test]
fn queue_listing_renders_numbered_lines() {
    let listing = Reply::QueueListing(vec![
        (1, "First".to_owned()),
        (2, "Second".to_owned()),
        (3, "Third".to_owned()),
    ]);
    assert_eq!(
        render_reply(&listing),
        "Current song list:\n1. **First**\n2. **Second**\n3. **Third**\n"
    );
}

fn report() -> WeatherReport {
    WeatherReport {
        place: "Berlin".to_owned(),
        condition: "Clouds".to_owned(),
        temperature: "11.4".to_owned(),
        feels_like: "10.1".to_owned(),
        humidity: "82".to_owned(),
        wind_speed: "3.6".to_owned(),
        description: "scattered clouds".to_owned(),
    }
}

#[test]
fn weather_title_names_the_place() {
    assert_eq!(weather_title(&report()), "Today's weather in **Berlin**");
}

#[test]
fn weather_report_lowercases_the_condition() {
    let text = format_weather_report(&report());
    assert_eq!(
        text,
        "Weather: **clouds**\nTemperature: **11.4°C**\nFeels like: **10.1°C**\nHumidity: **82%**\nWind: **3.6m/s**\nDescription: **scattered clouds**"
    );
}
