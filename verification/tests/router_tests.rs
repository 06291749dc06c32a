use voicebot::config::{Config, WeatherConfig};
use voicebot::registry::Registry;
use voicebot::router::{
    handle_connect_result, handle_message, handle_resolved, Action, MessageEvent, Reply,
};
use voicebot::session::PlaybackState;
use voicebot::track::Track;

fn config() -> Config {
    Config { token: "tok".to_owned(), prefix: "!".to_owned(), weather: None }
}

fn config_with_weather() -> Config {
    Config {
        token: "tok".to_owned(),
        prefix: "!".to_owned(),
        weather: Some(WeatherConfig {
            api_key: "key".to_owned(),
            location: "Berlin".to_owned(),
            units: "metric".to_owned(),
        }),
    }
}

fn event(room: Option<u64>, voice: Option<u64>, text: &str) -> MessageEvent {
    MessageEvent { room_id: room, author_voice_channel: voice, text: text.to_owned() }
}

fn joined_registry(room: u64) -> Registry {
    let mut reg = Registry::new();
    let o = handle_connect_result(&mut reg, room, true);
    assert!(o.reply.is_none() && o.action.is_none());
    reg
}

#[test]
fn text_without_prefix_is_ignored() {
    let mut reg = Registry::new();
    let o = handle_message(&mut reg, &config(), &event(Some(1), None, "hello there"));
    assert!(o.reply.is_none());
    assert!(o.action.is_none());
}

#[test]
fn unknown_command_is_ignored() {
    let mut reg = Registry::new();
    let o = handle_message(&mut reg, &config(), &event(Some(1), None, "!dance"));
    assert!(o.reply.is_none());
    assert!(o.action.is_none());
}

#[test]
fn ping_works_without_a_room() {
    let mut reg = Registry::new();
    let o = handle_message(&mut reg, &config(), &event(None, None, "!ping"));
    assert!(matches!(o.reply, Some(Reply::Pong)));
    assert!(o.action.is_none());
}

#[test]
fn room_commands_are_rejected_outside_rooms() {
    let mut reg = Registry::new();
    let o = handle_message(&mut reg, &config(), &event(None, None, "!pause"));
    assert!(matches!(o.reply, Some(Reply::RoomsOnly)));
    assert!(o.action.is_none());
}

#[test]
fn pause_without_session_leaves_registry_alone() {
    let mut reg = Registry::new();
    let o = handle_message(&mut reg, &config(), &event(Some(9), None, "!pause"));
    assert!(matches!(o.reply, Some(Reply::NotInVoice)));
    assert!(o.action.is_none());
    assert!(reg.get_or_none(9).is_none());
}

#[test]
fn join_outside_voice_channel_creates_nothing() {
    let mut reg = Registry::new();
    let o = handle_message(&mut reg, &config(), &event(Some(9), None, "!join"));
    assert!(matches!(o.reply, Some(Reply::NotInVoice)));
    assert!(o.action.is_none());
    assert!(reg.get_or_none(9).is_none());
}

#[test]
fn join_in_voice_channel_asks_for_connection() {
    let mut reg = Registry::new();
    let o = handle_message(&mut reg, &config(), &event(Some(9), Some(44), "!join"));
    assert!(o.reply.is_none());
    match o.action {
        Some(Action::Connect { room, channel }) => {
            assert_eq!(room, 9);
            assert_eq!(channel, 44);
        }
        other => panic!("unexpected action: {:?}", other),
    }
    assert!(reg.get_or_none(9).is_none());
}

#[test]
fn connect_result_creates_connected_session() {
    let mut reg = Registry::new();
    let o = handle_connect_result(&mut reg, 9, true);
    assert!(o.reply.is_none() && o.action.is_none());
    let s = reg.get_or_none(9).expect("session created");
    assert_eq!(s.room_id, 9);
}

#[test]
fn failed_connect_creates_nothing() {
    let mut reg = Registry::new();
    let o = handle_connect_result(&mut reg, 9, false);
    assert!(matches!(o.reply, Some(Reply::JoinFailed)));
    assert!(reg.get_or_none(9).is_none());
}

#[test]
fn play_without_scheme_is_a_usage_error_and_resolves_nothing() {
    let mut reg = joined_registry(9);
    let o = handle_message(&mut reg, &config(), &event(Some(9), None, "!play nothello"));
    assert!(matches!(o.reply, Some(Reply::InvalidUrl)));
    assert!(o.action.is_none());
}

#[test]
fn play_without_argument_is_a_usage_error() {
    let mut reg = joined_registry(9);
    let o = handle_message(&mut reg, &config(), &event(Some(9), None, "!play"));
    assert!(matches!(o.reply, Some(Reply::UsagePlay)));
    assert!(o.action.is_none());
}

#[test]
fn play_without_session_is_rejected() {
    let mut reg = Registry::new();
    let o = handle_message(&mut reg, &config(), &event(Some(9), None, "!play http://x"));
    assert!(matches!(o.reply, Some(Reply::NotInVoiceToPlay)));
    assert!(o.action.is_none());
}

#[test]
fn play_with_url_and_session_resolves_it() {
    let mut reg = joined_registry(9);
    let o = handle_message(&mut reg, &config(), &event(Some(9), None, "!play http://x/y"));
    assert!(o.reply.is_none());
    match o.action {
        Some(Action::ResolveSource { room, url }) => {
            assert_eq!(room, 9);
            assert_eq!(url, "http://x/y");
        }
        other => panic!("unexpected action: {:?}", other),
    }
}

#[test]
fn resolved_track_starts_immediately_when_idle() {
    let mut reg = joined_registry(9);
    let t = Track::new("http://x".to_owned(), Some("First".to_owned()));
    let o = handle_resolved(&mut reg, 9, Ok(t));
    match o.reply {
        Some(Reply::Playing(title)) => assert_eq!(title, "First"),
        other => panic!("unexpected reply: {:?}", other),
    }
    assert!(matches!(o.action, Some(Action::EnqueueSource { room: 9 })));
    let s = reg.get_or_none(9).unwrap();
    assert_eq!(s.playback_state, PlaybackState::Playing);
}

#[test]
fn resolved_track_queues_behind_current() {
    let mut reg = joined_registry(9);
    let first = Track::new("http://x".to_owned(), Some("First".to_owned()));
    handle_resolved(&mut reg, 9, Ok(first));
    let second = Track::new("http://y".to_owned(), Some("Second".to_owned()));
    let o = handle_resolved(&mut reg, 9, Ok(second));
    match o.reply {
        Some(Reply::QueuedBehind(title)) => assert_eq!(title, "First"),
        other => panic!("unexpected reply: {:?}", other),
    }
    let s = reg.get_or_none(9).unwrap();
    assert_eq!(s.queue.len(), 1);
    assert_eq!(s.queue[0].title.as_deref(), Some("Second"));
}

#[test]
fn failed_resolution_is_reported_and_changes_nothing() {
    let mut reg = joined_registry(9);
    let o = handle_resolved(&mut reg, 9, Err("boom".to_owned()));
    match o.reply {
        Some(Reply::ResolveFailed(e)) => assert_eq!(e, "boom"),
        other => panic!("unexpected reply: {:?}", other),
    }
    assert!(o.action.is_none());
    assert!(reg.get_or_none(9).unwrap().current.is_none());
}

#[test]
fn list_reflects_enqueue_order_with_one_based_positions() {
    let mut reg = joined_registry(9);
    for (url, title) in [("http://a", "A"), ("http://b", "B"), ("http://c", "C")] {
        let t = Track::new(url.to_owned(), Some(title.to_owned()));
        handle_resolved(&mut reg, 9, Ok(t));
    }
    let o = handle_message(&mut reg, &config(), &event(Some(9), None, "!list"));
    match o.reply {
        Some(Reply::QueueListing(items)) => {
            assert_eq!(items.len(), 2);
            assert_eq!(items[0], (1, "B".to_owned()));
            assert_eq!(items[1], (2, "C".to_owned()));
        }
        other => panic!("unexpected reply: {:?}", other),
    }
}

#[test]
fn list_reports_empty_queue_distinctly() {
    let mut reg = joined_registry(9);
    let o = handle_message(&mut reg, &config(), &event(Some(9), None, "!list"));
    assert!(matches!(o.reply, Some(Reply::EmptyQueue)));
}

#[test]
fn volume_150_clamps_to_full() {
    let mut reg = joined_registry(9);
    let t = Track::new("http://x".to_owned(), Some("A".to_owned()));
    handle_resolved(&mut reg, 9, Ok(t));
    let o = handle_message(&mut reg, &config(), &event(Some(9), None, "!volume 150"));
    assert!(o.reply.is_none());
    match o.action {
        Some(Action::SetVolume { room, percent }) => {
            assert_eq!(room, 9);
            assert_eq!(percent, 100);
        }
        other => panic!("unexpected action: {:?}", other),
    }
    assert_eq!(reg.get_or_none(9).unwrap().current.as_ref().unwrap().volume, 100);
}

#[test]
fn volume_negative_is_a_usage_error_without_mutation() {
    let mut reg = joined_registry(9);
    let t = Track::new("http://x".to_owned(), Some("A".to_owned()));
    handle_resolved(&mut reg, 9, Ok(t));
    let o = handle_message(&mut reg, &config(), &event(Some(9), None, "!volume -5"));
    assert!(matches!(o.reply, Some(Reply::UsageVolume)));
    assert!(o.action.is_none());
    assert_eq!(reg.get_or_none(9).unwrap().current.as_ref().unwrap().volume, 100);
}

#[test]
fn volume_non_numeric_is_a_usage_error_without_mutation() {
    let mut reg = joined_registry(9);
    let t = Track::new("http://x".to_owned(), Some("A".to_owned()));
    handle_resolved(&mut reg, 9, Ok(t));
    let o = handle_message(&mut reg, &config(), &event(Some(9), None, "!volume abc"));
    assert!(matches!(o.reply, Some(Reply::UsageVolume)));
    assert!(o.action.is_none());
    assert_eq!(reg.get_or_none(9).unwrap().current.as_ref().unwrap().volume, 100);
}

#[test]
fn mute_twice_issues_only_one_provider_call() {
    let mut reg = joined_registry(9);
    let o1 = handle_message(&mut reg, &config(), &event(Some(9), None, "!mute"));
    assert!(matches!(o1.reply, Some(Reply::NowMuted)));
    assert!(matches!(o1.action, Some(Action::SetMute { room: 9, on: true })));
    let o2 = handle_message(&mut reg, &config(), &event(Some(9), None, "!mute"));
    assert!(matches!(o2.reply, Some(Reply::AlreadyMuted)));
    assert!(o2.action.is_none());
}

#[test]
fn deafen_undeafen_round_trip() {
    let mut reg = joined_registry(9);
    let o1 = handle_message(&mut reg, &config(), &event(Some(9), None, "!deafen"));
    assert!(matches!(o1.reply, Some(Reply::Deafened)));
    let o2 = handle_message(&mut reg, &config(), &event(Some(9), None, "!deafen"));
    assert!(matches!(o2.reply, Some(Reply::AlreadyDeafened)));
    assert!(o2.action.is_none());
    let o3 = handle_message(&mut reg, &config(), &event(Some(9), None, "!undeafen"));
    assert!(matches!(o3.reply, Some(Reply::Undeafened)));
    assert!(matches!(o3.action, Some(Action::SetDeafen { room: 9, on: false })));
}

#[test]
fn leave_evicts_the_session() {
    let mut reg = joined_registry(9);
    let o = handle_message(&mut reg, &config(), &event(Some(9), None, "!leave"));
    assert!(matches!(o.reply, Some(Reply::LeftVoice)));
    assert!(matches!(o.action, Some(Action::Disconnect { room: 9 })));
    assert!(reg.get_or_none(9).is_none());
    let o2 = handle_message(&mut reg, &config(), &event(Some(9), None, "!leave"));
    assert!(matches!(o2.reply, Some(Reply::NotInVoice)));
    assert!(o2.action.is_none());
}

#[test]
fn stop_stops_and_clears_but_keeps_session() {
    let mut reg = joined_registry(9);
    let t = Track::new("http://x".to_owned(), Some("A".to_owned()));
    handle_resolved(&mut reg, 9, Ok(t));
    let o = handle_message(&mut reg, &config(), &event(Some(9), None, "!stop"));
    assert!(matches!(o.reply, Some(Reply::Stopped)));
    assert!(matches!(o.action, Some(Action::Stop { room: 9 })));
    let s = reg.get_or_none(9).unwrap();
    assert_eq!(s.playback_state, PlaybackState::Stopped);
    assert!(s.current.is_none());
}

#[test]
fn pause_and_resume_travel_through_the_router() {
    let mut reg = joined_registry(9);
    let t = Track::new("http://x".to_owned(), Some("A".to_owned()));
    handle_resolved(&mut reg, 9, Ok(t));
    let o1 = handle_message(&mut reg, &config(), &event(Some(9), None, "!pause"));
    assert!(o1.reply.is_none());
    assert!(matches!(o1.action, Some(Action::Pause { room: 9 })));
    let o2 = handle_message(&mut reg, &config(), &event(Some(9), None, "!pause"));
    assert!(matches!(o2.reply, Some(Reply::PauseFailed)));
    assert!(o2.action.is_none());
    let o3 = handle_message(&mut reg, &config(), &event(Some(9), None, "!resume"));
    assert!(o3.reply.is_none());
    assert!(matches!(o3.action, Some(Action::Resume { room: 9 })));
}

#[test]
fn skip_through_router_promotes_fifo() {
    let mut reg = joined_registry(9);
    for (url, title) in [("http://a", "A"), ("http://b", "B")] {
        let t = Track::new(url.to_owned(), Some(title.to_owned()));
        handle_resolved(&mut reg, 9, Ok(t));
    }
    let o = handle_message(&mut reg, &config(), &event(Some(9), None, "!skip"));
    assert!(matches!(o.action, Some(Action::Skip { room: 9 })));
    let s = reg.get_or_none(9).unwrap();
    assert_eq!(s.current.as_ref().unwrap().title.as_deref(), Some("B"));
    assert!(s.queue.is_empty());
}

#[test]
fn commands_on_distinct_rooms_are_independent() {
    let mut reg = joined_registry(1);
    handle_connect_result(&mut reg, 2, true);
    let t = Track::new("http://x".to_owned(), Some("A".to_owned()));
    handle_resolved(&mut reg, 1, Ok(t));
    handle_message(&mut reg, &config(), &event(Some(2), None, "!mute"));
    let s1 = reg.get_or_none(1).unwrap();
    assert!(!s1.is_muted);
    assert_eq!(s1.current.as_ref().unwrap().title.as_deref(), Some("A"));
    let s2 = reg.get_or_none(2).unwrap();
    assert!(s2.is_muted);
    assert!(s2.current.is_none());
}

#[test]
fn weather_without_key_reports_missing_configuration() {
    let mut reg = Registry::new();
    let o = handle_message(&mut reg, &config(), &event(Some(9), None, "!weather"));
    assert!(matches!(o.reply, Some(Reply::WeatherKeyMissing)));
    assert!(o.action.is_none());
}

#[test]
fn weather_with_key_fetches_the_report() {
    let mut reg = Registry::new();
    let o = handle_message(&mut reg, &config_with_weather(), &event(Some(9), None, "!weather"));
    assert!(o.reply.is_none());
    match o.action {
        Some(Action::FetchWeather { location, units, api_key }) => {
            assert_eq!(location, "Berlin");
            assert_eq!(units, "metric");
            assert_eq!(api_key, "key");
        }
        other => panic!("unexpected action: {:?}", other),
    }
}
