use voicebot::session::{ConnectionState, PlaybackState, Session, SessionError};
use voicebot::track::Track;

fn connected_session(room: u64) -> Session {
    let mut s = Session::new(room);
    s.connect();
    s
}

fn track(url: &str, title: Option<&str>) -> Track {
    Track::new(url.to_owned(), title.map(|t| t.to_owned()))
}

#[test]
fn new_session_is_disconnected_and_empty() {
    let s = Session::new(7);
    assert_eq!(s.room_id, 7);
    assert_eq!(s.connection_state, ConnectionState::Disconnected);
    assert_eq!(s.playback_state, PlaybackState::Idle);
    assert!(s.queue.is_empty());
    assert!(s.current.is_none());
    assert!(!s.is_muted);
    assert!(!s.is_deafened);
}

#[test]
fn connect_goes_idle_connected() {
    let s = connected_session(1);
    assert_eq!(s.connection_state, ConnectionState::Connected);
    assert_eq!(s.playback_state, PlaybackState::Idle);
}

#[test]
fn enqueue_with_no_current_starts_immediately() {
    let mut s = connected_session(1);
    let started = s.enqueue(track("http://a", Some("A")));
    assert!(started);
    assert_eq!(s.playback_state, PlaybackState::Playing);
    assert_eq!(s.current.as_ref().unwrap().title.as_deref(), Some("A"));
    assert!(s.queue.is_empty());
}

#[test]
fn enqueue_with_current_appends_to_queue() {
    let mut s = connected_session(1);
    assert!(s.enqueue(track("http://a", Some("A"))));
    let started = s.enqueue(track("http://b", Some("B")));
    assert!(!started);
    assert_eq!(s.playback_state, PlaybackState::Playing);
    assert_eq!(s.current.as_ref().unwrap().title.as_deref(), Some("A"));
    assert_eq!(s.queue.len(), 1);
    assert_eq!(s.queue[0].title.as_deref(), Some("B"));
}

#[test]
fn skip_with_empty_queue_goes_idle() {
    let mut s = connected_session(1);
    assert!(s.enqueue(track("http://a", Some("A"))));
    assert!(s.skip().is_ok());
    assert_eq!(s.playback_state, PlaybackState::Idle);
    assert!(s.current.is_none());
}

#[test]
fn skip_promotes_queue_head_in_order() {
    let mut s = connected_session(1);
    s.enqueue(track("http://a", Some("A")));
    s.enqueue(track("http://b", Some("B")));
    s.enqueue(track("http://c", Some("C")));
    assert!(s.skip().is_ok());
    assert_eq!(s.current.as_ref().unwrap().title.as_deref(), Some("B"));
    assert_eq!(s.playback_state, PlaybackState::Playing);
    assert_eq!(s.queue.len(), 1);
    assert_eq!(s.queue[0].title.as_deref(), Some("C"));
    assert!(s.skip().is_ok());
    assert_eq!(s.current.as_ref().unwrap().title.as_deref(), Some("C"));
    assert!(s.queue.is_empty());
}

#[test]
fn skip_without_playback_errors() {
    let mut s = connected_session(1);
    assert_eq!(s.skip(), Err(SessionError::NotPlaying));
}

#[test]
fn pause_and_resume_follow_state() {
    let mut s = connected_session(1);
    assert_eq!(s.pause(), Err(SessionError::NotPlaying));
    s.enqueue(track("http://a", None));
    assert!(s.pause().is_ok());
    assert_eq!(s.playback_state, PlaybackState::Paused);
    assert_eq!(s.pause(), Err(SessionError::NotPlaying));
    assert!(s.resume().is_ok());
    assert_eq!(s.playback_state, PlaybackState::Playing);
    assert_eq!(s.resume(), Err(SessionError::NotPaused));
}

#[test]
fn stop_clears_queue_and_current_but_keeps_connection() {
    let mut s = connected_session(1);
    s.enqueue(track("http://a", Some("A")));
    s.enqueue(track("http://b", Some("B")));
    assert!(s.stop().is_ok());
    assert_eq!(s.playback_state, PlaybackState::Stopped);
    assert!(s.queue.is_empty());
    assert!(s.current.is_none());
    assert_eq!(s.connection_state, ConnectionState::Connected);
}

#[test]
fn stop_while_disconnected_errors() {
    let mut s = Session::new(1);
    assert_eq!(s.stop(), Err(SessionError::NotConnected));
}

#[test]
fn set_mute_twice_reports_already_in_state() {
    let mut s = connected_session(1);
    assert!(s.set_mute(true).is_ok());
    assert!(s.is_muted);
    assert_eq!(s.set_mute(true), Err(SessionError::AlreadyInState));
    assert!(s.is_muted);
    assert!(s.set_mute(false).is_ok());
    assert_eq!(s.set_mute(false), Err(SessionError::AlreadyInState));
}

#[test]
fn set_deafen_is_idempotent_like_mute() {
    let mut s = connected_session(1);
    assert!(s.set_deafen(true).is_ok());
    assert!(s.is_deafened);
    assert_eq!(s.set_deafen(true), Err(SessionError::AlreadyInState));
}

#[test]
fn volume_clamps_high_and_low() {
    let mut s = connected_session(1);
    s.enqueue(track("http://a", Some("A")));
    assert!(s.set_current_volume(150).is_ok());
    assert_eq!(s.current.as_ref().unwrap().volume, 100);
    assert!(s.set_current_volume(-5).is_ok());
    assert_eq!(s.current.as_ref().unwrap().volume, 0);
    assert!(s.set_current_volume(42).is_ok());
    assert_eq!(s.current.as_ref().unwrap().volume, 42);
}

#[test]
fn volume_without_current_track_errors() {
    let mut s = connected_session(1);
    assert_eq!(s.set_current_volume(50), Err(SessionError::NoCurrentTrack));
}

#[test]
fn list_queue_positions_are_one_based_in_order() {
    let mut s = connected_session(1);
    s.enqueue(track("http://a", Some("A")));
    s.enqueue(track("http://b", Some("B")));
    s.enqueue(track("http://c", None));
    let listing = s.list_queue();
    assert_eq!(listing.len(), 2);
    assert_eq!(listing[0].0, 1);
    assert_eq!(listing[0].1, "B");
    assert_eq!(listing[1].0, 2);
    assert_eq!(listing[1].1, "Unable to get title");
}

#[test]
fn disconnect_drops_queue_and_current() {
    let mut s = connected_session(1);
    s.enqueue(track("http://a", Some("A")));
    s.enqueue(track("http://b", Some("B")));
    s.disconnect();
    assert_eq!(s.connection_state, ConnectionState::Disconnected);
    assert_eq!(s.playback_state, PlaybackState::Idle);
    assert!(s.queue.is_empty());
    assert!(s.current.is_none());
}
