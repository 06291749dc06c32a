use voicebot::registry::Registry;
use voicebot::session::Session;

#[test]
fn empty_registry_has_no_rooms() {
    let reg = Registry::new();
    assert!(reg.get_or_none(1).is_none());
    assert!(reg.get_or_none(0).is_none());
}

#[test]
fn insert_then_lookup_finds_the_session() {
    let mut reg = Registry::new();
    reg.insert(Session::new(5));
    let s = reg.get_or_none(5).expect("present");
    assert_eq!(s.room_id, 5);
    assert!(reg.get_or_none(6).is_none());
}

#[test]
fn remove_detaches_only_that_room() {
    let mut reg = Registry::new();
    reg.insert(Session::new(1));
    reg.insert(Session::new(2));
    reg.insert(Session::new(3));
    let s = reg.remove(2).expect("present");
    assert_eq!(s.room_id, 2);
    assert!(reg.get_or_none(2).is_none());
    assert_eq!(reg.get_or_none(1).unwrap().room_id, 1);
    assert_eq!(reg.get_or_none(3).unwrap().room_id, 3);
    assert!(reg.remove(2).is_none());
}

#[test]
fn get_or_create_makes_at_most_one_entry() {
    let mut reg = Registry::new();
    reg.get_or_create(4);
    let first = reg.get_or_none(4).expect("created").clone();
    assert_eq!(first.room_id, 4);
    let mut existing = reg.remove(4).unwrap();
    existing.connect();
    existing.set_mute(true).unwrap();
    reg.insert(existing);
    reg.get_or_create(4);
    assert!(reg.get_or_none(4).unwrap().is_muted);
}

#[test]
fn mutating_one_room_leaves_the_others_alone() {
    let mut reg = Registry::new();
    reg.insert(Session::new(1));
    reg.insert(Session::new(2));
    let mut s1 = reg.remove(1).unwrap();
    s1.connect();
    s1.set_mute(true).unwrap();
    reg.insert(s1);
    let s2 = reg.get_or_none(2).expect("untouched");
    assert!(!s2.is_muted);
    assert!(reg.get_or_none(1).unwrap().is_muted);
}
