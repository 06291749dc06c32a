use vstd::prelude::*;
use crate::registry::{Registry, same_except};
use crate::session::{Session, SessionModel, PlaybackState};
use crate::track::Track;
use crate::router::{Outcome, Reply, Action, mute_post, volume_post, requested_percent};
use crate::text::{all_digits, digits_value};

verus! {

/// Room isolation: a step that changes at most one room's entry leaves
/// every other room's session exactly as it was. Every mutating
/// handler ensures `same_except` for its room, so commands on
/// different rooms read and write disjoint state and one can never
/// affect — or wait on — another's session.
pub proof fn lemma_rooms_independent(pre: Registry, post: Registry, room1: u64, room2: u64)
    requires
        same_except(pre, post, room1),
        room1 != room2,
    ensures
        post.has(room2) == pre.has(room2),
        pre.has(room2) ==> post.at(room2) == pre.at(room2),
{
}

/// `post` is `pre` with `room`'s entry set to `entry` (present or
/// absent) and nothing else changed: the registry-level footprint of
/// one room's command.
pub open spec fn sets_room(pre: Registry, post: Registry, room: u64, entry: Option<Session>) -> bool {
    &&& same_except(pre, post, room)
    &&& post.has(room) == entry is Some
    &&& (entry matches Some(s) ==> post.at(room) == s)
}

/// Steps on two different rooms commute: running them in either order
/// leaves the registry with the same entries everywhere.
pub proof fn lemma_room_steps_commute(
    start: Registry,
    mid_a: Registry,
    end_a: Registry,
    mid_b: Registry,
    end_b: Registry,
    room1: u64,
    room2: u64,
    entry1: Option<Session>,
    entry2: Option<Session>,
)
    requires
        room1 != room2,
        sets_room(start, mid_a, room1, entry1),
        sets_room(mid_a, end_a, room2, entry2),
        sets_room(start, mid_b, room2, entry2),
        sets_room(mid_b, end_b, room1, entry1),
    ensures
        forall|r: u64| end_a.has(r) == end_b.has(r),
        forall|r: u64| end_a.has(r) ==> end_a.at(r) == end_b.at(r),
{
    assert forall|r: u64| end_a.has(r) == end_b.has(r) by {
        if r != room1 && r != room2 {
            assert(end_a.has(r) == start.has(r));
            assert(end_b.has(r) == start.has(r));
        }
    }
    assert forall|r: u64| end_a.has(r) implies end_a.at(r) == end_b.at(r) by {
        if r != room1 && r != room2 {
            assert(end_a.at(r) == start.at(r));
            assert(end_b.at(r) == start.at(r));
        }
    }
}

/// At most one of two serialized enqueues starts at once; when no
/// track is current beforehand, exactly the first starts playing and
/// the second lands behind it in the queue.
pub proof fn lemma_at_most_one_immediate_start(s0: SessionModel, t1: Track, t2: Track)
    ensures
        !(s0.step_enqueue(t1).1 && s0.step_enqueue(t1).0.step_enqueue(t2).1),
        s0.current is None ==> {
            let s1 = s0.step_enqueue(t1).0;
            &&& s0.step_enqueue(t1).1
            &&& s1.current == Some(t1)
            &&& s1.playback_state == PlaybackState::Playing
            &&& !s1.step_enqueue(t2).1
            &&& s1.step_enqueue(t2).0.current == Some(t1)
            &&& s1.step_enqueue(t2).0.queue == s0.queue.push(t2)
        },
{
}

/// The session after enqueueing `tracks` one by one, in order.
pub open spec fn enqueue_all(s: SessionModel, tracks: Seq<Track>) -> SessionModel
    decreases tracks.len(),
{
    if tracks.len() == 0 {
        s
    } else {
        enqueue_all(s.step_enqueue(tracks[0]).0, tracks.drop_first())
    }
}

/// First in, first out: with a track current throughout, enqueueing
/// tracks in order appends them to the queue in that exact order and
/// leaves the current track alone. With `list_queue`'s contract —
/// entry `i` of the listing is position `i + 1` with the title of
/// queue element `i` — a queue grown from empty lists the enqueued
/// tracks in enqueue order under 1-based positions.
pub proof fn lemma_fifo_order(s0: SessionModel, tracks: Seq<Track>)
    requires
        s0.current is Some,
    ensures
        enqueue_all(s0, tracks).queue == s0.queue + tracks,
        enqueue_all(s0, tracks).current == s0.current,
        enqueue_all(s0, tracks).playback_state == s0.playback_state,
    decreases tracks.len(),
{
    if tracks.len() == 0 {
        assert(s0.queue + tracks =~= s0.queue);
    } else {
        let s1 = s0.step_enqueue(tracks[0]).0;
        assert(s1.queue == s0.queue.push(tracks[0]));
        lemma_fifo_order(s1, tracks.drop_first());
        assert(s0.queue.push(tracks[0]) + tracks.drop_first() =~= s0.queue + tracks);
    }
}

/// Skipping is deterministic: with an empty queue the session goes
/// idle with no current track; with a non-empty queue the head — and
/// only the head — is promoted and playback continues.
pub proof fn lemma_skip_fifo(s: SessionModel)
    requires
        s.playback_state == PlaybackState::Playing || s.playback_state == PlaybackState::Paused,
    ensures
        s.step_skip().1 is Ok,
        s.queue.len() == 0 ==> s.step_skip().0.current is None && s.step_skip().0.playback_state
            == PlaybackState::Idle,
        s.queue.len() > 0 ==> s.step_skip().0.current == Some(s.queue[0]) && s.step_skip().0.queue
            == s.queue.drop_first() && s.step_skip().0.playback_state == PlaybackState::Playing,
{
}

/// Muting twice in a row: the first call changes the flag, reports the
/// change and owes the provider call; the second changes nothing,
/// reports the state already held and owes no second provider call.
pub proof fn lemma_mute_idempotent(
    pre: Registry,
    mid: Registry,
    post: Registry,
    room: u64,
    o1: Outcome,
    o2: Outcome,
)
    requires
        pre.has(room),
        !pre.at(room)@.is_muted,
        mute_post(pre, mid, room, o1),
        mute_post(mid, post, room, o2),
    ensures
        o1.reply == Some(Reply::NowMuted),
        o1.action == Some(Action::SetMute { room, on: true }),
        mid.at(room)@.is_muted,
        o2.reply == Some(Reply::AlreadyMuted),
        o2.action is None,
        post.at(room)@ == mid.at(room)@,
{
}

/// A numeric volume request over 100 is applied as full volume, on the
/// session's current track and in the provider call alike.
pub proof fn lemma_volume_clamps_high(
    pre: Registry,
    post: Registry,
    room: u64,
    a: Seq<char>,
    o: Outcome,
)
    requires
        pre.has(room),
        pre.at(room)@.current is Some,
        all_digits(a),
        100 < digits_value(a) <= u64::MAX,
        volume_post(pre, post, room, Some(a), o),
    ensures
        o.action == Some(Action::SetVolume { room, percent: 100 }),
        o.reply is None,
        post.at(room)@.current matches Some(t) && t.volume == 100,
{
    assert(requested_percent(digits_value(a)) == 100);
}

/// A non-numeric volume request is rejected as a usage error and
/// mutates nothing.
pub proof fn lemma_volume_rejects_non_numeric(
    pre: Registry,
    post: Registry,
    room: u64,
    a: Seq<char>,
    o: Outcome,
)
    requires
        !all_digits(a),
        volume_post(pre, post, room, Some(a), o),
    ensures
        post == pre,
        o.reply == Some(Reply::UsageVolume),
        o.action is None,
{
}

} // verus!
