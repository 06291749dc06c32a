use vstd::prelude::*;
use crate::registry::{Registry, same_except};
use crate::session::{Session, SessionModel, ConnectionState};
use crate::track::{Track, title_text};
use crate::text::{
    all_digits,
    digits_value,
    parse_u64,
    has_prefix,
    str_eq,
    find_space,
    first_space,
    first_token,
    lemma_first_space,
    spec_first_token,
};
use crate::config::Config;

verus! {

/// A call the surrounding program must make on a collaborator: the
/// media transport provider or the weather lookup. The router decides;
/// the program performs and, where an answer matters, hands it back.
#[derive(Clone, Debug)]
pub enum Action {
    Connect { room: u64, channel: u64 },
    Disconnect { room: u64 },
    SetMute { room: u64, on: bool },
    SetDeafen { room: u64, on: bool },
    Pause { room: u64 },
    Resume { room: u64 },
    Skip { room: u64 },
    Stop { room: u64 },
    ResolveSource { room: u64, url: String },
    EnqueueSource { room: u64 },
    SetVolume { room: u64, percent: u8 },
    FetchWeather { location: String, units: String, api_key: String },
}

/// A response to send back to the channel, structured; rendering to
/// chat text is a separate, also verified, step.
#[derive(Clone, Debug)]
pub enum Reply {
    Pong,
    NotInVoice,
    RoomsOnly,
    JoinFailed,
    LeftVoice,
    Stopped,
    NotInVoiceToPlay,
    NotInVoiceToStop,
    NotInVoiceToUndeafen,
    NotInVoiceToUnmute,
    UsagePlay,
    InvalidUrl,
    UsageVolume,
    PauseFailed,
    ResumeFailed,
    SkipFailed,
    NowMuted,
    AlreadyMuted,
    Unmuted,
    AlreadyUnmuted,
    Deafened,
    AlreadyDeafened,
    Undeafened,
    AlreadyUndeafened,
    EmptyQueue,
    QueueListing(Vec<(usize, String)>),
    Playing(String),
    QueuedBehind(String),
    ResolveFailed(String),
    WeatherKeyMissing,
    WeatherFailed,
}

/// What one routed command produced: at most one response to send and
/// at most one collaborator call to make.
#[derive(Clone, Debug)]
pub struct Outcome {
    pub reply: Option<Reply>,
    pub action: Option<Action>,
}

/// One inbound message, reduced to what routing needs: where it was
/// sent, where its author sits, and its raw text.
#[derive(Clone, Debug)]
pub struct MessageEvent {
    /// Room the message was sent in; `None` outside any room.
    pub room_id: Option<u64>,
    /// Voice sub-channel the author is present in, if any.
    pub author_voice_channel: Option<u64>,
    /// The raw message text.
    pub text: String,
}

/// The commands the router recognises.
#[derive(Clone, Copy, PartialEq, Eq, Structural, Debug)]
pub enum Command {
    Join,
    Leave,
    Play,
    Pause,
    Resume,
    Skip,
    Stop,
    List,
    Volume,
    Mute,
    Unmute,
    Deafen,
    Undeafen,
    Ping,
    Weather,
}

/// The view of an optional borrowed argument.
pub open spec fn opt_text(a: Option<&str>) -> Option<Seq<char>> {
    match a {
        Some(s) => Some(s@),
        None => None,
    }
}

/// What `ping` produces: the fixed response, no collaborator call.
pub open spec fn ping_post(o: Outcome) -> bool {
    o.reply == Some(Reply::Pong) && o.action is None
}

/// Stateless liveness probe; needs no room and no session.
pub fn ping() -> (o: Outcome)
    ensures
        ping_post(o),
{
    Outcome { reply: Some(Reply::Pong), action: None }
}

/// What `join` produces: without a voice sub-channel the uniform
/// rejection and no connection attempt, else a connect action.
pub open spec fn join_post(room: u64, voice_channel: Option<u64>, o: Outcome) -> bool {
    match voice_channel {
        None => o.reply == Some(Reply::NotInVoice) && o.action is None,
        Some(ch) => o.reply is None && o.action == Some(Action::Connect { room, channel: ch }),
    }
}

/// Join the author's voice sub-channel. Without one, the uniform
/// rejection is sent and no connection is attempted, so no session can
/// come into being from it.
pub fn join(room: u64, voice_channel: Option<u64>) -> (o: Outcome)
    ensures
        join_post(room, voice_channel, o),
{
    match voice_channel {
        None => Outcome { reply: Some(Reply::NotInVoice), action: None },
        Some(ch) => Outcome { reply: None, action: Some(Action::Connect { room, channel: ch }) },
    }
}

/// The session a room holds after a connection was established for it:
/// the one it had, connected if it was not, or a fresh connected one.
pub open spec fn joined_model(pre: Registry, room: u64) -> SessionModel {
    if pre.has(room) {
        if pre.at(room)@.connection_state == ConnectionState::Disconnected {
            pre.at(room)@.step_connect()
        } else {
            pre.at(room)@
        }
    } else {
        SessionModel::init(room).step_connect()
    }
}

/// What filing a connection attempt produces: on success the room's
/// session exists and is connected, on failure nothing changed.
pub open spec fn connect_result_post(
    pre: Registry,
    post: Registry,
    room: u64,
    connected: bool,
    o: Outcome,
) -> bool {
    &&& same_except(pre, post, room)
    &&& (connected ==> post.has(room) && post.at(room)@ == joined_model(pre, room)
        && o.reply is None && o.action is None)
    &&& (!connected ==> post == pre && o.reply == Some(Reply::JoinFailed) && o.action is None)
}

/// Files the result of the provider's connection attempt. On success
/// the room's session exists and is connected; on failure nothing
/// changes and the error is surfaced. No other room is touched.
pub fn handle_connect_result(reg: &mut Registry, room: u64, connected: bool) -> (o: Outcome)
    requires
        old(reg).wf(),
    ensures
        final(reg).wf(),
        connect_result_post(*old(reg), *final(reg), room, connected, o),
{
    if !connected {
        return Outcome { reply: Some(Reply::JoinFailed), action: None };
    }
    let mut s = match reg.remove(room) {
        Some(s) => {
            proof {
                old(reg).lemma_at_wf(room);
            }
            s
        },
        None => Session::new(room),
    };
    match s.connection_state {
        ConnectionState::Disconnected => {
            s.connect();
        },
        ConnectionState::Connected => {},
    }
    reg.insert(s);
    Outcome { reply: None, action: None }
}

/// What `leave` produces: the session evicted whole with a disconnect
/// action, or the uniform rejection when there was none.
pub open spec fn leave_post(pre: Registry, post: Registry, room: u64, o: Outcome) -> bool {
    &&& same_except(pre, post, room)
    &&& (pre.has(room) ==> !post.has(room) && o.reply == Some(Reply::LeftVoice) && o.action
        == Some(Action::Disconnect { room }))
    &&& (!pre.has(room) ==> post == pre && o.reply == Some(Reply::NotInVoice) && o.action is None)
}

/// Leave the room's voice channel: the session is evicted whole, so a
/// later join starts from a fresh one. Without a session the uniform
/// rejection is sent.
pub fn leave(reg: &mut Registry, room: u64) -> (o: Outcome)
    requires
        old(reg).wf(),
    ensures
        final(reg).wf(),
        leave_post(*old(reg), *final(reg), room, o),
{
    match reg.remove(room) {
        Some(_) => Outcome {
            reply: Some(Reply::LeftVoice),
            action: Some(Action::Disconnect { room }),
        },
        None => Outcome { reply: Some(Reply::NotInVoice), action: None },
    }
}

/// What `pause` produces: the session steps through its pause
/// transition; a provider call exactly when it succeeded.
pub open spec fn pause_post(pre: Registry, post: Registry, room: u64, o: Outcome) -> bool {
    &&& same_except(pre, post, room)
    &&& (!pre.has(room) ==> post == pre && o.reply == Some(Reply::NotInVoice) && o.action is None)
    &&& (pre.has(room) ==> {
        &&& post.has(room)
        &&& post.at(room)@ == pre.at(room)@.step_pause().0
        &&& (pre.at(room)@.step_pause().1 is Ok ==> o.action == Some(Action::Pause { room })
            && o.reply is None)
        &&& (pre.at(room)@.step_pause().1 is Err ==> o.action is None && o.reply == Some(
            Reply::PauseFailed,
        ))
    })
}

/// Pause the playing track; an error response when nothing plays, the
/// uniform rejection when the room has no session.
pub fn pause(reg: &mut Registry, room: u64) -> (o: Outcome)
    requires
        old(reg).wf(),
    ensures
        final(reg).wf(),
        pause_post(*old(reg), *final(reg), room, o),
{
    match reg.remove(room) {
        None => Outcome { reply: Some(Reply::NotInVoice), action: None },
        Some(mut s) => {
            proof {
                old(reg).lemma_at_wf(room);
            }
            let r = s.pause();
            reg.insert(s);
            match r {
                Ok(_) => Outcome { reply: None, action: Some(Action::Pause { room }) },
                Err(_) => Outcome { reply: Some(Reply::PauseFailed), action: None },
            }
        },
    }
}

/// What `resume` produces, mirroring `pause`.
pub open spec fn resume_post(pre: Registry, post: Registry, room: u64, o: Outcome) -> bool {
    &&& same_except(pre, post, room)
    &&& (!pre.has(room) ==> post == pre && o.reply == Some(Reply::NotInVoice) && o.action is None)
    &&& (pre.has(room) ==> {
        &&& post.has(room)
        &&& post.at(room)@ == pre.at(room)@.step_resume().0
        &&& (pre.at(room)@.step_resume().1 is Ok ==> o.action == Some(Action::Resume { room })
            && o.reply is None)
        &&& (pre.at(room)@.step_resume().1 is Err ==> o.action is None && o.reply == Some(
            Reply::ResumeFailed,
        ))
    })
}

/// Resume the paused track; the exact mirror of `pause`.
pub fn resume(reg: &mut Registry, room: u64) -> (o: Outcome)
    requires
        old(reg).wf(),
    ensures
        final(reg).wf(),
        resume_post(*old(reg), *final(reg), room, o),
{
    match reg.remove(room) {
        None => Outcome { reply: Some(Reply::NotInVoice), action: None },
        Some(mut s) => {
            proof {
                old(reg).lemma_at_wf(room);
            }
            let r = s.resume();
            reg.insert(s);
            match r {
                Ok(_) => Outcome { reply: None, action: Some(Action::Resume { room }) },
                Err(_) => Outcome { reply: Some(Reply::ResumeFailed), action: None },
            }
        },
    }
}

/// What `skip` produces: the session's skip transition, first in,
/// first out; a provider call exactly when it succeeded.
pub open spec fn skip_post(pre: Registry, post: Registry, room: u64, o: Outcome) -> bool {
    &&& same_except(pre, post, room)
    &&& (!pre.has(room) ==> post == pre && o.reply == Some(Reply::NotInVoice) && o.action is None)
    &&& (pre.has(room) ==> {
        &&& post.has(room)
        &&& post.at(room)@ == pre.at(room)@.step_skip().0
        &&& (pre.at(room)@.step_skip().1 is Ok ==> o.action == Some(Action::Skip { room })
            && o.reply is None)
        &&& (pre.at(room)@.step_skip().1 is Err ==> o.action is None && o.reply == Some(
            Reply::SkipFailed,
        ))
    })
}

/// Skip the current track: the provider stops it, and the session
/// promotes the queue's head, first in, first out.
pub fn skip(reg: &mut Registry, room: u64) -> (o: Outcome)
    requires
        old(reg).wf(),
    ensures
        final(reg).wf(),
        skip_post(*old(reg), *final(reg), room, o),
{
    match reg.remove(room) {
        None => Outcome { reply: Some(Reply::NotInVoice), action: None },
        Some(mut s) => {
            proof {
                old(reg).lemma_at_wf(room);
            }
            let r = s.skip();
            reg.insert(s);
            match r {
                Ok(_) => Outcome { reply: None, action: Some(Action::Skip { room }) },
                Err(_) => Outcome { reply: Some(Reply::SkipFailed), action: None },
            }
        },
    }
}

/// What `stop` produces: playback stopped and the queue cleared while
/// the session stays, or the dedicated rejection without one.
pub open spec fn stop_post(pre: Registry, post: Registry, room: u64, o: Outcome) -> bool {
    &&& same_except(pre, post, room)
    &&& (!pre.has(room) ==> post == pre && o.reply == Some(Reply::NotInVoiceToStop)
        && o.action is None)
    &&& (pre.has(room) ==> {
        &&& post.has(room)
        &&& post.at(room)@ == pre.at(room)@.step_stop().0
        &&& (pre.at(room)@.step_stop().1 is Ok ==> o.action == Some(Action::Stop { room })
            && o.reply == Some(Reply::Stopped))
        &&& (pre.at(room)@.step_stop().1 is Err ==> o.action is None && o.reply == Some(
            Reply::NotInVoiceToStop,
        ))
    })
}

/// Stop playback and clear the queue; the session and its connection
/// stay, ready for new enqueues.
pub fn stop(reg: &mut Registry, room: u64) -> (o: Outcome)
    requires
        old(reg).wf(),
    ensures
        final(reg).wf(),
        stop_post(*old(reg), *final(reg), room, o),
{
    match reg.remove(room) {
        None => Outcome { reply: Some(Reply::NotInVoiceToStop), action: None },
        Some(mut s) => {
            proof {
                old(reg).lemma_at_wf(room);
            }
            let r = s.stop();
            reg.insert(s);
            match r {
                Ok(_) => Outcome {
                    reply: Some(Reply::Stopped),
                    action: Some(Action::Stop { room }),
                },
                Err(_) => Outcome { reply: Some(Reply::NotInVoiceToStop), action: None },
            }
        },
    }
}

/// What `mute` produces: the flag set with a provider call, or the
/// already-muted report with none owed.
pub open spec fn mute_post(pre: Registry, post: Registry, room: u64, o: Outcome) -> bool {
    &&& same_except(pre, post, room)
    &&& (!pre.has(room) ==> post == pre && o.reply == Some(Reply::NotInVoice) && o.action is None)
    &&& (pre.has(room) ==> {
        &&& post.has(room)
        &&& post.at(room)@ == pre.at(room)@.step_set_mute(true).0
        &&& (pre.at(room)@.step_set_mute(true).1 is Ok ==> o.action == Some(
            Action::SetMute { room, on: true },
        ) && o.reply == Some(Reply::NowMuted))
        &&& (pre.at(room)@.step_set_mute(true).1 is Err ==> o.action is None && o.reply == Some(
            Reply::AlreadyMuted,
        ))
    })
}

/// Mute the room's session: sets the flag, has the program issue the
/// provider call, and reports when it was already muted — in that case
/// no provider call is owed.
pub fn mute(reg: &mut Registry, room: u64) -> (o: Outcome)
    requires
        old(reg).wf(),
    ensures
        final(reg).wf(),
        mute_post(*old(reg), *final(reg), room, o),
{
    match reg.remove(room) {
        None => Outcome { reply: Some(Reply::NotInVoice), action: None },
        Some(mut s) => {
            proof {
                old(reg).lemma_at_wf(room);
            }
            let r = s.set_mute(true);
            reg.insert(s);
            match r {
                Ok(_) => Outcome {
                    reply: Some(Reply::NowMuted),
                    action: Some(Action::SetMute { room, on: true }),
                },
                Err(_) => Outcome { reply: Some(Reply::AlreadyMuted), action: None },
            }
        },
    }
}

/// What `unmute` produces, the mirror of `mute`.
pub open spec fn unmute_post(pre: Registry, post: Registry, room: u64, o: Outcome) -> bool {
    &&& same_except(pre, post, room)
    &&& (!pre.has(room) ==> post == pre && o.reply == Some(Reply::NotInVoiceToUnmute)
        && o.action is None)
    &&& (pre.has(room) ==> {
        &&& post.has(room)
        &&& post.at(room)@ == pre.at(room)@.step_set_mute(false).0
        &&& (pre.at(room)@.step_set_mute(false).1 is Ok ==> o.action == Some(
            Action::SetMute { room, on: false },
        ) && o.reply == Some(Reply::Unmuted))
        &&& (pre.at(room)@.step_set_mute(false).1 is Err ==> o.action is None && o.reply == Some(
            Reply::AlreadyUnmuted,
        ))
    })
}

/// Unmute the room's session, the mirror of `mute`.
pub fn unmute(reg: &mut Registry, room: u64) -> (o: Outcome)
    requires
        old(reg).wf(),
    ensures
        final(reg).wf(),
        unmute_post(*old(reg), *final(reg), room, o),
{
    match reg.remove(room) {
        None => Outcome { reply: Some(Reply::NotInVoiceToUnmute), action: None },
        Some(mut s) => {
            proof {
                old(reg).lemma_at_wf(room);
            }
            let r = s.set_mute(false);
            reg.insert(s);
            match r {
                Ok(_) => Outcome {
                    reply: Some(Reply::Unmuted),
                    action: Some(Action::SetMute { room, on: false }),
                },
                Err(_) => Outcome { reply: Some(Reply::AlreadyUnmuted), action: None },
            }
        },
    }
}

/// What `deafen` produces, as `mute` for the deafen flag.
pub open spec fn deafen_post(pre: Registry, post: Registry, room: u64, o: Outcome) -> bool {
    &&& same_except(pre, post, room)
    &&& (!pre.has(room) ==> post == pre && o.reply == Some(Reply::NotInVoice) && o.action is None)
    &&& (pre.has(room) ==> {
        &&& post.has(room)
        &&& post.at(room)@ == pre.at(room)@.step_set_deafen(true).0
        &&& (pre.at(room)@.step_set_deafen(true).1 is Ok ==> o.action == Some(
            Action::SetDeafen { room, on: true },
        ) && o.reply == Some(Reply::Deafened))
        &&& (pre.at(room)@.step_set_deafen(true).1 is Err ==> o.action is None && o.reply == Some(
            Reply::AlreadyDeafened,
        ))
    })
}

/// Deafen the room's session, as `mute` does for the mute flag.
pub fn deafen(reg: &mut Registry, room: u64) -> (o: Outcome)
    requires
        old(reg).wf(),
    ensures
        final(reg).wf(),
        deafen_post(*old(reg), *final(reg), room, o),
{
    match reg.remove(room) {
        None => Outcome { reply: Some(Reply::NotInVoice), action: None },
        Some(mut s) => {
            proof {
                old(reg).lemma_at_wf(room);
            }
            let r = s.set_deafen(true);
            reg.insert(s);
            match r {
                Ok(_) => Outcome {
                    reply: Some(Reply::Deafened),
                    action: Some(Action::SetDeafen { room, on: true }),
                },
                Err(_) => Outcome { reply: Some(Reply::AlreadyDeafened), action: None },
            }
        },
    }
}

/// What `undeafen` produces, the mirror of `deafen`.
pub open spec fn undeafen_post(pre: Registry, post: Registry, room: u64, o: Outcome) -> bool {
    &&& same_except(pre, post, room)
    &&& (!pre.has(room) ==> post == pre && o.reply == Some(Reply::NotInVoiceToUndeafen)
        && o.action is None)
    &&& (pre.has(room) ==> {
        &&& post.has(room)
        &&& post.at(room)@ == pre.at(room)@.step_set_deafen(false).0
        &&& (pre.at(room)@.step_set_deafen(false).1 is Ok ==> o.action == Some(
            Action::SetDeafen { room, on: false },
        ) && o.reply == Some(Reply::Undeafened))
        &&& (pre.at(room)@.step_set_deafen(false).1 is Err ==> o.action is None && o.reply == Some(
            Reply::AlreadyUndeafened,
        ))
    })
}

/// Undeafen the room's session, the mirror of `deafen`.
pub fn undeafen(reg: &mut Registry, room: u64) -> (o: Outcome)
    requires
        old(reg).wf(),
    ensures
        final(reg).wf(),
        undeafen_post(*old(reg), *final(reg), room, o),
{
    match reg.remove(room) {
        None => Outcome { reply: Some(Reply::NotInVoiceToUndeafen), action: None },
        Some(mut s) => {
            proof {
                old(reg).lemma_at_wf(room);
            }
            let r = s.set_deafen(false);
            reg.insert(s);
            match r {
                Ok(_) => Outcome {
                    reply: Some(Reply::Undeafened),
                    action: Some(Action::SetDeafen { room, on: false }),
                },
                Err(_) => Outcome { reply: Some(Reply::AlreadyUndeafened), action: None },
            }
        },
    }
}

/// What `list` produces: the queued tracks with 1-based positions and
/// shown titles, the empty queue reported distinctly; no state change
/// and no collaborator call.
pub open spec fn list_post(reg: Registry, room: u64, o: Outcome) -> bool {
    &&& o.action is None
    &&& (!reg.has(room) ==> o.reply == Some(Reply::NotInVoice))
    &&& (reg.has(room) && reg.at(room)@.queue.len() == 0 ==> o.reply == Some(Reply::EmptyQueue))
    &&& (reg.has(room) && reg.at(room)@.queue.len() > 0 ==> (o.reply matches Some(
        Reply::QueueListing(v),
    ) && v@.len() == reg.at(room)@.queue.len() && forall|i: int|
        0 <= i < v@.len() ==> (#[trigger] v@[i]).0 == i + 1 && v@[i].1@ == title_text(
            reg.at(room)@.queue[i],
        )))
}

/// List the queued tracks with their 1-based positions; an empty queue
/// is reported distinctly.
pub fn list(reg: &Registry, room: u64) -> (o: Outcome)
    requires
        reg.wf(),
    ensures
        list_post(*reg, room, o),
{
    match reg.get_or_none(room) {
        None => Outcome { reply: Some(Reply::NotInVoice), action: None },
        Some(s) => {
            proof {
                reg.lemma_at_wf(room);
            }
            let items = s.list_queue();
            if items.len() == 0 {
                Outcome { reply: Some(Reply::EmptyQueue), action: None }
            } else {
                Outcome { reply: Some(Reply::QueueListing(items)), action: None }
            }
        },
    }
}

/// The percentage a volume request asks for, capped at 100 before the
/// session clamps it; requests are unsigned, so no lower cap is needed.
pub open spec fn requested_percent(v: int) -> i64 {
    if v > 100 {
        100
    } else {
        v as i64
    }
}

/// What `volume` produces: a usage error for a missing or non-numeric
/// argument, the uniform rejection without a session, and otherwise
/// the clamped percentage applied to the current track — silently in
/// every successful or current-less case, as the provider is only
/// called when a track is current.
pub open spec fn volume_post(
    pre: Registry,
    post: Registry,
    room: u64,
    arg: Option<Seq<char>>,
    o: Outcome,
) -> bool {
    &&& same_except(pre, post, room)
    &&& (arg is None ==> post == pre && o.reply == Some(Reply::UsageVolume) && o.action is None)
    &&& (arg matches Some(a) ==> (!(all_digits(a) && digits_value(a) <= u64::MAX) ==> post == pre
        && o.reply == Some(Reply::UsageVolume) && o.action is None))
    &&& (arg matches Some(a) ==> (all_digits(a) && digits_value(a) <= u64::MAX && !pre.has(room)
        ==> post == pre && o.reply == Some(Reply::NotInVoice) && o.action is None))
    &&& (arg matches Some(a) ==> (all_digits(a) && digits_value(a) <= u64::MAX && pre.has(room)
        ==> {
        let req = requested_percent(digits_value(a));
        &&& post.has(room)
        &&& post.at(room)@ == pre.at(room)@.step_set_volume(req as i64).0
        &&& (pre.at(room)@.step_set_volume(req as i64).1 is Ok ==> o.action == Some(
            Action::SetVolume { room, percent: crate::session::clamp_percent(req as i64) },
        ) && o.reply is None)
        &&& (pre.at(room)@.step_set_volume(req as i64).1 is Err ==> o.action is None
            && o.reply is None)
    }))
}

/// Set the current track's volume from the command's argument. A
/// missing or non-numeric argument is a usage error and changes
/// nothing; an in-range session request is clamped and applied.
pub fn volume(reg: &mut Registry, room: u64, arg: Option<&str>) -> (o: Outcome)
    requires
        old(reg).wf(),
    ensures
        final(reg).wf(),
        volume_post(*old(reg), *final(reg), room, opt_text(arg), o),
{
    let a = match arg {
        Some(a) => a,
        None => {
            return Outcome { reply: Some(Reply::UsageVolume), action: None };
        },
    };
    let v = match parse_u64(a) {
        Some(v) => v,
        None => {
            return Outcome { reply: Some(Reply::UsageVolume), action: None };
        },
    };
    let req: i64 = if v > 100 {
        100
    } else {
        v as i64
    };
    match reg.remove(room) {
        None => Outcome { reply: Some(Reply::NotInVoice), action: None },
        Some(mut s) => {
            proof {
                old(reg).lemma_at_wf(room);
            }
            let r = s.set_current_volume(req);
            reg.insert(s);
            match r {
                Ok(_) => Outcome {
                    reply: None,
                    action: Some(Action::SetVolume { room, percent: req as u8 }),
                },
                Err(_) => Outcome { reply: None, action: None },
            }
        },
    }
}

/// A syntactically plausible source address: non-empty and carrying the
/// scheme prefix the provider accepts.
pub open spec fn url_ok(a: Seq<char>) -> bool {
    a.len() >= "http"@.len() && a.subrange(0, "http"@.len() as int) == "http"@
}

/// What the first half of `play` produces: usage and validity errors
/// without any resolution attempt, the dedicated rejection without a
/// session, else the resolve action carrying the address.
pub open spec fn play_post(reg: Registry, room: u64, arg: Option<Seq<char>>, o: Outcome) -> bool {
    &&& (arg is None ==> o.reply == Some(Reply::UsagePlay) && o.action is None)
    &&& (arg matches Some(a) ==> (!url_ok(a) ==> o.reply == Some(Reply::InvalidUrl)
        && o.action is None))
    &&& (arg matches Some(a) ==> (url_ok(a) && !reg.has(room) ==> o.reply == Some(
        Reply::NotInVoiceToPlay,
    ) && o.action is None))
    &&& (arg matches Some(a) ==> (url_ok(a) && reg.has(room) ==> o.reply is None && (o.action
        matches Some(Action::ResolveSource { room: r2, url }) && r2 == room && url@ == a)))
}

/// First half of playing a source: validate the argument and, with a
/// session present, have the program resolve the address. Nothing is
/// resolved — and no state changes — for a missing or implausible
/// argument or without a session.
pub fn play(reg: &Registry, room: u64, arg: Option<&str>) -> (o: Outcome)
    requires
        reg.wf(),
    ensures
        play_post(*reg, room, opt_text(arg), o),
{
    let a = match arg {
        Some(a) => a,
        None => {
            return Outcome { reply: Some(Reply::UsagePlay), action: None };
        },
    };
    if !has_prefix(a, "http") {
        return Outcome { reply: Some(Reply::InvalidUrl), action: None };
    }
    match reg.get_or_none(room) {
        None => Outcome { reply: Some(Reply::NotInVoiceToPlay), action: None },
        Some(_) => Outcome {
            reply: None,
            action: Some(Action::ResolveSource { room, url: a.to_owned() }),
        },
    }
}

/// What filing a resolution attempt produces: a failure reported and
/// nothing changed; a resolved track enqueued — starting at once or
/// queued behind the current track's title — and handed to the
/// provider.
pub open spec fn resolved_post(
    pre: Registry,
    post: Registry,
    room: u64,
    source: Result<Track, String>,
    o: Outcome,
) -> bool {
    &&& same_except(pre, post, room)
    &&& (source matches Err(e) ==> post == pre && o.reply == Some(Reply::ResolveFailed(e))
        && o.action is None)
    &&& (source matches Ok(t) ==> (!pre.has(room) ==> post == pre && o.reply == Some(
        Reply::NotInVoiceToPlay,
    ) && o.action is None))
    &&& (source matches Ok(t) ==> (pre.has(room) && pre.at(room)@.connection_state
        != ConnectionState::Connected ==> post.has(room) && post.at(room)@ == pre.at(room)@
        && o.reply == Some(Reply::NotInVoiceToPlay) && o.action is None))
    &&& (source matches Ok(t) ==> (pre.has(room) && pre.at(room)@.connection_state
        == ConnectionState::Connected ==> {
        &&& post.has(room)
        &&& post.at(room)@ == pre.at(room)@.step_enqueue(t).0
        &&& o.action == Some(Action::EnqueueSource { room })
        &&& (pre.at(room)@.step_enqueue(t).1 ==> (o.reply matches Some(Reply::Playing(s)) && s@
            == title_text(t)))
        &&& (!pre.at(room)@.step_enqueue(t).1 ==> (o.reply matches Some(Reply::QueuedBehind(s))
            && pre.at(room)@.current matches Some(cur) && s@ == title_text(cur)))
    }))
}

/// Second half of playing a source: files what the resolution attempt
/// produced. A resolved track is enqueued — starting at once when no
/// track is current, else queued behind it — and handed to the
/// provider; a failed resolution is reported and changes nothing.
pub fn handle_resolved(reg: &mut Registry, room: u64, source: Result<Track, String>) -> (o:
    Outcome)
    requires
        old(reg).wf(),
        (source matches Ok(t) ==> t.wf()),
    ensures
        final(reg).wf(),
        resolved_post(*old(reg), *final(reg), room, source, o),
{
    let t = match source {
        Ok(t) => t,
        Err(e) => {
            return Outcome { reply: Some(Reply::ResolveFailed(e)), action: None };
        },
    };
    match reg.remove(room) {
        None => Outcome { reply: Some(Reply::NotInVoiceToPlay), action: None },
        Some(mut s) => {
            proof {
                old(reg).lemma_at_wf(room);
            }
            match s.connection_state {
                ConnectionState::Disconnected => {
                    reg.insert(s);
                    Outcome { reply: Some(Reply::NotInVoiceToPlay), action: None }
                },
                ConnectionState::Connected => {
                    let behind = match &s.current {
                        Some(cur) => Some(cur.display_title()),
                        None => None,
                    };
                    let shown = t.display_title();
                    let started = s.enqueue(t);
                    reg.insert(s);
                    let reply = if started {
                        Reply::Playing(shown)
                    } else {
                        match behind {
                            Some(b) => Reply::QueuedBehind(b),
                            None => Reply::QueuedBehind(shown),
                        }
                    };
                    Outcome {
                        reply: Some(reply),
                        action: Some(Action::EnqueueSource { room }),
                    }
                },
            }
        },
    }
}

/// What `weather` produces: the fetch action with the configured
/// parameters, or the configuration-missing response without a key.
pub open spec fn weather_post(cfg: Config, o: Outcome) -> bool {
    &&& (cfg.weather is None ==> o.reply == Some(Reply::WeatherKeyMissing) && o.action is None)
    &&& (cfg.weather matches Some(w) ==> o.reply is None && (o.action matches Some(
        Action::FetchWeather { location, units, api_key },
    ) && location@ == w.location@ && units@ == w.units@ && api_key@ == w.api_key@))
}

/// Weather lookup: with credentials configured the program fetches the
/// report; without them the configuration-missing response is sent.
pub fn weather(cfg: &Config) -> (o: Outcome)
    ensures
        weather_post(*cfg, o),
{
    match &cfg.weather {
        None => Outcome { reply: Some(Reply::WeatherKeyMissing), action: None },
        Some(w) => Outcome {
            reply: None,
            action: Some(
                Action::FetchWeather {
                    location: w.location.clone(),
                    units: w.units.clone(),
                    api_key: w.api_key.clone(),
                },
            ),
        },
    }
}

/// The text invokes a command: it starts with the configured prefix.
pub open spec fn is_invocation(text: Seq<char>, prefix: Seq<char>) -> bool {
    text.len() >= prefix.len() && text.subrange(0, prefix.len() as int) == prefix
}

/// What follows the prefix of an invocation.
pub open spec fn invocation_body(text: Seq<char>, prefix: Seq<char>) -> Seq<char> {
    text.subrange(prefix.len() as int, text.len() as int)
}

/// The command name: the body up to its first space.
pub open spec fn command_name(text: Seq<char>, prefix: Seq<char>) -> Seq<char> {
    invocation_body(text, prefix).subrange(0, first_space(invocation_body(text, prefix)))
}

/// The command's argument: the first token after the name, if any.
pub open spec fn command_arg(text: Seq<char>, prefix: Seq<char>) -> Option<Seq<char>> {
    let b = invocation_body(text, prefix);
    if first_space(b) == b.len() {
        None
    } else {
        spec_first_token(b.subrange(first_space(b) + 1, b.len() as int))
    }
}

/// The dispatch table: which name names which command.
pub open spec fn spec_lookup(name: Seq<char>) -> Option<Command> {
    if name == "join"@ {
        Some(Command::Join)
    } else if name == "leave"@ {
        Some(Command::Leave)
    } else if name == "play"@ {
        Some(Command::Play)
    } else if name == "pause"@ {
        Some(Command::Pause)
    } else if name == "resume"@ {
        Some(Command::Resume)
    } else if name == "skip"@ {
        Some(Command::Skip)
    } else if name == "stop"@ {
        Some(Command::Stop)
    } else if name == "list"@ {
        Some(Command::List)
    } else if name == "volume"@ {
        Some(Command::Volume)
    } else if name == "mute"@ {
        Some(Command::Mute)
    } else if name == "unmute"@ {
        Some(Command::Unmute)
    } else if name == "deafen"@ {
        Some(Command::Deafen)
    } else if name == "undeafen"@ {
        Some(Command::Undeafen)
    } else if name == "ping"@ {
        Some(Command::Ping)
    } else if name == "weather"@ {
        Some(Command::Weather)
    } else {
        None
    }
}

/// Looks a command name up in the dispatch table.
pub fn lookup_command(name: &str) -> (r: Option<Command>)
    ensures
        r == spec_lookup(name@),
{
    if str_eq(name, "join") {
        Some(Command::Join)
    } else if str_eq(name, "leave") {
        Some(Command::Leave)
    } else if str_eq(name, "play") {
        Some(Command::Play)
    } else if str_eq(name, "pause") {
        Some(Command::Pause)
    } else if str_eq(name, "resume") {
        Some(Command::Resume)
    } else if str_eq(name, "skip") {
        Some(Command::Skip)
    } else if str_eq(name, "stop") {
        Some(Command::Stop)
    } else if str_eq(name, "list") {
        Some(Command::List)
    } else if str_eq(name, "volume") {
        Some(Command::Volume)
    } else if str_eq(name, "mute") {
        Some(Command::Mute)
    } else if str_eq(name, "unmute") {
        Some(Command::Unmute)
    } else if str_eq(name, "deafen") {
        Some(Command::Deafen)
    } else if str_eq(name, "undeafen") {
        Some(Command::Undeafen)
    } else if str_eq(name, "ping") {
        Some(Command::Ping)
    } else if str_eq(name, "weather") {
        Some(Command::Weather)
    } else {
        None
    }
}

/// What routing one message does, for every outcome of parsing: text
/// without the prefix or with an unknown name is ignored without a
/// response; every command but ping demands a room; and each command's
/// own postcondition then holds for the room and argument parsed out
/// of the text.
pub open spec fn routed_post(
    pre: Registry,
    post: Registry,
    cfg: Config,
    ev: MessageEvent,
    o: Outcome,
) -> bool {
    if !is_invocation(ev.text@, cfg.prefix@) {
        post == pre && o.reply is None && o.action is None
    } else {
        match spec_lookup(command_name(ev.text@, cfg.prefix@)) {
            None => post == pre && o.reply is None && o.action is None,
            Some(cmd) => {
                if cmd == Command::Ping {
                    post == pre && ping_post(o)
                } else {
                    match ev.room_id {
                        None => post == pre && o.reply == Some(Reply::RoomsOnly)
                            && o.action is None,
                        Some(room) => {
                            let arg = command_arg(ev.text@, cfg.prefix@);
                            match cmd {
                                Command::Join => post == pre && join_post(
                                    room,
                                    ev.author_voice_channel,
                                    o,
                                ),
                                Command::Leave => leave_post(pre, post, room, o),
                                Command::Play => post == pre && play_post(pre, room, arg, o),
                                Command::Pause => pause_post(pre, post, room, o),
                                Command::Resume => resume_post(pre, post, room, o),
                                Command::Skip => skip_post(pre, post, room, o),
                                Command::Stop => stop_post(pre, post, room, o),
                                Command::List => post == pre && list_post(pre, room, o),
                                Command::Volume => volume_post(pre, post, room, arg, o),
                                Command::Mute => mute_post(pre, post, room, o),
                                Command::Unmute => unmute_post(pre, post, room, o),
                                Command::Deafen => deafen_post(pre, post, room, o),
                                Command::Undeafen => undeafen_post(pre, post, room, o),
                                Command::Ping => post == pre && ping_post(o),
                                Command::Weather => post == pre && weather_post(cfg, o),
                            }
                        },
                    }
                }
            },
        }
    }
}

/// Routes one inbound message: recognises the prefix, splits name and
/// argument at the first spaces, enforces the room requirement, and
/// dispatches to the command's handler.
pub fn handle_message(reg: &mut Registry, cfg: &Config, ev: &MessageEvent) -> (o: Outcome)
    requires
        old(reg).wf(),
    ensures
        final(reg).wf(),
        routed_post(*old(reg), *final(reg), *cfg, *ev, o),
{
    let text = ev.text.as_str();
    let prefix = cfg.prefix.as_str();
    if !has_prefix(text, prefix) {
        return Outcome { reply: None, action: None };
    }
    let pn = prefix.unicode_len();
    let n = text.unicode_len();
    let body = text.substring_char(pn, n);
    proof {
        assert(body@ == invocation_body(ev.text@, cfg.prefix@));
        lemma_first_space(body@);
    }
    let fs = find_space(body);
    let name = body.substring_char(0, fs);
    let cmd = match lookup_command(name) {
        Some(c) => c,
        None => {
            return Outcome { reply: None, action: None };
        },
    };
    let bl = body.unicode_len();
    let arg: Option<String> = if fs == bl {
        None
    } else {
        first_token(body.substring_char(fs + 1, bl))
    };
    proof {
        match arg {
            Some(ref a) => assert(Some(a@) == command_arg(ev.text@, cfg.prefix@)),
            None => assert(command_arg(ev.text@, cfg.prefix@) is None),
        }
    }
    match cmd {
        Command::Ping => {
            return ping();
        },
        _ => {},
    }
    let room = match ev.room_id {
        Some(r) => r,
        None => {
            return Outcome { reply: Some(Reply::RoomsOnly), action: None };
        },
    };
    match cmd {
        Command::Join => join(room, ev.author_voice_channel),
        Command::Leave => leave(reg, room),
        Command::Play => match &arg {
            Some(a) => play(reg, room, Some(a.as_str())),
            None => play(reg, room, None),
        },
        Command::Pause => pause(reg, room),
        Command::Resume => resume(reg, room),
        Command::Skip => skip(reg, room),
        Command::Stop => stop(reg, room),
        Command::List => list(reg, room),
        Command::Volume => match &arg {
            Some(a) => volume(reg, room, Some(a.as_str())),
            None => volume(reg, room, None),
        },
        Command::Mute => mute(reg, room),
        Command::Unmute => unmute(reg, room),
        Command::Deafen => deafen(reg, room),
        Command::Undeafen => undeafen(reg, room),
        Command::Ping => ping(),
        Command::Weather => weather(cfg),
    }
}

} // verus!
