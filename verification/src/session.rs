use vstd::prelude::*;
use crate::track::{Track, FULL_VOLUME, title_text};

verus! {

/// Whether the session holds a live media-transport connection.
#[derive(Clone, Copy, PartialEq, Eq, Structural, Debug)]
pub enum ConnectionState {
    Disconnected,
    Connected,
}

/// Playback half of the lifecycle; meaningful only while connected.
#[derive(Clone, Copy, PartialEq, Eq, Structural, Debug)]
pub enum PlaybackState {
    Idle,
    Playing,
    Paused,
    Stopped,
}

/// Errors a session operation can signal. All are user-facing and
/// non-fatal: the caller words a chat response from them.
#[derive(Clone, Copy, PartialEq, Eq, Structural, Debug)]
pub enum SessionError {
    /// The session holds no live connection.
    NotConnected,
    /// The operation needs a playing track.
    NotPlaying,
    /// The operation needs a paused track.
    NotPaused,
    /// The operation needs a current track.
    NoCurrentTrack,
    /// The requested flag value already holds; no provider call is owed.
    AlreadyInState,
}

/// The mathematical value of a [`Session`]: the same fields with the
/// queue as a sequence. Specifications and laws speak of this model.
pub struct SessionModel {
    pub room_id: u64,
    pub connection_state: ConnectionState,
    pub playback_state: PlaybackState,
    pub queue: Seq<Track>,
    pub current: Option<Track>,
    pub is_muted: bool,
    pub is_deafened: bool,
}

impl SessionModel {
    /// Session invariant: playback presumes a connection, a playing or
    /// paused session has a current track, a disconnected session holds
    /// nothing, and every track is well formed.
    pub open spec fn wf(self) -> bool {
        &&& self.playback_state != PlaybackState::Idle
            ==> self.connection_state == ConnectionState::Connected
        &&& (self.playback_state == PlaybackState::Playing
            || self.playback_state == PlaybackState::Paused) ==> self.current is Some
        &&& self.connection_state == ConnectionState::Disconnected
            ==> self.current is None && self.queue.len() == 0
        &&& (self.current matches Some(t) ==> t.wf())
        &&& forall|i: int| 0 <= i < self.queue.len() ==> (#[trigger] self.queue[i]).wf()
    }

    /// The state a fresh session starts in: disconnected, empty, default flags.
    pub open spec fn init(room_id: u64) -> SessionModel {
        SessionModel {
            room_id,
            connection_state: ConnectionState::Disconnected,
            playback_state: PlaybackState::Idle,
            queue: Seq::empty(),
            current: None,
            is_muted: false,
            is_deafened: false,
        }
    }

    /// Transition for a connection established by the provider:
    /// disconnected goes to connected and idle.
    pub open spec fn step_connect(self) -> SessionModel {
        SessionModel {
            connection_state: ConnectionState::Connected,
            playback_state: PlaybackState::Idle,
            ..self
        }
    }

    /// Transition for leaving the channel: any state goes to
    /// disconnected, and queue and current track are dropped.
    pub open spec fn step_disconnect(self) -> SessionModel {
        SessionModel {
            connection_state: ConnectionState::Disconnected,
            playback_state: PlaybackState::Idle,
            queue: Seq::empty(),
            current: None,
            ..self
        }
    }

    /// Transition for enqueueing a track. When no track is current the
    /// new one becomes current and playback starts at once; otherwise it
    /// is appended to the queue. The boolean reports an immediate start.
    pub open spec fn step_enqueue(self, t: Track) -> (SessionModel, bool) {
        if self.current is None {
            (
                (SessionModel {
                    current: Some(t),
                    playback_state: PlaybackState::Playing,
                    ..self
                }),
                true,
            )
        } else {
            ((SessionModel { queue: self.queue.push(t), ..self }), false)
        }
    }

    /// Transition for skipping the current track: valid only while
    /// playing or paused. A non-empty queue promotes its head and keeps
    /// playing; an empty queue leaves the session idle with no current.
    pub open spec fn step_skip(self) -> (SessionModel, Result<(), SessionError>) {
        if self.playback_state == PlaybackState::Playing
            || self.playback_state == PlaybackState::Paused {
            if self.queue.len() > 0 {
                (
                    (SessionModel {
                        current: Some(self.queue[0]),
                        queue: self.queue.drop_first(),
                        playback_state: PlaybackState::Playing,
                        ..self
                    }),
                    Ok(()),
                )
            } else {
                (
                    (SessionModel {
                        current: None,
                        playback_state: PlaybackState::Idle,
                        ..self
                    }),
                    Ok(()),
                )
            }
        } else {
            (self, Err(SessionError::NotPlaying))
        }
    }

    /// Transition for pausing: valid only while playing.
    pub open spec fn step_pause(self) -> (SessionModel, Result<(), SessionError>) {
        if self.playback_state == PlaybackState::Playing {
            ((SessionModel { playback_state: PlaybackState::Paused, ..self }), Ok(()))
        } else {
            (self, Err(SessionError::NotPlaying))
        }
    }

    /// Transition for resuming: valid only while paused.
    pub open spec fn step_resume(self) -> (SessionModel, Result<(), SessionError>) {
        if self.playback_state == PlaybackState::Paused {
            ((SessionModel { playback_state: PlaybackState::Playing, ..self }), Ok(()))
        } else {
            (self, Err(SessionError::NotPaused))
        }
    }

    /// Transition for stopping: any connected state goes to stopped with
    /// queue and current cleared; the connection itself is kept.
    pub open spec fn step_stop(self) -> (SessionModel, Result<(), SessionError>) {
        if self.connection_state == ConnectionState::Connected {
            (
                (SessionModel {
                    playback_state: PlaybackState::Stopped,
                    queue: Seq::empty(),
                    current: None,
                    ..self
                }),
                Ok(()),
            )
        } else {
            (self, Err(SessionError::NotConnected))
        }
    }

    /// Transition for the mute flag: idempotent, and a request for the
    /// value already held reports `AlreadyInState` without a change.
    pub open spec fn step_set_mute(self, on: bool) -> (SessionModel, Result<(), SessionError>) {
        if self.is_muted == on {
            (self, Err(SessionError::AlreadyInState))
        } else {
            ((SessionModel { is_muted: on, ..self }), Ok(()))
        }
    }

    /// Transition for the deafen flag, exactly as for mute.
    pub open spec fn step_set_deafen(self, on: bool) -> (SessionModel, Result<(), SessionError>) {
        if self.is_deafened == on {
            (self, Err(SessionError::AlreadyInState))
        } else {
            ((SessionModel { is_deafened: on, ..self }), Ok(()))
        }
    }

    /// Transition for setting the current track's volume from a
    /// percentage: the input is clamped into `0 ..= 100`, never rejected.
    pub open spec fn step_set_volume(self, percent: i64) -> (
        SessionModel,
        Result<(), SessionError>,
    ) {
        match self.current {
            Some(t) => (
                (SessionModel {
                    current: Some((Track { volume: clamp_percent(percent), ..t })),
                    ..self
                }),
                Ok(()),
            ),
            None => (self, Err(SessionError::NoCurrentTrack)),
        }
    }
}

/// Clamps a requested volume percentage into `0 ..= 100`.
pub open spec fn clamp_percent(percent: i64) -> u8 {
    if percent < 0 {
        0
    } else if percent > FULL_VOLUME as i64 {
        FULL_VOLUME
    } else {
        percent as u8
    }
}

/// The live playback and connection state for one room: a state machine
/// over connection, playback, a FIFO queue, the current track and the
/// mute and deafen flags.
#[derive(Clone, Debug)]
pub struct Session {
    pub room_id: u64,
    pub connection_state: ConnectionState,
    pub playback_state: PlaybackState,
    pub queue: Vec<Track>,
    pub current: Option<Track>,
    pub is_muted: bool,
    pub is_deafened: bool,
}

impl View for Session {
    type V = SessionModel;

    open spec fn view(&self) -> SessionModel {
        SessionModel {
            room_id: self.room_id,
            connection_state: self.connection_state,
            playback_state: self.playback_state,
            queue: self.queue@,
            current: self.current,
            is_muted: self.is_muted,
            is_deafened: self.is_deafened,
        }
    }
}

impl Session {
    /// Invariant of the executable session, via its model.
    pub open spec fn wf(self) -> bool {
        self@.wf()
    }

    /// A fresh session for a room: disconnected, empty queue, defaults.
    pub fn new(room_id: u64) -> (s: Session)
        ensures
            s@ == SessionModel::init(room_id),
            s.wf(),
    {
        let s = Session {
            room_id,
            connection_state: ConnectionState::Disconnected,
            playback_state: PlaybackState::Idle,
            queue: Vec::new(),
            current: None,
            is_muted: false,
            is_deafened: false,
        };
        proof {
            assert(s@ =~= SessionModel::init(room_id));
        }
        s
    }

    /// Records a connection the provider established.
    pub fn connect(&mut self)
        requires
            old(self).wf(),
            old(self)@.connection_state == ConnectionState::Disconnected,
        ensures
            final(self)@ == old(self)@.step_connect(),
            final(self).wf(),
    {
        self.connection_state = ConnectionState::Connected;
        self.playback_state = PlaybackState::Idle;
    }

    /// Drops the connection, the queue and the current track.
    pub fn disconnect(&mut self)
        requires
            old(self).wf(),
        ensures
            final(self)@ == old(self)@.step_disconnect(),
            final(self).wf(),
    {
        self.connection_state = ConnectionState::Disconnected;
        self.playback_state = PlaybackState::Idle;
        self.queue = Vec::new();
        self.current = None;
        proof {
            assert(final(self)@ =~= old(self)@.step_disconnect());
        }
    }

    /// Enqueues a track; reports whether it started playing at once
    /// (no current track) or was appended behind the current one.
    pub fn enqueue(&mut self, track: Track) -> (started: bool)
        requires
            old(self).wf(),
            old(self)@.connection_state == ConnectionState::Connected,
            track.wf(),
        ensures
            final(self)@ == old(self)@.step_enqueue(track).0,
            started == old(self)@.step_enqueue(track).1,
            started == (old(self)@.current is None),
            final(self).wf(),
    {
        if self.current.is_none() {
            self.current = Some(track);
            self.playback_state = PlaybackState::Playing;
            proof {
                assert(final(self)@ =~= old(self)@.step_enqueue(track).0);
            }
            true
        } else {
            self.queue.push(track);
            proof {
                assert(final(self)@ =~= old(self)@.step_enqueue(track).0);
            }
            false
        }
    }

    /// Skips the current track, promoting the queue's head if any.
    pub fn skip(&mut self) -> (r: Result<(), SessionError>)
        requires
            old(self).wf(),
        ensures
            final(self)@ == old(self)@.step_skip().0,
            r == old(self)@.step_skip().1,
            final(self).wf(),
    {
        match self.playback_state {
            PlaybackState::Playing | PlaybackState::Paused => {
                if self.queue.len() > 0 {
                    let head = self.queue.remove(0);
                    self.current = Some(head);
                    self.playback_state = PlaybackState::Playing;
                    proof {
                        assert(final(self)@.queue =~= old(self)@.queue.drop_first());
                        assert(final(self)@ =~= old(self)@.step_skip().0);
                    }
                } else {
                    self.current = None;
                    self.playback_state = PlaybackState::Idle;
                    proof {
                        assert(final(self)@ =~= old(self)@.step_skip().0);
                    }
                }
                Ok(())
            },
            _ => Err(SessionError::NotPlaying),
        }
    }

    /// Pauses playback; an explicit error when nothing is playing.
    pub fn pause(&mut self) -> (r: Result<(), SessionError>)
        requires
            old(self).wf(),
        ensures
            final(self)@ == old(self)@.step_pause().0,
            r == old(self)@.step_pause().1,
            final(self).wf(),
    {
        match self.playback_state {
            PlaybackState::Playing => {
                self.playback_state = PlaybackState::Paused;
                Ok(())
            },
            _ => Err(SessionError::NotPlaying),
        }
    }

    /// Resumes playback; an explicit error when nothing is paused.
    pub fn resume(&mut self) -> (r: Result<(), SessionError>)
        requires
            old(self).wf(),
        ensures
            final(self)@ == old(self)@.step_resume().0,
            r == old(self)@.step_resume().1,
            final(self).wf(),
    {
        match self.playback_state {
            PlaybackState::Paused => {
                self.playback_state = PlaybackState::Playing;
                Ok(())
            },
            _ => Err(SessionError::NotPaused),
        }
    }

    /// Stops playback and clears the queue; keeps the connection.
    pub fn stop(&mut self) -> (r: Result<(), SessionError>)
        requires
            old(self).wf(),
        ensures
            final(self)@ == old(self)@.step_stop().0,
            r == old(self)@.step_stop().1,
            final(self).wf(),
    {
        match self.connection_state {
            ConnectionState::Connected => {
                self.playback_state = PlaybackState::Stopped;
                self.queue = Vec::new();
                self.current = None;
                proof {
                    assert(final(self)@ =~= old(self)@.step_stop().0);
                }
                Ok(())
            },
            ConnectionState::Disconnected => Err(SessionError::NotConnected),
        }
    }

    /// Sets the mute flag; `AlreadyInState` when it already holds, so
    /// that the caller issues no redundant provider call.
    pub fn set_mute(&mut self, on: bool) -> (r: Result<(), SessionError>)
        requires
            old(self).wf(),
        ensures
            final(self)@ == old(self)@.step_set_mute(on).0,
            r == old(self)@.step_set_mute(on).1,
            final(self).wf(),
    {
        if self.is_muted == on {
            Err(SessionError::AlreadyInState)
        } else {
            self.is_muted = on;
            Ok(())
        }
    }

    /// Sets the deafen flag, exactly as `set_mute` does for mute.
    pub fn set_deafen(&mut self, on: bool) -> (r: Result<(), SessionError>)
        requires
            old(self).wf(),
        ensures
            final(self)@ == old(self)@.step_set_deafen(on).0,
            r == old(self)@.step_set_deafen(on).1,
            final(self).wf(),
    {
        if self.is_deafened == on {
            Err(SessionError::AlreadyInState)
        } else {
            self.is_deafened = on;
            Ok(())
        }
    }

    /// Lists the queued tracks in order with their 1-based positions
    /// and shown titles; the current track is not part of the queue.
    pub fn list_queue(&self) -> (r: Vec<(usize, String)>)
        requires
            self.wf(),
        ensures
            r@.len() == self@.queue.len(),
            forall|i: int|
                0 <= i < r@.len() ==> (#[trigger] r@[i]).0 == i + 1 && r@[i].1@ == title_text(
                    self@.queue[i],
                ),
    {
        let mut out: Vec<(usize, String)> = Vec::new();
        let n = self.queue.len();
        let mut i: usize = 0;
        while i < n
            invariant
                n == self@.queue.len(),
                i <= n,
                out@.len() == i,
                forall|j: int|
                    0 <= j < i ==> (#[trigger] out@[j]).0 == j + 1 && out@[j].1@ == title_text(
                        self@.queue[j],
                    ),
            decreases n - i,
        {
            let title = self.queue[i].display_title();
            out.push((i + 1, title));
            i = i + 1;
        }
        out
    }

    /// Sets the current track's volume from a percentage, clamped into
    /// `0 ..= 100`; an error when no track is current.
    pub fn set_current_volume(&mut self, percent: i64) -> (r: Result<(), SessionError>)
        requires
            old(self).wf(),
        ensures
            final(self)@ == old(self)@.step_set_volume(percent).0,
            r == old(self)@.step_set_volume(percent).1,
            final(self).wf(),
    {
        let cur = self.current.take();
        match cur {
            Some(t) => {
                let clamped: u8 = if percent < 0 {
                    0
                } else if percent > FULL_VOLUME as i64 {
                    FULL_VOLUME
                } else {
                    percent as u8
                };
                self.current = Some(Track { volume: clamped, ..t });
                proof {
                    assert(final(self)@ =~= old(self)@.step_set_volume(percent).0);
                }
                Ok(())
            },
            None => {
                proof {
                    assert(final(self)@ =~= old(self)@);
                }
                Err(SessionError::NoCurrentTrack)
            },
        }
    }
}

} // verus!
