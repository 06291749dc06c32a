use vstd::prelude::*;

verus! {

/// A track's volume is a percentage of full scale, held as an integer
/// in `0 ..= 100`; the media provider receives it as a fraction of 1.
pub const FULL_VOLUME: u8 = 100;

/// One queued or currently playing audio item.
///
/// A track is immutable once appended to a queue, except for `volume`,
/// which may change while the track is the session's current one.
#[derive(Clone, Debug)]
pub struct Track {
    /// Address of the audio source, required.
    pub source_locator: String,
    /// Title shown in listings and status messages, when known.
    pub title: Option<String>,
    /// Playback volume as a percentage in `0 ..= 100`.
    pub volume: u8,
}

/// The title a track shows in listings and status messages, or the
/// fallback wording when none is known.
pub open spec fn title_text(t: Track) -> Seq<char> {
    match t.title {
        Some(s) => s@,
        None => "Unable to get title"@,
    }
}

impl Track {
    /// A track is well formed when its volume percentage is in range.
    pub open spec fn wf(self) -> bool {
        self.volume <= FULL_VOLUME
    }

    /// The shown title: the track's own, or the fallback wording.
    pub fn display_title(&self) -> (r: String)
        ensures
            r@ == title_text(*self),
    {
        match &self.title {
            Some(s) => s.clone(),
            None => "Unable to get title".to_owned(),
        }
    }

    /// Builds a track at the default full volume.
    pub fn new(source_locator: String, title: Option<String>) -> (t: Track)
        ensures
            t.source_locator == source_locator,
            t.title == title,
            t.volume == FULL_VOLUME,
            t.wf(),
    {
        Track { source_locator, title, volume: FULL_VOLUME }
    }
}

} // verus!
