use vstd::prelude::*;
use crate::router::Reply;
use crate::text::{spec_u64_string, u64_to_string};

verus! {

/// One line of the queue listing: `3. **title**` and a line break.
pub open spec fn spec_listing_entry(position: int, title: Seq<char>) -> Seq<char> {
    spec_u64_string(position) + ". **"@ + title + "**\n"@
}

/// The queue listing's lines, in order.
pub open spec fn spec_listing(v: Seq<(usize, String)>) -> Seq<char>
    decreases v.len(),
{
    if v.len() == 0 {
        Seq::empty()
    } else {
        spec_listing(v.drop_last()) + spec_listing_entry(v.last().0 as int, v.last().1@)
    }
}

/// The exact chat text of each reply.
pub open spec fn spec_render(r: Reply) -> Seq<char> {
    match r {
        Reply::Pong => "Pong!"@,
        Reply::NotInVoice => "Not in a voice channel"@,
        Reply::RoomsOnly => "This command can only be used in a room"@,
        Reply::JoinFailed => "Failed to join voice channel"@,
        Reply::LeftVoice => "Left voice channel"@,
        Reply::Stopped => "Stopped"@,
        Reply::NotInVoiceToPlay => "Not in a voice channel to play in"@,
        Reply::NotInVoiceToStop => "Not in a voice channel to stop"@,
        Reply::NotInVoiceToUndeafen => "Not in a voice channel to undeafen in"@,
        Reply::NotInVoiceToUnmute => "Not in a voice channel to unmute in"@,
        Reply::UsagePlay => "Must provide a URL to a video or audio"@,
        Reply::InvalidUrl => "Must provide a valid URL"@,
        Reply::UsageVolume => "Numeric value from 1 to 100 is needed"@,
        Reply::PauseFailed => "Failed to pause track: nothing is playing"@,
        Reply::ResumeFailed => "Failed to resume track: nothing is paused"@,
        Reply::SkipFailed => "Couldn't skip track: nothing is playing"@,
        Reply::NowMuted => "Now muted"@,
        Reply::AlreadyMuted => "Already muted"@,
        Reply::Unmuted => "Unmuted"@,
        Reply::AlreadyUnmuted => "Already unmuted"@,
        Reply::Deafened => "Deafened"@,
        Reply::AlreadyDeafened => "Already deafened"@,
        Reply::Undeafened => "Undeafened"@,
        Reply::AlreadyUndeafened => "Already undeafened"@,
        Reply::EmptyQueue => "Current song list is empty :("@,
        Reply::QueueListing(v) => "Current song list:\n"@ + spec_listing(v@),
        Reply::Playing(t) => "Playing: **"@ + t@ + "**"@,
        Reply::QueuedBehind(t) => "Song placed in queue and will be played after **"@ + t@
            + "**"@,
        Reply::ResolveFailed(e) => "Error starting source "@ + e@,
        Reply::WeatherKeyMissing => "You did not specify openweather api key in configuration file"@,
        Reply::WeatherFailed => "Weather lookup failed"@,
    }
}

/// Writes a reply as the exact chat text `spec_render` states.
pub fn render_reply(r: &Reply) -> (out: String)
    ensures
        out@ == spec_render(*r),
{
    match r {
        Reply::Pong => "Pong!".to_owned(),
        Reply::NotInVoice => "Not in a voice channel".to_owned(),
        Reply::RoomsOnly => "This command can only be used in a room".to_owned(),
        Reply::JoinFailed => "Failed to join voice channel".to_owned(),
        Reply::LeftVoice => "Left voice channel".to_owned(),
        Reply::Stopped => "Stopped".to_owned(),
        Reply::NotInVoiceToPlay => "Not in a voice channel to play in".to_owned(),
        Reply::NotInVoiceToStop => "Not in a voice channel to stop".to_owned(),
        Reply::NotInVoiceToUndeafen => "Not in a voice channel to undeafen in".to_owned(),
        Reply::NotInVoiceToUnmute => "Not in a voice channel to unmute in".to_owned(),
        Reply::UsagePlay => "Must provide a URL to a video or audio".to_owned(),
        Reply::InvalidUrl => "Must provide a valid URL".to_owned(),
        Reply::UsageVolume => "Numeric value from 1 to 100 is needed".to_owned(),
        Reply::PauseFailed => "Failed to pause track: nothing is playing".to_owned(),
        Reply::ResumeFailed => "Failed to resume track: nothing is paused".to_owned(),
        Reply::SkipFailed => "Couldn't skip track: nothing is playing".to_owned(),
        Reply::NowMuted => "Now muted".to_owned(),
        Reply::AlreadyMuted => "Already muted".to_owned(),
        Reply::Unmuted => "Unmuted".to_owned(),
        Reply::AlreadyUnmuted => "Already unmuted".to_owned(),
        Reply::Deafened => "Deafened".to_owned(),
        Reply::AlreadyDeafened => "Already deafened".to_owned(),
        Reply::Undeafened => "Undeafened".to_owned(),
        Reply::AlreadyUndeafened => "Already undeafened".to_owned(),
        Reply::EmptyQueue => "Current song list is empty :(".to_owned(),
        Reply::QueueListing(v) => {
            let mut out = "Current song list:\n".to_owned();
            let n = v.len();
            let mut i: usize = 0;
            while i < n
                invariant
                    n == v@.len(),
                    i <= n,
                    out@ == "Current song list:\n"@ + spec_listing(v@.subrange(0, i as int)),
                decreases n - i,
            {
                let num = u64_to_string(v[i].0 as u64);
                out.append(num.as_str());
                out.append(". **");
                out.append(v[i].1.as_str());
                out.append("**\n");
                proof {
                    let pre = v@.subrange(0, i as int);
                    let cur = v@.subrange(0, i as int + 1);
                    assert(cur.drop_last() =~= pre);
                    assert(cur.last() == v@[i as int]);
                    assert(out@ =~= "Current song list:\n"@ + spec_listing(cur));
                }
                i = i + 1;
            }
            proof {
                assert(v@.subrange(0, n as int) =~= v@);
            }
            out
        },
        Reply::Playing(t) => {
            let mut out = "Playing: **".to_owned();
            out.append(t.as_str());
            out.append("**");
            proof {
                assert(out@ =~= spec_render(*r));
            }
            out
        },
        Reply::QueuedBehind(t) => {
            let mut out = "Song placed in queue and will be played after **".to_owned();
            out.append(t.as_str());
            out.append("**");
            proof {
                assert(out@ =~= spec_render(*r));
            }
            out
        },
        Reply::ResolveFailed(e) => {
            let mut out = "Error starting source ".to_owned();
            out.append(e.as_str());
            proof {
                assert(out@ =~= spec_render(*r));
            }
            out
        },
        Reply::WeatherKeyMissing => {
            "You did not specify openweather api key in configuration file".to_owned()
        },
        Reply::WeatherFailed => "Weather lookup failed".to_owned(),
    }
}

} // verus!
