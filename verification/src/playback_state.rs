//! Playback status reported by a media-player source.

use vstd::prelude::*;
use vstd::string::StringExecFns;
use crate::text::{lower_of, lowercase, str_eq};

verus! {

/// The closed set of playback states a source can report. A report that
/// matches none of these is represented as `None` at the call sites.
#[derive(Clone, Copy, Debug, PartialEq, Eq, Structural)]
pub enum PlaybackState {
    Playing,
    Paused,
    Stopped,
}

/// The state named by a report string, compared case-insensitively;
/// `None` for anything else.
pub open spec fn spec_state_of(text: Seq<char>) -> Option<PlaybackState> {
    if lower_of(text) == "playing"@ {
        Some(PlaybackState::Playing)
    } else if lower_of(text) == "paused"@ {
        Some(PlaybackState::Paused)
    } else if lower_of(text) == "stopped"@ {
        Some(PlaybackState::Stopped)
    } else {
        None
    }
}

/// The canonical lower-case name of a state.
pub open spec fn spec_state_name(s: PlaybackState) -> Seq<char> {
    match s {
        PlaybackState::Playing => "playing"@,
        PlaybackState::Paused => "paused"@,
        PlaybackState::Stopped => "stopped"@,
    }
}

impl PlaybackState {
    /// Parses a reported status string, ignoring case.
    pub fn from_string(text: &str) -> (r: Option<PlaybackState>)
        ensures
            r == spec_state_of(text@),
    {
        let low = lowercase(text);
        if str_eq(low.as_str(), "playing") {
            Some(PlaybackState::Playing)
        } else if str_eq(low.as_str(), "paused") {
            Some(PlaybackState::Paused)
        } else if str_eq(low.as_str(), "stopped") {
            Some(PlaybackState::Stopped)
        } else {
            None
        }
    }

    /// The canonical lower-case name of this state.
    pub fn to_string(&self) -> (r: String)
        ensures
            r@ == spec_state_name(*self),
    {
        match self {
            PlaybackState::Playing => String::from_str("playing"),
            PlaybackState::Paused => String::from_str("paused"),
            PlaybackState::Stopped => String::from_str("stopped"),
        }
    }
}

} // verus!
