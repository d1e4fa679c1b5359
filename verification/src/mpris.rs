//! Typed domain events decoded from a media-player source's native
//! messages, and their mathematical views.

use vstd::prelude::*;
use crate::playback_state::PlaybackState;

verus! {

/// Track metadata reported by a source. A missing artist, album or title
/// means "unknown", not "empty string".
pub struct MprisMetadata {
    pub player_id: String,
    pub artist: Vec<String>,
    pub album: Option<String>,
    pub title: Option<String>,
    /// Total track length in microseconds, when known.
    pub length: Option<u128>,
}

pub struct MprisMetadataV {
    pub player_id: Seq<char>,
    pub artist: Seq<Seq<char>>,
    pub album: Option<Seq<char>>,
    pub title: Option<Seq<char>>,
    pub length: Option<u128>,
}

impl View for MprisMetadata {
    type V = MprisMetadataV;

    open spec fn view(&self) -> MprisMetadataV {
        MprisMetadataV {
            player_id: self.player_id@,
            artist: self.artist.deep_view(),
            album: self.album.deep_view(),
            title: self.title.deep_view(),
            length: self.length,
        }
    }
}

impl MprisMetadata {
    pub fn new(
        player_id: String,
        artist: Vec<String>,
        album: Option<String>,
        title: Option<String>,
        length: Option<u128>,
    ) -> (r: MprisMetadata)
        ensures
            r@ == (MprisMetadataV {
                player_id: player_id@,
                artist: artist.deep_view(),
                album: album.deep_view(),
                title: title.deep_view(),
                length,
            }),
    {
        MprisMetadata { player_id, artist, album, title, length }
    }
}

impl Clone for MprisMetadata {
    fn clone(&self) -> (r: Self)
        ensures
            r@ == self@,
    {
        let artist_copy = self.artist.clone();
        proof {
            assert(artist_copy.deep_view() =~= self.artist.deep_view()) by {
                assert(forall|i: int| 0 <= i < artist_copy@.len() ==> artist_copy@[i]
                    == self.artist@[i]);
            }
        }
        MprisMetadata {
            player_id: self.player_id.clone(),
            artist: artist_copy,
            album: clone_opt_string(&self.album),
            title: clone_opt_string(&self.title),
            length: self.length,
        }
    }
}

/// Copies an optional string.
pub fn clone_opt_string(s: &Option<String>) -> (r: Option<String>)
    ensures
        r.deep_view() == s.deep_view(),
{
    match s {
        Some(v) => Some(v.clone()),
        None => None,
    }
}

/// A playback-status report from a source; `playing` is `None` when the
/// reported status matched no known state.
pub struct MprisPlayback {
    pub player_id: String,
    pub playing: Option<PlaybackState>,
}

pub struct MprisPlaybackV {
    pub player_id: Seq<char>,
    pub playing: Option<PlaybackState>,
}

impl View for MprisPlayback {
    type V = MprisPlaybackV;

    open spec fn view(&self) -> MprisPlaybackV {
        MprisPlaybackV { player_id: self.player_id@, playing: self.playing }
    }
}

/// The report says the source is actively playing.
pub open spec fn spec_playback_is_playing(p: MprisPlaybackV) -> bool {
    p.playing == Some(PlaybackState::Playing)
}

impl MprisPlayback {
    pub fn new(player_id: String) -> (r: MprisPlayback)
        ensures
            r@ == (MprisPlaybackV { player_id: player_id@, playing: None }),
    {
        MprisPlayback { player_id, playing: None }
    }

    pub fn new_with_playing(player_id: String, playing: Option<PlaybackState>) -> (r:
        MprisPlayback)
        ensures
            r@ == (MprisPlaybackV { player_id: player_id@, playing }),
    {
        MprisPlayback { player_id, playing }
    }

    pub fn is_playing(&self) -> (r: bool)
        ensures
            r == spec_playback_is_playing(self@),
    {
        match self.playing {
            Some(PlaybackState::Playing) => true,
            _ => false,
        }
    }
}

impl Clone for MprisPlayback {
    fn clone(&self) -> (r: Self)
        ensures
            r@ == self@,
    {
        MprisPlayback { player_id: self.player_id.clone(), playing: self.playing }
    }
}

/// An authoritative position correction, independent of the simulated
/// clock. The position is in microseconds.
pub struct MprisSeeked {
    pub player_id: String,
    pub timestamp: i64,
}

pub struct MprisSeekedV {
    pub player_id: Seq<char>,
    pub timestamp: i64,
}

impl View for MprisSeeked {
    type V = MprisSeekedV;

    open spec fn view(&self) -> MprisSeekedV {
        MprisSeekedV { player_id: self.player_id@, timestamp: self.timestamp }
    }
}

impl MprisSeeked {
    /// A seek report before its position is decoded; `-1` marks "not set".
    pub fn new(player_id: String) -> (r: MprisSeeked)
        ensures
            r@ == (MprisSeekedV { player_id: player_id@, timestamp: -1i64 }),
    {
        MprisSeeked { player_id, timestamp: -1 }
    }

    pub fn new_with_timestamp(player_id: String, timestamp: i64) -> (r: MprisSeeked)
        ensures
            r@ == (MprisSeekedV { player_id: player_id@, timestamp }),
    {
        MprisSeeked { player_id, timestamp }
    }
}

/// A source's self-reported display name.
pub struct MprisIdentity {
    pub player_id: String,
    pub identity: String,
}

pub struct MprisIdentityV {
    pub player_id: Seq<char>,
    pub identity: Seq<char>,
}

impl View for MprisIdentity {
    type V = MprisIdentityV;

    open spec fn view(&self) -> MprisIdentityV {
        MprisIdentityV { player_id: self.player_id@, identity: self.identity@ }
    }
}

impl MprisIdentity {
    /// An identity before the display name is known.
    pub fn new(player_id: String) -> (r: MprisIdentity)
        ensures
            r@ == (MprisIdentityV { player_id: player_id@, identity: Seq::<char>::empty() }),
    {
        MprisIdentity { player_id, identity: String::new() }
    }

    pub fn new_with_identity(player_id: String, identity: String) -> (r: MprisIdentity)
        ensures
            r@ == (MprisIdentityV { player_id: player_id@, identity: identity@ }),
    {
        MprisIdentity { player_id, identity }
    }
}

/// A playback-rate report. The rate is a multiplier in thousandths:
/// `1000` is normal speed. A reported rate of exactly `0` stands for a
/// meaningless report and is treated as normal speed by the timer.
pub struct MprisRate {
    pub player_id: String,
    pub rate_milli: u32,
}

pub struct MprisRateV {
    pub player_id: Seq<char>,
    pub rate_milli: u32,
}

impl View for MprisRate {
    type V = MprisRateV;

    open spec fn view(&self) -> MprisRateV {
        MprisRateV { player_id: self.player_id@, rate_milli: self.rate_milli }
    }
}

impl MprisRate {
    /// A rate report before its value is decoded; `0` marks "not set".
    pub fn new(player_id: String) -> (r: MprisRate)
        ensures
            r@ == (MprisRateV { player_id: player_id@, rate_milli: 0 }),
    {
        MprisRate { player_id, rate_milli: 0 }
    }
}

} // verus!
