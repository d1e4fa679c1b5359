//! The canonical "currently active player" view that the engine publishes
//! for rendering.

use vstd::prelude::*;
use crate::mpris::{clone_opt_string, MprisMetadata, MprisMetadataV, MprisPlayback,
    MprisPlaybackV};
use crate::playback_state::PlaybackState;

verus! {

/// The single consolidated player view. Published only when derived from
/// the record currently selected as active.
pub struct PlayerState {
    pub player_id: String,
    pub player_name: String,
    pub artist: String,
    pub album: String,
    pub title: String,
    pub playing: Option<bool>,
    /// Interpolated playback position in microseconds.
    pub position: u128,
}

pub struct PlayerStateV {
    pub player_id: Seq<char>,
    pub player_name: Seq<char>,
    pub artist: Seq<char>,
    pub album: Seq<char>,
    pub title: Seq<char>,
    pub playing: Option<bool>,
    pub position: u128,
}

impl View for PlayerState {
    type V = PlayerStateV;

    open spec fn view(&self) -> PlayerStateV {
        PlayerStateV {
            player_id: self.player_id@,
            player_name: self.player_name@,
            artist: self.artist@,
            album: self.album@,
            title: self.title@,
            playing: self.playing,
            position: self.position,
        }
    }
}

/// The view of an optional canonical state.
pub open spec fn opt_state_view(r: Option<PlayerState>) -> Option<PlayerStateV> {
    match r {
        Some(s) => Some(s@),
        None => None,
    }
}

/// The `playing` flag derived from an optional playback report: unknown
/// when there is no report or the report matched no known state.
pub open spec fn spec_playing_flag(p: Option<MprisPlaybackV>) -> Option<bool> {
    match p {
        Some(pb) => match pb.playing {
            Some(st) => Some(st == PlaybackState::Playing),
            None => None,
        },
        None => None,
    }
}

/// The canonical state derived from a record's fields, or `None` when the
/// metadata is missing an artist, album or title.
pub open spec fn spec_from_mpris(
    name: Seq<char>,
    m: MprisMetadataV,
    p: Option<MprisPlaybackV>,
    position: u128,
) -> Option<PlayerStateV> {
    if m.artist.len() > 0 && m.album is Some && m.title is Some {
        Some(
            PlayerStateV {
                player_id: m.player_id,
                player_name: name,
                artist: m.artist[0],
                album: m.album->0,
                title: m.title->0,
                playing: spec_playing_flag(p),
                position,
            },
        )
    } else {
        None
    }
}

impl PlayerState {
    pub fn new(
        player_id: String,
        player_name: String,
        artist: String,
        album: String,
        title: String,
        playing: Option<bool>,
        position: u128,
    ) -> (r: PlayerState)
        ensures
            r@ == (PlayerStateV {
                player_id: player_id@,
                player_name: player_name@,
                artist: artist@,
                album: album@,
                title: title@,
                playing,
                position,
            }),
    {
        PlayerState { player_id, player_name, artist, album, title, playing, position }
    }

    /// Builds the canonical state from a record's fields; `None` when the
    /// metadata is incomplete.
    pub fn from_mpris_data(
        player_name: String,
        metadata: MprisMetadata,
        playback: Option<MprisPlayback>,
        position: u128,
    ) -> (r: Option<PlayerState>)
        ensures
            opt_state_view(r) == spec_from_mpris(
                player_name@,
                metadata@,
                match playback {
                    Some(p) => Some(p@),
                    None => None,
                },
                position,
            ),
    {
        if metadata.artist.len() == 0 {
            return None;
        }
        let album = match clone_opt_string(&metadata.album) {
            Some(a) => a,
            None => {
                return None;
            },
        };
        let title = match clone_opt_string(&metadata.title) {
            Some(t) => t,
            None => {
                return None;
            },
        };
        let playing: Option<bool> = match &playback {
            Some(pb) => match pb.playing {
                Some(st) => Some(match st {
                    PlaybackState::Playing => true,
                    _ => false,
                }),
                None => None,
            },
            None => None,
        };
        let artist = metadata.artist[0].clone();
        Some(
            PlayerState {
                player_id: metadata.player_id,
                player_name,
                artist,
                album,
                title,
                playing,
                position,
            },
        )
    }
}

impl Clone for PlayerState {
    fn clone(&self) -> (r: Self)
        ensures
            r@ == self@,
    {
        PlayerState {
            player_id: self.player_id.clone(),
            player_name: self.player_name.clone(),
            artist: self.artist.clone(),
            album: self.album.clone(),
            title: self.title.clone(),
            playing: self.playing,
            position: self.position,
        }
    }
}

} // verus!
