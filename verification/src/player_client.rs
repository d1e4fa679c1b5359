//! One logical player record per known source, owned by the
//! reconciliation engine.

use vstd::prelude::*;
use crate::mpris::{MprisMetadata, MprisMetadataV, MprisPlayback, MprisPlaybackV};
use crate::playback_state::PlaybackState;

verus! {

/// The engine's record for one source: current metadata, current playback
/// status, current interpolated position, and activity timestamps.
pub struct PlayerClient {
    player_name: String,
    metadata: MprisMetadata,
    playback_state: Option<MprisPlayback>,
    current_position: u128,
    /// Timestamp of the last playback-status update, in seconds.
    last_updated: u64,
    /// Timestamp of the last position tick, in seconds.
    last_tick: Option<u64>,
}

pub struct PlayerClientV {
    pub player_name: Seq<char>,
    pub metadata: MprisMetadataV,
    pub playback_state: Option<MprisPlaybackV>,
    pub current_position: u128,
    pub last_updated: u64,
    pub last_tick: Option<u64>,
}

impl View for PlayerClient {
    type V = PlayerClientV;

    closed spec fn view(&self) -> PlayerClientV {
        PlayerClientV {
            player_name: self.player_name@,
            metadata: self.metadata@,
            playback_state: match self.playback_state {
                Some(ref p) => Some(p@),
                None => None,
            },
            current_position: self.current_position,
            last_updated: self.last_updated,
            last_tick: self.last_tick,
        }
    }
}

/// The record's source reports that it is actively playing.
pub open spec fn spec_client_playing(r: PlayerClientV) -> bool {
    match r.playback_state {
        Some(p) => p.playing == Some(PlaybackState::Playing),
        None => false,
    }
}

impl PlayerClient {
    /// A fresh record for a newly discovered source; `now` is the creation
    /// timestamp in seconds.
    pub fn new(player_name: String, metadata: MprisMetadata, now: u64) -> (r: PlayerClient)
        ensures
            r@ == (PlayerClientV {
                player_name: player_name@,
                metadata: metadata@,
                playback_state: None,
                current_position: 0,
                last_updated: now,
                last_tick: None,
            }),
    {
        PlayerClient {
            player_name,
            metadata,
            playback_state: None,
            current_position: 0,
            last_updated: now,
            last_tick: None,
        }
    }

    pub fn set_name(&mut self, name: String)
        ensures
            final(self)@ == (PlayerClientV { player_name: name@, ..old(self)@ }),
    {
        self.player_name = name;
    }

    pub fn name(&self) -> (r: &String)
        ensures
            r@ == self@.player_name,
    {
        &self.player_name
    }

    pub fn get_id(&self) -> (r: String)
        ensures
            r@ == self@.metadata.player_id,
    {
        self.metadata.player_id.clone()
    }

    pub fn metadata(&self) -> (r: MprisMetadata)
        ensures
            r@ == self@.metadata,
    {
        self.metadata.clone()
    }

    pub fn playback_state(&self) -> (r: Option<MprisPlayback>)
        ensures
            match r {
                Some(p) => self@.playback_state == Some(p@),
                None => self@.playback_state is None,
            },
    {
        match &self.playback_state {
            Some(p) => Some(p.clone()),
            None => None,
        }
    }

    /// Timestamp of the last playback-status update, in seconds.
    pub fn last_updated(&self) -> (r: u64)
        ensures
            r == self@.last_updated,
    {
        self.last_updated
    }

    pub fn position(&self) -> (r: u128)
        ensures
            r == self@.current_position,
    {
        self.current_position
    }

    /// Whether this record's source is actively playing; an unknown status
    /// counts as not playing.
    pub fn playing(&self) -> (r: bool)
        ensures
            r == spec_client_playing(self@),
    {
        match &self.playback_state {
            Some(p) => p.is_playing(),
            None => false,
        }
    }

    /// Replaces the metadata. Metadata is not an activity signal, so the
    /// activity timestamp is left alone.
    pub fn update_metadata(&mut self, metadata: MprisMetadata)
        ensures
            final(self)@ == (PlayerClientV { metadata: metadata@, ..old(self)@ }),
    {
        self.metadata = metadata;
    }

    /// Replaces the playback status and records the activity timestamp.
    pub fn update_playback_state(&mut self, playback_state: MprisPlayback, now: u64)
        ensures
            final(self)@ == (PlayerClientV {
                playback_state: Some(playback_state@),
                last_updated: now,
                ..old(self)@
            }),
    {
        self.playback_state = Some(playback_state);
        self.last_updated = now;
    }

    /// Replaces the interpolated position and records the tick timestamp.
    pub fn update_position(&mut self, position: u128, now: u64)
        ensures
            final(self)@ == (PlayerClientV {
                current_position: position,
                last_tick: Some(now),
                ..old(self)@
            }),
    {
        self.current_position = position;
        self.last_tick = Some(now);
    }
}

} // verus!
