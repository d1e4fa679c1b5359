use waybar_module_music::mpris::{MprisIdentity, MprisMetadata, MprisPlayback, MprisSeeked};
use waybar_module_music::playback_state::PlaybackState;
use waybar_module_music::player_manager::{PlayerLookup, PlayerManager};

fn meta(id: &str, artist: &str, album: &str, title: &str) -> MprisMetadata {
    MprisMetadata::new(
        id.to_string(),
        vec![artist.to_string()],
        Some(album.to_string()),
        Some(title.to_string()),
        Some(180_000_000),
    )
}

fn lookup(id: &str, name: &str, title: &str) -> Option<PlayerLookup> {
    Some(PlayerLookup {
        identity: MprisIdentity::new_with_identity(id.to_string(), name.to_string()),
        metadata: meta(id, "Some Artist", "Some Album", title),
        playback: None,
    })
}

fn playing(id: &str) -> MprisPlayback {
    MprisPlayback::new_with_playing(id.to_string(), Some(PlaybackState::Playing))
}

fn paused(id: &str) -> MprisPlayback {
    MprisPlayback::new_with_playing(id.to_string(), Some(PlaybackState::Paused))
}

#[test]
fn playing_source_is_emitted() {
    let mut engine = PlayerManager::new();
    let emitted = engine.handle_playback_event(playing("a"), lookup("a", "Player A", "X"), 0);
    let state = emitted.expect("a playing source with complete metadata is emitted");
    assert_eq!(state.player_id, "a");
    assert_eq!(state.title, "X");
    assert_eq!(state.playing, Some(true));
}

#[test]
fn most_recent_playing_source_wins() {
    // Source A reports Playing with title "X" at t=0; source B reports
    // Playing with title "Y" at t=1: the canonical state shows B/"Y".
    let mut engine = PlayerManager::new();
    engine.handle_playback_event(playing("a"), lookup("a", "Player A", "X"), 0);
    let state = engine
        .handle_playback_event(playing("b"), lookup("b", "Player B", "Y"), 1)
        .expect("most recent playing source is emitted");
    assert_eq!(state.player_id, "b");
    assert_eq!(state.title, "Y");

    // B then reports Paused at t=2 with A still Playing: the canonical
    // state reverts to A/"X".
    let state = engine
        .handle_playback_event(paused("b"), None, 2)
        .expect("the still-playing source is emitted");
    assert_eq!(state.player_id, "a");
    assert_eq!(state.title, "X");
}

#[test]
fn no_emission_when_nothing_plays() {
    let mut engine = PlayerManager::new();
    engine.handle_playback_event(playing("a"), lookup("a", "Player A", "X"), 0);
    let emitted = engine.handle_playback_event(paused("a"), None, 1);
    assert!(emitted.is_none());
}

#[test]
fn selection_scans_all_playing_sources() {
    let mut engine = PlayerManager::new();
    engine.handle_playback_event(playing("a"), lookup("a", "Player A", "X"), 0);
    engine.handle_playback_event(playing("b"), lookup("b", "Player B", "Y"), 5);
    engine.handle_playback_event(playing("c"), lookup("c", "Player C", "Z"), 3);
    // C paused: among A (t=0) and B (t=5), B is the most recent.
    let state = engine.handle_playback_event(paused("c"), None, 7).unwrap();
    assert_eq!(state.player_id, "b");
    // B paused too: only A keeps playing.
    let state = engine.handle_playback_event(paused("b"), None, 8).unwrap();
    assert_eq!(state.player_id, "a");
}

#[test]
fn unknown_seek_with_failed_lookup_is_dropped() {
    let mut engine = PlayerManager::new();
    let seek = MprisSeeked::new_with_timestamp("ghost".to_string(), 30_000_000);
    let emitted = engine.handle_seeked_event(seek, None, 0);
    assert!(emitted.is_none());
    assert!(!engine.has_player(&"ghost".to_string()));
    assert_eq!(engine.len(), 0);
}

#[test]
fn unknown_metadata_with_failed_lookup_is_dropped() {
    let mut engine = PlayerManager::new();
    let emitted = engine.handle_metadata_event(meta("ghost", "A", "B", "C"), None, 0);
    assert!(emitted.is_none());
    assert!(!engine.has_player(&"ghost".to_string()));
    assert_eq!(engine.len(), 0);
}

#[test]
fn unknown_playback_with_failed_lookup_is_dropped() {
    let mut engine = PlayerManager::new();
    let emitted = engine.handle_playback_event(playing("ghost"), None, 0);
    assert!(emitted.is_none());
    assert!(!engine.has_player(&"ghost".to_string()));
}

#[test]
fn seek_on_unknown_source_with_successful_lookup_emits_once() {
    // Source A (unknown) seeks to 30s; the lookup succeeds returning
    // title "Z": one canonical-state emission with position=30s, title "Z".
    let mut engine = PlayerManager::new();
    let seek = MprisSeeked::new_with_timestamp("a".to_string(), 30_000_000);
    let state = engine
        .handle_seeked_event(seek, lookup("a", "Player A", "Z"), 4)
        .expect("a seek emits the canonical state");
    assert_eq!(state.player_id, "a");
    assert_eq!(state.title, "Z");
    assert_eq!(state.position, 30_000_000);
    assert!(engine.has_player(&"a".to_string()));
    assert_eq!(engine.len(), 1);
}

#[test]
fn lookup_playback_backfills_a_fresh_record() {
    // The out-of-band lookup may also return the source's current
    // playback status; a fresh record starts from it.
    let mut engine = PlayerManager::new();
    let seek = MprisSeeked::new_with_timestamp("a".to_string(), 30_000_000);
    let look = Some(PlayerLookup {
        identity: MprisIdentity::new_with_identity("a".to_string(), "Player A".to_string()),
        metadata: meta("a", "Artist", "Album", "Z"),
        playback: Some(playing("a")),
    });
    let state = engine.handle_seeked_event(seek, look, 4).unwrap();
    assert_eq!(state.playing, Some(true));
    assert_eq!(state.position, 30_000_000);
}

#[test]
fn metadata_event_is_idempotent_for_active_source() {
    // Publishing the same metadata event twice for an already-active
    // source yields the same canonical state both times.
    let mut engine = PlayerManager::new();
    engine.handle_playback_event(playing("a"), lookup("a", "Player A", "X"), 0);
    let first = engine.handle_metadata_event(meta("a", "Artist", "Album", "New"), None, 1);
    let second = engine.handle_metadata_event(meta("a", "Artist", "Album", "New"), None, 2);
    let first = first.expect("an active source's metadata update is emitted");
    let second = second.expect("the repeated update is emitted again");
    assert_eq!(first.player_id, second.player_id);
    assert_eq!(first.player_name, second.player_name);
    assert_eq!(first.artist, second.artist);
    assert_eq!(first.album, second.album);
    assert_eq!(first.title, second.title);
    assert_eq!(first.playing, second.playing);
    assert_eq!(first.position, second.position);
    assert_eq!(engine.len(), 1);
}

#[test]
fn metadata_with_incomplete_fields_is_not_emitted() {
    let mut engine = PlayerManager::new();
    engine.handle_playback_event(playing("a"), lookup("a", "Player A", "X"), 0);
    let incomplete = MprisMetadata::new("a".to_string(), vec![], None, None, None);
    let emitted = engine.handle_metadata_event(incomplete, None, 1);
    assert!(emitted.is_none());
}

#[test]
fn tick_for_non_active_source_is_not_emitted() {
    // Ticks for a background source never change the published state.
    let mut engine = PlayerManager::new();
    engine.handle_playback_event(playing("a"), lookup("a", "Player A", "X"), 0);
    engine.handle_playback_event(playing("b"), lookup("b", "Player B", "Y"), 1);
    // B is the selected active source; a tick for A stays silent.
    let emitted = engine.handle_tick_event(&"a".to_string(), 1_000_000, 2);
    assert!(emitted.is_none());
    // A tick for B is re-published with the advanced position.
    let state = engine.handle_tick_event(&"b".to_string(), 2_000_000, 2).unwrap();
    assert_eq!(state.player_id, "b");
    assert_eq!(state.position, 2_000_000);
}

#[test]
fn tick_for_unknown_source_is_ignored() {
    let mut engine = PlayerManager::new();
    let emitted = engine.handle_tick_event(&"ghost".to_string(), 1_000_000, 0);
    assert!(emitted.is_none());
    assert_eq!(engine.len(), 0);
}

#[test]
fn seek_updates_position_of_known_source() {
    let mut engine = PlayerManager::new();
    engine.handle_playback_event(playing("a"), lookup("a", "Player A", "X"), 0);
    let seek = MprisSeeked::new_with_timestamp("a".to_string(), 90_000_000);
    let state = engine.handle_seeked_event(seek, None, 1).unwrap();
    assert_eq!(state.position, 90_000_000);
    assert_eq!(engine.len(), 1);
}

#[test]
fn metadata_for_paused_source_defers_to_more_recent_player() {
    let mut engine = PlayerManager::new();
    engine.handle_playback_event(playing("a"), lookup("a", "Player A", "X"), 0);
    engine.handle_playback_event(paused("b"), lookup("b", "Player B", "Y"), 5);
    // B is paused and A has an older activity timestamp than B, so no
    // playing source is more recent than B: the update qualifies.
    let emitted = engine.handle_metadata_event(meta("b", "Artist", "Album", "Y2"), None, 6);
    assert!(emitted.is_some());
    // A playback bump for A makes A more recent; B's update no longer
    // qualifies.
    engine.handle_playback_event(playing("a"), None, 7);
    let emitted = engine.handle_metadata_event(meta("b", "Artist", "Album", "Y3"), None, 8);
    assert!(emitted.is_none());
}
