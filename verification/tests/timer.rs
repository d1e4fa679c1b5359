use waybar_module_music::mpris::{MprisIdentity, MprisPlayback};
use waybar_module_music::playback_state::PlaybackState;
use waybar_module_music::player_manager::{PlayerLookup, PlayerManager};
use waybar_module_music::player_timer::PlayerTimer;
use waybar_module_music::position_timer::PositionTimer;

#[test]
fn fresh_timer_is_stopped_at_zero() {
    let timer = PlayerTimer::new();
    assert!(!timer.is_playing());
    assert_eq!(timer.position(), 0);
    assert_eq!(timer.rate(), 1000);
}

#[test]
fn tick_advances_by_interval_times_rate() {
    let mut timer = PlayerTimer::new();
    timer.set_position(10_000_000);
    timer.tick(250, 1000);
    assert_eq!(timer.position(), 10_250_000);
    timer.set_rate(2000);
    timer.tick(250, 1250);
    assert_eq!(timer.position(), 10_750_000);
}

#[test]
fn zero_rate_reads_as_normal_speed() {
    let mut timer = PlayerTimer::new();
    timer.set_rate(0);
    assert_eq!(timer.rate(), 1000);
    timer.tick(250, 0);
    assert_eq!(timer.position(), 250_000);
}

#[test]
fn time_since_last_update_never_goes_negative() {
    let mut timer = PlayerTimer::new();
    timer.tick(250, 1000);
    assert_eq!(timer.time_ms_since_last_update(1400), 400);
    assert_eq!(timer.time_ms_since_last_update(500), 0);
}

#[test]
fn advance_all_ticks_only_playing_sources() {
    let mut store = PositionTimer::new(250);
    store.handle_playback(&"a".to_string(), true);
    store.handle_playback(&"b".to_string(), false);
    store.handle_seek(&"a".to_string(), 10_000_000);
    store.handle_seek(&"b".to_string(), 5_000_000);
    let ticks = store.advance_all(1000);
    assert_eq!(ticks.len(), 1);
    assert_eq!(ticks[0].player_id, "a");
    assert_eq!(ticks[0].position, 10_250_000);
}

#[test]
fn positions_progress_monotonically_across_ticks() {
    // A is playing at 10s with rate 1.0; three ticks at the configured
    // interval advance the position to 10s plus three intervals.
    let mut store = PositionTimer::new(250);
    store.handle_playback(&"a".to_string(), true);
    store.handle_seek(&"a".to_string(), 10_000_000);
    let mut last = 10_000_000u128;
    let expected = [10_250_000u128, 10_500_000, 10_750_000];
    for (round, want) in expected.iter().enumerate() {
        let ticks = store.advance_all(1000 + 250 * round as u64);
        assert_eq!(ticks.len(), 1);
        assert!(ticks[0].position >= last);
        assert_eq!(ticks[0].position, *want);
        last = ticks[0].position;
    }
}

#[test]
fn rate_events_change_the_advance() {
    let mut store = PositionTimer::new(250);
    store.handle_playback(&"a".to_string(), true);
    store.handle_rate(&"a".to_string(), 500);
    let ticks = store.advance_all(250);
    assert_eq!(ticks[0].position, 125_000);
    // A rate of exactly zero stands for normal speed.
    store.handle_rate(&"a".to_string(), 0);
    let ticks = store.advance_all(500);
    assert_eq!(ticks[0].position, 375_000);
}

#[test]
fn any_playing_controls_the_suspension_point() {
    let mut store = PositionTimer::new(250);
    assert!(!store.any_playing());
    store.handle_playback(&"a".to_string(), true);
    assert!(store.any_playing());
    store.handle_playback(&"a".to_string(), false);
    assert!(!store.any_playing());
}

#[test]
fn seek_overrides_the_simulated_clock() {
    let mut store = PositionTimer::new(250);
    store.handle_playback(&"a".to_string(), true);
    store.advance_all(250);
    store.handle_seek(&"a".to_string(), 42_000_000);
    let ticks = store.advance_all(500);
    assert_eq!(ticks[0].position, 42_250_000);
}

#[test]
fn ticks_feed_canonical_state_only_while_active() {
    // A plays at 10s; each tick is re-published as canonical state while
    // A stays the selected active source, and goes silent once another
    // source takes over.
    let mut store = PositionTimer::new(250);
    let mut engine = PlayerManager::new();
    let a = "a".to_string();
    let look = Some(PlayerLookup {
        identity: MprisIdentity::new_with_identity(a.clone(), "Player A".to_string()),
        metadata: waybar_module_music::mpris::MprisMetadata::new(
            a.clone(),
            vec!["Artist".to_string()],
            Some("Album".to_string()),
            Some("Song".to_string()),
            None,
        ),
        playback: None,
    });
    engine.handle_playback_event(
        MprisPlayback::new_with_playing(a.clone(), Some(PlaybackState::Playing)),
        look,
        0,
    );
    store.handle_playback(&a, true);
    store.handle_seek(&a, 10_000_000);

    for round in 0..3u64 {
        let ticks = store.advance_all(250 * (round + 1));
        for tick in &ticks {
            let state = engine
                .handle_tick_event(&tick.player_id, tick.position, round + 1)
                .expect("ticks for the active source are re-published");
            assert_eq!(state.position, 10_000_000 + 250_000 * (round as u128 + 1));
        }
    }

    // Another source starts playing later: A's ticks go silent.
    let b = "b".to_string();
    let look_b = Some(PlayerLookup {
        identity: MprisIdentity::new_with_identity(b.clone(), "Player B".to_string()),
        metadata: waybar_module_music::mpris::MprisMetadata::new(
            b.clone(),
            vec!["Artist".to_string()],
            Some("Album".to_string()),
            Some("Other".to_string()),
            None,
        ),
        playback: None,
    });
    engine.handle_playback_event(
        MprisPlayback::new_with_playing(b.clone(), Some(PlaybackState::Playing)),
        look_b,
        10,
    );
    let ticks = store.advance_all(1000);
    for tick in &ticks {
        assert!(engine.handle_tick_event(&tick.player_id, tick.position, 11).is_none());
    }
}
