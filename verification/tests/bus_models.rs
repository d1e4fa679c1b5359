use waybar_module_music::event_bus::{EventBus, EventType};
use waybar_module_music::mpris::{MprisIdentity, MprisMetadata, MprisPlayback, MprisRate,
    MprisSeeked};
use waybar_module_music::playback_state::PlaybackState;
use waybar_module_music::player_client::PlayerClient;
use waybar_module_music::player_state::PlayerState;
use waybar_module_music::utils::get_current_timestamp;

#[test]
fn bus_fans_out_to_every_subscriber() {
    let (mut bus, _handle) = EventBus::new();
    let rx1 = bus.subscribe(EventType::PlaybackChanged);
    let rx2 = bus.subscribe(EventType::PlaybackChanged);
    let other = bus.subscribe(EventType::Seeked);
    bus.publish(EventType::PlaybackChanged, vec![1, 2, 3]);
    assert_eq!(rx1.try_recv().unwrap(), vec![1, 2, 3]);
    assert_eq!(rx2.try_recv().unwrap(), vec![1, 2, 3]);
    assert!(other.try_recv().is_err());
}

#[test]
fn bus_keeps_order_per_topic() {
    let (mut bus, _handle) = EventBus::new();
    let rx = bus.subscribe(EventType::PlayerTick);
    bus.publish(EventType::PlayerTick, vec![1]);
    bus.publish(EventType::PlayerTick, vec![2]);
    bus.publish(EventType::PlayerTick, vec![3]);
    assert_eq!(rx.try_recv().unwrap(), vec![1]);
    assert_eq!(rx.try_recv().unwrap(), vec![2]);
    assert_eq!(rx.try_recv().unwrap(), vec![3]);
}

#[test]
fn bus_survives_dropped_subscribers() {
    let (mut bus, _handle) = EventBus::new();
    let rx1 = bus.subscribe(EventType::ParseError);
    let rx2 = bus.subscribe(EventType::ParseError);
    drop(rx1);
    bus.publish(EventType::ParseError, vec![9]);
    assert_eq!(rx2.try_recv().unwrap(), vec![9]);
}

#[test]
fn unknown_topics_match_by_name() {
    let (mut bus, _handle) = EventBus::new();
    let rx = bus.subscribe(EventType::Unknown("volume".to_string()));
    bus.publish(EventType::Unknown("other".to_string()), vec![1]);
    assert!(rx.try_recv().is_err());
    bus.publish(EventType::Unknown("volume".to_string()), vec![2]);
    assert_eq!(rx.try_recv().unwrap(), vec![2]);
}

#[test]
fn bus_serves_requests_from_handles() {
    let (mut bus, handle) = EventBus::new();
    let rx = bus.subscribe(EventType::PlayerStateChanged);
    handle.publish(EventType::PlayerStateChanged, vec![7]);
    assert!(bus.run_step());
    assert_eq!(rx.try_recv().unwrap(), vec![7]);
    let second = handle.clone();
    drop(handle);
    second.publish(EventType::PlayerStateChanged, vec![8]);
    assert!(bus.run_step());
    assert_eq!(rx.try_recv().unwrap(), vec![8]);
    drop(second);
    assert!(!bus.run_step());
}

#[test]
fn same_type_distinguishes_topics() {
    assert!(EventType::Seeked.same_type(&EventType::Seeked));
    assert!(!EventType::Seeked.same_type(&EventType::PlayerTick));
    assert!(EventType::Unknown("a".to_string()).same_type(&EventType::Unknown("a".to_string())));
    assert!(!EventType::Unknown("a".to_string()).same_type(&EventType::Unknown("b".to_string())));
    assert!(!EventType::Unknown("a".to_string()).same_type(&EventType::ParseError));
}

#[test]
fn canonical_state_requires_complete_metadata() {
    let full = MprisMetadata::new(
        "id".to_string(),
        vec!["Artist".to_string(), "Second".to_string()],
        Some("Album".to_string()),
        Some("Title".to_string()),
        Some(1000),
    );
    let playback = MprisPlayback::new_with_playing(
        "id".to_string(),
        Some(PlaybackState::Playing),
    );
    let state = PlayerState::from_mpris_data(
        "Name".to_string(),
        full.clone(),
        Some(playback),
        5,
    ).unwrap();
    assert_eq!(state.player_id, "id");
    assert_eq!(state.player_name, "Name");
    assert_eq!(state.artist, "Artist");
    assert_eq!(state.album, "Album");
    assert_eq!(state.title, "Title");
    assert_eq!(state.playing, Some(true));
    assert_eq!(state.position, 5);

    let no_album = MprisMetadata::new(
        "id".to_string(),
        vec!["Artist".to_string()],
        None,
        Some("Title".to_string()),
        None,
    );
    assert!(PlayerState::from_mpris_data("N".to_string(), no_album, None, 0).is_none());

    let no_artist = MprisMetadata::new(
        "id".to_string(),
        vec![],
        Some("Album".to_string()),
        Some("Title".to_string()),
        None,
    );
    assert!(PlayerState::from_mpris_data("N".to_string(), no_artist, None, 0).is_none());

    let unknown_playback = PlayerState::from_mpris_data(
        "N".to_string(),
        full,
        None,
        0,
    ).unwrap();
    assert_eq!(unknown_playback.playing, None);
}

#[test]
fn player_record_tracks_updates() {
    let meta = MprisMetadata::new(
        "id".to_string(),
        vec!["Artist".to_string()],
        Some("Album".to_string()),
        Some("Title".to_string()),
        None,
    );
    let mut record = PlayerClient::new("Name".to_string(), meta, 7);
    assert_eq!(record.name(), "Name");
    assert_eq!(record.get_id(), "id");
    assert_eq!(record.position(), 0);
    assert_eq!(record.last_updated(), 7);
    assert!(!record.playing());
    assert!(record.playback_state().is_none());

    record.update_playback_state(
        MprisPlayback::new_with_playing("id".to_string(), Some(PlaybackState::Playing)),
        9,
    );
    assert!(record.playing());
    assert_eq!(record.last_updated(), 9);

    record.update_position(123, 10);
    assert_eq!(record.position(), 123);

    record.set_name("Other".to_string());
    assert_eq!(record.name(), "Other");

    let meta2 = MprisMetadata::new(
        "id".to_string(),
        vec!["B".to_string()],
        None,
        None,
        Some(1),
    );
    record.update_metadata(meta2);
    assert_eq!(record.metadata().artist, vec!["B".to_string()]);
    assert_eq!(record.metadata().length, Some(1));
}

#[test]
fn event_constructors_mark_unset_values() {
    let seeked = MprisSeeked::new("id".to_string());
    assert_eq!(seeked.timestamp, -1);
    let rate = MprisRate::new("id".to_string());
    assert_eq!(rate.rate_milli, 0);
    let identity = MprisIdentity::new("id".to_string());
    assert_eq!(identity.identity, "");
    let playback = MprisPlayback::new("id".to_string());
    assert!(playback.playing.is_none());
    assert!(!playback.is_playing());
}

#[test]
fn wall_clock_is_available() {
    let a = get_current_timestamp();
    let b = get_current_timestamp();
    assert!(b >= a);
}
