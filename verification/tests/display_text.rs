use waybar_module_music::args::Args;
use waybar_module_music::config::Config;
use waybar_module_music::dbus_monitor::{DBusMonitor, SignalInfo};
use waybar_module_music::display::{Display, DisplayFields};
use waybar_module_music::ellipsis::Ellipsis;
use waybar_module_music::event_bus::{EventBus, EventType};
use waybar_module_music::marquee::Marquee;
use waybar_module_music::playback_state::PlaybackState;
use waybar_module_music::player_state::PlayerState;
use waybar_module_music::text_effect::{EffectKind, TextEffect};
use waybar_module_music::utils::{microseconds_to_formatted_time, strip_until_match};

fn state(title: &str, artist: &str, album: &str, player: &str, playing: Option<bool>)
    -> PlayerState {
    PlayerState::new(
        "id".to_string(),
        player.to_string(),
        artist.to_string(),
        album.to_string(),
        title.to_string(),
        playing,
        0,
    )
}

#[test]
fn formatted_time_renders_minutes_and_seconds() {
    assert_eq!(microseconds_to_formatted_time(0), "00:00");
    assert_eq!(microseconds_to_formatted_time(65_000_000), "01:05");
    assert_eq!(microseconds_to_formatted_time(599_999_999), "09:59");
    assert_eq!(microseconds_to_formatted_time(3_600_000_000), "60:00");
    assert_eq!(microseconds_to_formatted_time(6_000_000_000), "100:00");
}

#[test]
fn default_args_match_the_command_line_defaults() {
    let args = Args::default();
    assert!(args.whitelist.is_empty());
    assert_eq!(args.play_icon, "");
    assert_eq!(args.pause_icon, "");
    assert_eq!(args.format, "[ %icon% ] %artist% - %title%");
    assert_eq!(args.delay_on_loop, 0);
    assert_eq!(args.effect_speed, 200);
    assert_eq!(args.artist_width, 0);
    assert_eq!(args.title_width, 20);
    assert!(!args.marquee);
    assert!(!args.ellipsis);
}

#[test]
fn strip_until_match_is_case_insensitive() {
    assert_eq!(strip_until_match("ABC -", "abc - Song"), " Song");
    assert_eq!(strip_until_match("abc -", "The ABC - Song"), " Song");
    assert_eq!(strip_until_match("xyz", "abc - Song"), "abc - Song");
    assert_eq!(strip_until_match("", "abc"), "abc");
}

#[test]
fn sanitize_title_removes_leading_artist() {
    let cleaned = Display::sanitize_title("Artist - Song".to_string(), "artist");
    assert_eq!(cleaned, " Song");
    let untouched = Display::sanitize_title("Song Title".to_string(), "artist");
    assert_eq!(untouched, "Song Title");
}

#[test]
fn marquee_rotates_long_text() {
    let mut marquee = Marquee::new(5);
    assert_eq!(marquee.apply("hello".to_string()), "hello");
    assert_eq!(marquee.apply("helloworld".to_string()), "hello");
    assert_eq!(marquee.apply("helloworld".to_string()), "ellow");
    assert_eq!(marquee.apply("helloworld".to_string()), "llowo");
}

#[test]
fn marquee_wraps_past_the_padding() {
    let mut marquee = Marquee::new(4);
    // "ab" plus five spaces wraps after seven applications.
    let text = "abcde".to_string();
    let mut seen = Vec::new();
    for _ in 0..10 {
        seen.push(marquee.apply(text.clone()));
    }
    assert_eq!(seen[0], "abcd");
    assert_eq!(seen[1], "bcde");
    assert_eq!(seen[5], "    ");
    assert_eq!(seen[7], "   a");
    // After a full cycle of ten positions the window repeats.
    assert_eq!(seen[0], marquee.apply(text.clone()));
}

#[test]
fn marquee_activity_tracks_text_length() {
    let mut marquee = Marquee::new(5);
    marquee.set_text("short".to_string());
    assert!(!marquee.is_active());
    marquee.set_text("much longer".to_string());
    assert!(marquee.is_active());
    let mut unlimited = Marquee::new(0);
    unlimited.set_text("anything at all".to_string());
    assert!(!unlimited.is_active());
}

#[test]
fn ellipsis_truncates_long_text() {
    let mut ellipsis = Ellipsis::new(5);
    assert_eq!(ellipsis.apply("hello".to_string()), "hello");
    assert_eq!(ellipsis.apply("hello world".to_string()), "hello...");
    let mut unlimited = Ellipsis::new(0);
    assert_eq!(unlimited.apply("hello world".to_string()), "hello world");
    assert!(!ellipsis.is_active());
    ellipsis.set_text("x".to_string());
    assert!(ellipsis.is_active());
}

#[test]
fn text_effect_rate_limits_drawing() {
    let mut field = TextEffect::new(200, 1000);
    // Within the interval the remembered output is repeated.
    assert_eq!(field.draw("abc", 1100), "");
    // Past the interval the text is drawn.
    assert_eq!(field.draw("abc", 1200), "abc");
    // And remembered.
    assert_eq!(field.draw("next", 1300), "abc");
    assert_eq!(field.draw("next", 1400), "next");
}

#[test]
fn text_effect_applies_effects_in_order() {
    let mut field = TextEffect::new(0, 0).with_effect(EffectKind::Marquee(Marquee::new(5)));
    assert_eq!(field.draw("helloworld", 1), "hello");
    assert_eq!(field.draw("helloworld", 2), "ellow");
    let mut limited = TextEffect::new(200, 0);
    limited.override_last_drawn("forced".to_string());
    assert_eq!(limited.draw("ignored", 100), "forced");
}

#[test]
fn render_fills_placeholders() {
    let (_bus, handle) = EventBus::new();
    let mut args = Args::default();
    args.play_icon = ">".to_string();
    args.pause_icon = "||".to_string();
    let display = Display::new(args, handle);
    let mut fields = display.init_fields(0);
    let st = state("Song", "Band", "Album", "Player", Some(true));
    let out = display.render(&Some(st), &mut fields, 1000);
    assert_eq!(
        out,
        "{\"text\": \"[ || ] Band - Song\", \"tooltip\": \"\", \"class\": \"playing\", \"alt\": \"\"}"
    );
    let paused = state("Song", "Band", "Album", "Player", Some(false));
    let out = display.render(&Some(paused), &mut fields, 2000);
    assert_eq!(
        out,
        "{\"text\": \"[ > ] Band - Song\", \"tooltip\": \"\", \"class\": \"paused\", \"alt\": \"\"}"
    );
}

#[test]
fn render_without_state_shows_placeholder() {
    let (_bus, handle) = EventBus::new();
    let display = Display::new(Args::default(), handle);
    let mut fields = display.init_fields(0);
    let out = display.render(&None, &mut fields, 0);
    assert_eq!(
        out,
        "{\"text\": \"Nothing playing\", \"tooltip\": \"\", \"class\": \"stopped\", \"alt\": \"\"}"
    );
}

#[test]
fn get_class_reflects_playing_flag() {
    let (_bus, handle) = EventBus::new();
    let display = Display::new(Args::default(), handle);
    assert_eq!(display.get_class(&state("t", "a", "l", "p", Some(true))), "playing");
    assert_eq!(display.get_class(&state("t", "a", "l", "p", Some(false))), "paused");
    assert_eq!(display.get_class(&state("t", "a", "l", "p", None)), "stopped");
}

#[test]
fn set_text_effect_field_overrides_on_change() {
    let (_bus, handle) = EventBus::new();
    let display = Display::new(Args::default(), handle);
    let mut fields = display.init_fields(0);
    Display::set_text_effect_field(&mut fields, "old", "new", "title");
    // The remembered output is replaced, so the next rate-limited draw
    // repeats it.
    assert_eq!(fields.title.draw("anything", 1), "new");
    Display::set_text_effect_field(&mut fields, "same", "same", "artist");
    assert_eq!(fields.artist.draw("anything", 1), "");
}

#[test]
fn marquee_fields_are_configured_from_args() {
    let (_bus, handle) = EventBus::new();
    let mut args = Args::default();
    args.marquee = true;
    args.title_width = 5;
    let display = Display::new(args, handle);
    let mut fields: DisplayFields = display.init_fields(0);
    assert_eq!(fields.title.draw("helloworld", 1000), "hello");
}

#[test]
fn player_icon_matches_partially_and_case_insensitively() {
    let config = Config::from_players(vec![
        ("moz".to_string(), "fox".to_string()),
        ("spot".to_string(), "note".to_string()),
    ]);
    assert_eq!(config.get_player_icon_by_partial_match("Mozilla Firefox"), "fox");
    assert_eq!(config.get_player_icon_by_partial_match("SPOTIFY"), "note");
    assert_eq!(config.get_player_icon_by_partial_match("vlc"), "");
}

#[test]
fn playback_state_parses_ignoring_case() {
    assert_eq!(PlaybackState::from_string("Playing"), Some(PlaybackState::Playing));
    assert_eq!(PlaybackState::from_string("PAUSED"), Some(PlaybackState::Paused));
    assert_eq!(PlaybackState::from_string("stopped"), Some(PlaybackState::Stopped));
    assert_eq!(PlaybackState::from_string("garbage"), None);
    assert_eq!(PlaybackState::Playing.to_string(), "playing");
    assert_eq!(PlaybackState::Paused.to_string(), "paused");
    assert_eq!(PlaybackState::Stopped.to_string(), "stopped");
}

#[test]
fn signals_are_classified_by_member_and_property() {
    let info = SignalInfo {
        member: Some("Seeked".to_string()),
        property: None,
        sender: None,
    };
    assert!(matches!(DBusMonitor::determine_event_type(&info), EventType::Seeked));
    let info = SignalInfo {
        member: Some("PropertiesChanged".to_string()),
        property: Some("Metadata".to_string()),
        sender: None,
    };
    assert!(matches!(DBusMonitor::determine_event_type(&info), EventType::PlayerSongChanged));
    let info = SignalInfo {
        member: None,
        property: Some("PlaybackStatus".to_string()),
        sender: None,
    };
    assert!(matches!(DBusMonitor::determine_event_type(&info), EventType::PlaybackChanged));
    let info = SignalInfo {
        member: None,
        property: Some("Volume".to_string()),
        sender: None,
    };
    match DBusMonitor::determine_event_type(&info) {
        EventType::Unknown(name) => assert_eq!(name, "Volume"),
        _ => panic!("an unexpected property is kept as unknown"),
    }
    let info = SignalInfo { member: None, property: None, sender: None };
    assert!(matches!(DBusMonitor::determine_event_type(&info), EventType::ParseError));
}

#[test]
fn whitelist_filters_senders() {
    let (_bus, handle) = EventBus::new();
    let mut args = Args::default();
    args.whitelist = vec!["firefox".to_string()];
    let monitor = DBusMonitor::new(args, handle.clone());
    assert!(monitor.should_handle_sender(Some(&"Mozilla FIREFOX".to_string())));
    assert!(!monitor.should_handle_sender(Some(&"Spotify".to_string())));
    assert!(monitor.should_handle_sender(None));
    let open_monitor = DBusMonitor::new(Args::default(), handle);
    assert!(open_monitor.should_handle_sender(Some(&"Anything".to_string())));
}
