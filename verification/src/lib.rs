//! Core of a media-status module: consolidates out-of-order notifications
//! from independent media-player sources into one canonical "currently
//! active player" view, interpolates playback position between sparse
//! updates, and prepares display output.

pub mod args;
pub mod config;
pub mod dbus_monitor;
pub mod display;
pub mod event_bus;
pub mod ellipsis;
pub mod marquee;
pub mod mpris;
pub mod playback_state;
pub mod player_client;
pub mod player_manager;
pub mod player_state;
pub mod player_timer;
pub mod position_timer;
pub mod text;
pub mod text_effect;
pub mod utils;
