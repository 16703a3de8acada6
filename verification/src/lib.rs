//! Typed bindings for a native-plugin bridge: a model of the encoded values
//! exchanged with the host runtime, the error taxonomy of a bridge call, and
//! the listener lifecycle (registration slots with swap-on-reregister and
//! idempotent removal).

pub mod action_sheet;
pub mod app;
pub mod app_launcher;
pub mod bridge;
pub mod browser;
pub mod camera;
pub mod clipboard;
pub mod codec;
pub mod device;
pub mod dialog;
pub mod game_connect;
pub mod error;
pub mod helpers;
pub mod listener;
pub mod local_notifications;
pub mod motion;
pub mod network;
pub mod plugin_listener_handle;
pub mod preferences;
pub mod rate;
pub mod safe_area;
pub mod screen_reader;
pub mod share;
pub mod splash_screen;
pub mod status_bar;
pub mod toast;
pub mod value;
