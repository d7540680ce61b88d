//! Decision logic of a push-to-talk dictation tool: hotkey edge detection,
//! the dictation controller, WAV framing, configuration and text handling.

pub mod autostart;
pub mod config;
pub mod control;
pub mod hotkey;
pub mod inject;
pub mod keystore;
pub mod overlay;
pub mod settings;
pub mod text;
pub mod transcribe;
pub mod tray;
pub mod wav;
