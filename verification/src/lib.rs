//! Push-to-talk transcription: the settings, request and response rules,
//! the decisions of the recording controller, and those of the UI loop and windows.

pub mod text;
pub mod settings;
pub mod openrouter;
pub mod recorder;
pub mod audio;
pub mod ui;
pub mod config;
