//! Verified core of a push-to-talk dictation front end: shortcut detection,
//! capture bookkeeping, resampling and the recording life cycle.

pub mod app;
pub mod audio;
pub mod benchmark;
pub mod cli;
pub mod hyprland;
pub mod injector;
pub mod install;
pub mod keys;
pub mod patterns;
pub mod resample;
pub mod shortcut_laws;
pub mod shortcuts;
pub mod status;
pub mod text;
pub mod transcription;
pub mod whisper;
