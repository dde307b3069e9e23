//! Core logic of Murmur, a hold-to-talk speech-to-text menubar tool:
//! settings, model file locations, the recording state machine, hotkey
//! debouncing, download progress, language choice and menu dispatch.

pub mod app;
pub mod config;
pub mod downloader;
pub mod hotkey;
pub mod languages;
pub mod platform;
pub mod text;
pub mod transcriber;
pub mod tray;
