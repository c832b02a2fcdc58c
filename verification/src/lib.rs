//! Brail: the verified core of a screen recorder and streaming tool.
//!
//! Everything in this crate is pure decision logic: configuration and
//! preset tables, the instant-replay ring buffer, the adaptive bitrate
//! ladder, the adaptive engine, secret redaction, hardware-profile
//! heuristics and hotkey tables. Operating-system, GPU and codec work is
//! done by the surrounding application, which hands the results to these
//! functions as plain values.

pub mod config;
pub mod profile;
pub mod settings;
pub mod presets;
pub mod text;
pub mod unicode;
pub mod redact;
pub mod error;
pub mod frame;
pub mod audio;
pub mod replay;
pub mod encoder;
pub mod bitrate;
pub mod hardware;
pub mod hotkeys;
pub mod vault;
pub mod storage;
pub mod recovery;
pub mod capture;
pub mod screenshot;
pub mod stats;
pub mod monitor;
pub mod adaptive;
pub mod tuner;
pub mod benchmark;
