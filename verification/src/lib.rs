//! Core of a local audio player: the playback engine.
//!
//! The engine opens an audio file, tracks the elapsed playback position
//! across play / pause / seek transitions, resolves the total track duration
//! through a tiered fallback strategy, and drives a live-adjustable ten-band
//! equalizer over the decoded sample stream.
//!
//! Everything here is pure control logic over plain values: wall-clock
//! instants and durations are microsecond counts, equalizer gains are
//! centi-decibels. Decoding, the audio device, and the per-sample floating
//! point filtering live outside the library and consume the decisions made
//! here.

pub mod adapter;
pub mod duration;
pub mod equalizer;
pub mod library;
pub mod settings;
pub mod timefmt;
pub mod transport;
