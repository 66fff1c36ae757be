//! Core of a metronome that drives an audible beat at a controllable tempo,
//! optionally ramping the tempo linearly over a fixed span of beats before
//! holding steady, under live operator control (pause/resume, tempo nudges,
//! tap-tempo estimation, stop).
//!
//! Tempo is measured in milli-beats-per-minute (mbpm) and time in whole
//! milliseconds of a monotonic clock, so that every decision the metronome
//! makes is over plain integers. The surrounding binary converts at the
//! edges and performs the actual audio, terminal, and timer work.

pub mod metronome;
pub mod state;
pub mod tap_tempo;
pub mod tempo;
pub mod ui;
