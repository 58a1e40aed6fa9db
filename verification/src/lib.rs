//! Core of a buzzer-style quiz presentation.
//!
//! The library tracks which clue-reveal phase a question is in, enforces
//! per-question timing, alternates team turns, computes score deltas from
//! keyboard-style input signals, and word-wraps clue and answer strings for a
//! renderer. Window setup, font rasterization, question-file parsing and the
//! event loop live outside the library and only hand it plain values.

pub mod layout;
pub mod phase;
pub mod questions;
pub mod session;
pub mod state;
