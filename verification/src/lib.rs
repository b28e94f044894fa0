//! Turns typing requests into deterministic keystroke plans.
//!
//! The library models the whole request-to-keystroke pipeline of a small
//! text-typing service: startup-argument parsing, delay-policy resolution
//! (request override versus process default), and the translation of a
//! string into an ordered sequence of key events with the waits between
//! them. Everything here is pure computation over plain values; the
//! surrounding program performs the actual sleeps and key injection.

pub mod args;
pub mod config;
pub mod laws;
pub mod typing;
