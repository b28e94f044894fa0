//! Process-wide delay configuration, fixed once at startup from the
//! command-line arguments and immutable afterwards.

use vstd::prelude::*;

use crate::args::{parse_duration, spec_parse_duration};

verus! {

/// Pre-typing delay applied when neither the arguments nor the request
/// override it, in milliseconds.
pub const INPUT_DELAY_DEFAULT_MS: u64 = 1000;

/// Inter-character delay applied when neither the arguments nor the
/// request override it, in milliseconds.
pub const CHARACTER_DELAY_DEFAULT_MS: u64 = 50;

/// The two process-wide default delays. Built once at startup; requests
/// read it and never change it.
#[derive(Clone, Copy, Debug, PartialEq, Eq, Structural)]
pub struct DelayConfig {
    /// Default wait before the first character of a request, in
    /// milliseconds.
    pub input_delay_ms: u64,
    /// Default wait between consecutive characters, in milliseconds.
    pub character_delay_ms: u64,
}

/// The delay a startup argument configures: the argument's value when
/// one is present and well formed, otherwise `default_ms`.
pub open spec fn configured_delay(parsed: Option<u64>, default_ms: u64) -> u64 {
    match parsed {
        Some(d) => d,
        None => default_ms,
    }
}

impl DelayConfig {
    /// Reads the two optional overrides `--input-delay=<ms>` and
    /// `--character-delay=<ms>` from the arguments. An absent or
    /// malformed override silently falls back to the fixed default.
    pub fn from_args(args: &Vec<String>) -> (r: DelayConfig)
        ensures
            r.input_delay_ms == configured_delay(
                spec_parse_duration(args.deep_view(), "--input-delay="@),
                INPUT_DELAY_DEFAULT_MS,
            ),
            r.character_delay_ms == configured_delay(
                spec_parse_duration(args.deep_view(), "--character-delay="@),
                CHARACTER_DELAY_DEFAULT_MS,
            ),
    {
        let input_delay_ms: u64 = match parse_duration(args, "--input-delay=") {
            Some(d) => d,
            None => INPUT_DELAY_DEFAULT_MS,
        };
        let character_delay_ms: u64 = match parse_duration(args, "--character-delay=") {
            Some(d) => d,
            None => CHARACTER_DELAY_DEFAULT_MS,
        };
        DelayConfig { input_delay_ms, character_delay_ms }
    }
}

} // verus!
