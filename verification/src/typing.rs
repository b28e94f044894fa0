//! The request-to-keystroke pipeline: delay-policy resolution and the
//! translation of a request's text into an ordered plan of key events
//! with the waits between them.
//!
//! A plan is pure data. The surrounding program executes it: it sleeps
//! the pre-typing delay, then for each step sleeps the step's wait and
//! submits the step's key event to the host input facility.

use vstd::prelude::*;

use crate::config::DelayConfig;

verus! {

/// One inbound typing request: the text to type and the caller's
/// optional overrides of the two delays, in milliseconds.
#[derive(Clone, Debug)]
pub struct TypingRequest {
    /// The characters to type, in order. May be empty.
    pub text: String,
    /// Override of the pre-typing delay; `None` means use the process
    /// default.
    pub delay: Option<u64>,
    /// Override of the inter-character delay; `None` means use the
    /// process default.
    pub per_key_delay: Option<u64>,
}

/// One synthetic key-down event at the host boundary: a 16-bit code
/// unit and the flag marking it as a Unicode (not virtual-key) event.
///
/// A character outside the Basic Multilingual Plane does not fit in one
/// code unit; it is truncated to its low 16 bits. This is a known
/// boundary case of the single-event encoding, not a feature.
#[derive(Clone, Copy, Debug, PartialEq, Eq, Structural)]
pub struct KeyEvent {
    /// The character, truncated to one 16-bit code unit.
    pub code_unit: u16,
    /// Always set: the event carries a Unicode code unit, not a
    /// virtual-key code.
    pub unicode: bool,
}

/// One step of a typing plan: wait, then inject.
#[derive(Clone, Copy, Debug, PartialEq, Eq, Structural)]
pub struct TypingStep {
    /// How long to wait before injecting this step's event, in
    /// milliseconds. Zero for the first step of a plan.
    pub wait_before_ms: u64,
    /// The event to inject after the wait.
    pub event: KeyEvent,
}

/// The low 16 bits of a character's scalar value.
pub open spec fn code_unit_of(c: char) -> u16 {
    (c as int % 0x10000) as u16
}

/// The key event a single character becomes.
pub open spec fn key_event_of(c: char) -> KeyEvent {
    KeyEvent { code_unit: code_unit_of(c), unicode: true }
}

/// Encodes one character as a single Unicode key-down event.
pub fn char_to_key_event(c: char) -> (r: KeyEvent)
    ensures
        r == key_event_of(c),
{
    let scalar: u32 = c as u32;
    let low: u16 = (scalar % 0x10000) as u16;
    KeyEvent { code_unit: low, unicode: true }
}

/// The delay a request ends up with: its own override when present
/// (zero included), otherwise the process-wide default.
pub open spec fn resolved_delay(override_ms: Option<u64>, default_ms: u64) -> u64 {
    match override_ms {
        Some(d) => d,
        None => default_ms,
    }
}

/// The effective pre-typing delay of a request under a configuration.
pub open spec fn pre_delay_of(req: TypingRequest, config: DelayConfig) -> u64 {
    resolved_delay(req.delay, config.input_delay_ms)
}

/// The effective inter-character delay of a request under a
/// configuration.
pub open spec fn key_delay_of(req: TypingRequest, config: DelayConfig) -> u64 {
    resolved_delay(req.per_key_delay, config.character_delay_ms)
}

/// Picks the effective delay for one field of a request. An explicit
/// override always wins, whatever its value; only an absent field falls
/// back to the default. The two fields of a request are resolved
/// independently of each other.
pub fn resolve_delay(override_ms: Option<u64>, default_ms: u64) -> (r: u64)
    ensures
        r == resolved_delay(override_ms, default_ms),
{
    match override_ms {
        Some(d) => d,
        None => default_ms,
    }
}

/// The typing plan of a text: one step per character, in the text's
/// own order; no wait before the first character, `per_key_delay_ms`
/// before every later one.
pub open spec fn plan_of(text: Seq<char>, per_key_delay_ms: u64) -> Seq<TypingStep> {
    Seq::new(
        text.len(),
        |i: int|
            TypingStep {
                wait_before_ms: if i == 0 { 0 } else { per_key_delay_ms },
                event: key_event_of(text[i]),
            },
    )
}

/// Walks the text's characters in order and builds the plan that types
/// them: inject the first at once, wait `per_key_delay_ms` before each
/// of the rest. An empty text gives an empty plan.
pub fn typing_plan(text: &str, per_key_delay_ms: u64) -> (r: Vec<TypingStep>)
    ensures
        r@ == plan_of(text@, per_key_delay_ms),
{
    let n: usize = text.unicode_len();
    let mut steps: Vec<TypingStep> = Vec::new();
    let mut i: usize = 0;
    while i < n
        invariant
            i <= n,
            n == text@.len(),
            steps@.len() == i,
            forall|j: int| 0 <= j < i ==> steps@[j] == plan_of(text@, per_key_delay_ms)[j],
        decreases n - i,
    {
        let c = text.get_char(i);
        let wait: u64 = if i == 0 { 0 } else { per_key_delay_ms };
        steps.push(TypingStep { wait_before_ms: wait, event: char_to_key_event(c) });
        i = i + 1;
    }
    proof {
        assert(steps@ =~= plan_of(text@, per_key_delay_ms));
    }
    steps
}

/// Everything the handler decides for one request: how long to wait
/// before typing starts, and the typing steps themselves.
#[derive(Clone, Debug)]
pub struct HandlerPlan {
    /// Wait before the first character, in milliseconds.
    pub pre_delay_ms: u64,
    /// The key events to inject, each after its own wait.
    pub steps: Vec<TypingStep>,
}

/// Decides one request: resolves both delays against the configuration
/// and lays out the typing steps. Pure; holds no state across calls, so
/// identical requests under the same configuration yield identical
/// plans, and nothing here changes the configuration.
pub fn handle_request(req: &TypingRequest, config: &DelayConfig) -> (r: HandlerPlan)
    ensures
        r.pre_delay_ms == pre_delay_of(*req, *config),
        r.steps@ == plan_of(req.text@, key_delay_of(*req, *config)),
{
    let pre_delay_ms = resolve_delay(req.delay, config.input_delay_ms);
    let per_key_delay_ms = resolve_delay(req.per_key_delay, config.character_delay_ms);
    let steps = typing_plan(req.text.as_str(), per_key_delay_ms);
    HandlerPlan { pre_delay_ms, steps }
}

} // verus!
