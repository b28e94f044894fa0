//! Properties of the pipeline that hold for every request, stated over
//! the same spec functions the executable contracts use.

use vstd::prelude::*;

use crate::config::DelayConfig;
use crate::typing::{
    HandlerPlan, TypingRequest, TypingStep, key_delay_of, plan_of, pre_delay_of, resolved_delay,
};

verus! {

/// The sum of all waits in a plan, in milliseconds: the wall-clock time
/// spent waiting between the first and the last injected character.
pub open spec fn total_wait_ms(steps: Seq<TypingStep>) -> int
    decreases steps.len(),
{
    if steps.len() == 0 {
        0
    } else {
        total_wait_ms(steps.drop_last()) + steps.last().wait_before_ms
    }
}

/// A request overriding the pre-typing delay with `d` and carrying no
/// text makes the handler wait exactly `d` milliseconds and inject
/// nothing.
pub proof fn lemma_delay_only_request(req: TypingRequest, config: DelayConfig, d: u64)
    requires
        req.delay == Some(d),
        req.text@.len() == 0,
    ensures
        pre_delay_of(req, config) == d,
        plan_of(req.text@, key_delay_of(req, config)).len() == 0,
{
}

/// For a text of `n >= 1` characters typed with inter-character delay
/// `p`, the waits between the first and the last injection sum to
/// exactly `(n - 1) * p` milliseconds.
pub proof fn lemma_typing_cadence(text: Seq<char>, p: u64)
    requires
        text.len() >= 1,
    ensures
        total_wait_ms(plan_of(text, p)) == (text.len() - 1) * p,
    decreases text.len(),
{
    let plan = plan_of(text, p);
    let n: int = text.len() as int;
    if text.len() == 1 {
        assert(plan.drop_last() =~= Seq::<TypingStep>::empty());
        assert(total_wait_ms(Seq::<TypingStep>::empty()) == 0);
        assert(plan.last().wait_before_ms == 0);
        assert(total_wait_ms(plan) == 0);
        assert((n - 1) * p == 0) by (nonlinear_arith)
            requires n == 1;
    } else {
        lemma_typing_cadence(text.drop_last(), p);
        assert(plan.drop_last() =~= plan_of(text.drop_last(), p));
        assert(total_wait_ms(plan.drop_last()) == (n - 2) * p);
        assert(plan.last().wait_before_ms == p);
        assert(total_wait_ms(plan) == (n - 2) * p + p);
        assert((n - 2) * p + p == (n - 1) * p) by (nonlinear_arith);
    }
}

/// An explicit zero override is used as given: the effective
/// inter-character delay is 0, never the process default.
pub proof fn lemma_explicit_zero_wins(req: TypingRequest, config: DelayConfig)
    requires
        req.per_key_delay == Some(0u64),
    ensures
        key_delay_of(req, config) == 0,
{
}

/// The handler holds no state across invocations: any two plans built
/// for the same request under the same configuration are equal, so
/// repeating a request repeats its typing sequence unchanged.
pub proof fn lemma_repeat_request_same_plan(
    r1: HandlerPlan,
    r2: HandlerPlan,
    req: TypingRequest,
    config: DelayConfig,
)
    requires
        r1.pre_delay_ms == pre_delay_of(req, config),
        r1.steps@ == plan_of(req.text@, key_delay_of(req, config)),
        r2.pre_delay_ms == pre_delay_of(req, config),
        r2.steps@ == plan_of(req.text@, key_delay_of(req, config)),
    ensures
        r1.pre_delay_ms == r2.pre_delay_ms,
        r1.steps@ == r2.steps@,
{
}

/// An empty text injects no characters and spends no inter-character
/// wait, while the pre-typing delay still resolves (and elapses) as for
/// any other request.
pub proof fn lemma_empty_text(req: TypingRequest, config: DelayConfig)
    requires
        req.text@.len() == 0,
    ensures
        plan_of(req.text@, key_delay_of(req, config)).len() == 0,
        total_wait_ms(plan_of(req.text@, key_delay_of(req, config))) == 0,
        pre_delay_of(req, config) == resolved_delay(req.delay, config.input_delay_ms),
{
}

} // verus!
