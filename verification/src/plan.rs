//! When the plan warrants a shutdown, and how it is made to run once.
use crate::config::PlanConfig;
use crate::nut::{has_trigger_token, on_battery_token};
use crate::percent::{f32_less, is_nan, order_key};
use crate::text::is_token_of;
use vstd::prelude::*;

verus! {

/// A reading with status `status` and charge bits `charge` warrants a shutdown under
/// `plan`: the status holds a trigger token, or the UPS is on battery with the charge
/// below the plan's threshold.
pub open spec fn reading_warrants_shutdown(status: Seq<char>, charge: u32, plan: PlanConfig) -> bool {
    ||| has_trigger_token(status, plan.trigger_statuses@)
    ||| is_token_of(status, on_battery_token()) && f32_less(charge, plan.charge_threshold.bits)
}

/// Remembers whether the plan has already been run.
#[derive(Clone, Copy, Debug, PartialEq, Eq, Structural)]
pub struct TriggerLatch {
    pub fired: bool,
}

/// One decision on a latch: with the latch in state `fired` and a shutdown `wanted`,
/// whether to run the plan now, and the latch's next state.
pub open spec fn latch_step(fired: bool, wanted: bool) -> (bool, bool) {
    (wanted && !fired, fired || wanted)
}

/// How many times the plan runs over a series of decisions on one latch that starts
/// in state `fired`.
pub open spec fn runs(fired: bool, wanted: Seq<bool>) -> nat
    decreases wanted.len(),
{
    if wanted.len() == 0 {
        0
    } else {
        let (run, next) = latch_step(fired, wanted[0]);
        (if run { 1nat } else { 0nat }) + runs(next, wanted.drop_first())
    }
}

impl TriggerLatch {
    /// A latch that has not fired.
    pub fn new() -> (l: TriggerLatch)
        ensures
            !l.fired,
    {
        TriggerLatch { fired: false }
    }

    /// Decides on a shutdown that is `wanted` or not: true when the plan is to run now,
    /// which is when it is wanted and the latch has not fired; a wanted shutdown fires
    /// the latch.
    pub fn decide(&mut self, wanted: bool) -> (run: bool)
        ensures
            (run, final(self).fired) == latch_step(old(self).fired, wanted),
    {
        if !wanted || self.fired {
            self.fired = self.fired || wanted;
            return false;
        }
        self.fired = true;
        true
    }
}

/// The plan runs at most once over any series of decisions on a latch that has not
/// fired, and exactly once when a shutdown is wanted at some point; on a fired latch it
/// never runs.
pub proof fn lemma_plan_runs_at_most_once(wanted: Seq<bool>)
    ensures
        runs(false, wanted) <= 1,
        runs(false, wanted) == 1 <==> exists|i: int| 0 <= i < wanted.len() && #[trigger] wanted[i],
        runs(true, wanted) == 0,
    decreases wanted.len(),
{
    lemma_fired_never_runs(wanted);
    if wanted.len() > 0 {
        let rest = wanted.drop_first();
        lemma_plan_runs_at_most_once(rest);
        if wanted[0] {
            assert(wanted[0]);
        } else {
            if exists|i: int| 0 <= i < wanted.len() && #[trigger] wanted[i] {
                let i = choose|i: int| 0 <= i < wanted.len() && #[trigger] wanted[i];
                assert(rest[i - 1]);
            }
            if exists|i: int| 0 <= i < rest.len() && #[trigger] rest[i] {
                let i = choose|i: int| 0 <= i < rest.len() && #[trigger] rest[i];
                assert(wanted[i + 1]);
            }
        }
    }
}

/// On a fired latch the plan never runs again.
proof fn lemma_fired_never_runs(wanted: Seq<bool>)
    ensures
        runs(true, wanted) == 0,
    decreases wanted.len(),
{
    if wanted.len() > 0 {
        lemma_fired_never_runs(wanted.drop_first());
    }
}

/// Whether the plan runs at each of a series of decisions on one latch that starts in
/// state `fired`.
pub open spec fn decisions(fired: bool, wanted: Seq<bool>) -> Seq<bool>
    decreases wanted.len(),
{
    if wanted.len() == 0 {
        Seq::empty()
    } else {
        let (run, next) = latch_step(fired, wanted[0]);
        seq![run] + decisions(next, wanted.drop_first())
    }
}

/// On a latch that has not fired, the plan runs at a decision exactly when that
/// decision wants a shutdown and no earlier one did: at the first warranted decision,
/// and never again.
pub proof fn lemma_plan_runs_at_first_warrant(wanted: Seq<bool>, i: int)
    requires
        0 <= i < wanted.len(),
    ensures
        decisions(false, wanted).len() == wanted.len(),
        decisions(false, wanted)[i] <==> (wanted[i] && forall|j: int| 0 <= j < i ==> !#[trigger] wanted[j]),
    decreases wanted.len(),
{
    lemma_decisions_len(false, wanted);
    let rest = wanted.drop_first();
    lemma_decisions_len(wanted[0], rest);
    if i > 0 {
        if wanted[0] {
            lemma_fired_decisions(rest);
            assert(decisions(false, wanted)[i] == decisions(true, rest)[i - 1]);
        } else {
            lemma_plan_runs_at_first_warrant(rest, i - 1);
            assert(decisions(false, wanted)[i] == decisions(false, rest)[i - 1]);
            if wanted[i] && forall|j: int| 0 <= j < i ==> !#[trigger] wanted[j] {
                assert forall|j: int| 0 <= j < i - 1 implies !#[trigger] rest[j] by {
                    assert(rest[j] == wanted[j + 1]);
                }
            }
            if rest[i - 1] && forall|j: int| 0 <= j < i - 1 ==> !#[trigger] rest[j] {
                assert forall|j: int| 0 <= j < i implies !#[trigger] wanted[j] by {
                    if j > 0 {
                        assert(wanted[j] == rest[j - 1]);
                    }
                }
            }
        }
    }
}

/// The series of decisions is as long as the series of wishes.
proof fn lemma_decisions_len(fired: bool, wanted: Seq<bool>)
    ensures
        decisions(fired, wanted).len() == wanted.len(),
    decreases wanted.len(),
{
    if wanted.len() > 0 {
        lemma_decisions_len(latch_step(fired, wanted[0]).1, wanted.drop_first());
    }
}

/// On a fired latch no decision runs the plan.
proof fn lemma_fired_decisions(wanted: Seq<bool>)
    ensures
        forall|k: int| 0 <= k < wanted.len() ==> !#[trigger] decisions(true, wanted)[k],
    decreases wanted.len(),
{
    lemma_decisions_len(true, wanted);
    if wanted.len() > 0 {
        lemma_fired_decisions(wanted.drop_first());
        assert forall|k: int| 0 <= k < wanted.len() implies !#[trigger] decisions(true, wanted)[k] by {
            if k > 0 {
                assert(decisions(true, wanted)[k] == decisions(true, wanted.drop_first())[k - 1]);
            }
        }
    }
}

/// `stricter` shuts down at least whenever `plan` does: it holds every trigger status
/// of `plan`, and its threshold is no lower (nothing is below a NaN threshold, so any
/// threshold will do when `plan`'s is NaN).
pub open spec fn at_least_as_strict(stricter: PlanConfig, plan: PlanConfig) -> bool {
    &&& forall|j: int|
        0 <= j < plan.trigger_statuses@.len() ==> exists|k: int|
            0 <= k < stricter.trigger_statuses@.len() && #[trigger] stricter.trigger_statuses@[k]@
                == #[trigger] plan.trigger_statuses@[j]@
    &&& (is_nan(plan.charge_threshold.bits) || (!is_nan(stricter.charge_threshold.bits) && order_key(
        plan.charge_threshold.bits,
    ) <= order_key(stricter.charge_threshold.bits)))
}

/// A plan at least as strict keeps both parts of the decision: a trigger token of the
/// status is still a trigger, and a charge below the threshold is below the new one.
pub proof fn lemma_stricter_plan_keeps_parts(status: Seq<char>, charge: u32, plan: PlanConfig, stricter: PlanConfig)
    requires
        at_least_as_strict(stricter, plan),
    ensures
        has_trigger_token(status, plan.trigger_statuses@) ==> has_trigger_token(
            status,
            stricter.trigger_statuses@,
        ),
        f32_less(charge, plan.charge_threshold.bits) ==> f32_less(
            charge,
            stricter.charge_threshold.bits,
        ),
{
    if has_trigger_token(status, plan.trigger_statuses@) {
        let j = choose|j: int|
            0 <= j < plan.trigger_statuses@.len() && is_token_of(
                status,
                #[trigger] plan.trigger_statuses@[j]@,
            );
        let k = choose|k: int|
            0 <= k < stricter.trigger_statuses@.len() && #[trigger] stricter.trigger_statuses@[k]@
                == plan.trigger_statuses@[j]@;
        assert(is_token_of(status, stricter.trigger_statuses@[k]@));
    }
}

/// A reading that warrants a shutdown under a plan warrants one under any plan at
/// least as strict.
pub proof fn lemma_stricter_plan_never_prevents_shutdown(
    status: Seq<char>,
    charge: u32,
    plan: PlanConfig,
    stricter: PlanConfig,
)
    requires
        at_least_as_strict(stricter, plan),
        reading_warrants_shutdown(status, charge, plan),
    ensures
        reading_warrants_shutdown(status, charge, stricter),
{
    lemma_stricter_plan_keeps_parts(status, charge, plan, stricter);
}

} // verus!
