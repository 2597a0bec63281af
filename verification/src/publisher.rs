//! The publisher's decisions: it needs a NUT server, and it may shut its own machine
//! down on the readings it publishes.
use crate::config::{Config, NutConfig, PlanConfig};
use crate::error::Error;
use crate::nut::{has_trigger_token, on_battery_token, UpsStatus, ZERO_PERCENT_BITS};
use crate::percent::{f32_less, is_nan, order_key};
use crate::text::is_token_of;
use crate::plan::{latch_step, reading_warrants_shutdown, TriggerLatch};
use vstd::prelude::*;

verus! {

/// The NUT settings that publisher mode needs: `NutConfigMissing` exactly when the
/// configuration has none.
pub fn nut_settings(config: &Config) -> (r: Result<&NutConfig, Error>)
    ensures
        match config.nut {
            Some(n) => r matches Ok(m) && *m == n,
            None => r == Err::<&NutConfig, Error>(Error::NutConfigMissing),
        },
{
    match &config.nut {
        Some(n) => Ok(n),
        None => Err(Error::NutConfigMissing),
    }
}

/// Whether a reading warrants a shutdown per the plan: a trigger status token, or on
/// battery with the charge below the threshold.
pub fn should_shutdown(status: &UpsStatus, plan: &PlanConfig) -> (r: bool)
    ensures
        r == reading_warrants_shutdown(status.status@, status.charge.bits, *plan),
        r == (has_trigger_token(status.status@, plan.trigger_statuses@) || (is_token_of(
            status.status@,
            on_battery_token(),
        ) && f32_less(status.charge.bits, plan.charge_threshold.bits))),
{
    if status.has_trigger(plan.trigger_statuses.as_slice()) {
        return true;
    }
    status.is_on_battery() && status.charge.is_below(&plan.charge_threshold)
}

/// One poll that produced a reading: whether to run the plan now. It runs the first
/// time a reading warrants it, and the latch remembers that it did.
pub fn on_reading(status: &UpsStatus, plan: &PlanConfig, latch: &mut TriggerLatch) -> (run: bool)
    ensures
        (run, final(latch).fired) == latch_step(
            old(latch).fired,
            reading_warrants_shutdown(status.status@, status.charge.bits, *plan),
        ),
{
    let wanted = should_shutdown(status, plan);
    latch.decide(wanted)
}

/// A charge that did not parse reads as 0 %, the safe side: on battery, it is below
/// any threshold above zero, so the plan is warranted.
pub proof fn lemma_unparsed_charge_is_safe(status: Seq<char>, plan: PlanConfig)
    requires
        is_token_of(status, on_battery_token()),
        !is_nan(plan.charge_threshold.bits),
        order_key(plan.charge_threshold.bits) > 0,
    ensures
        f32_less(ZERO_PERCENT_BITS, plan.charge_threshold.bits),
        reading_warrants_shutdown(status, ZERO_PERCENT_BITS, plan),
{
}

/// What decides a reading, for every status, charge and plan: a shutdown is warranted
/// exactly when the status holds one of the plan's trigger tokens, or holds `OB` while
/// the charge is below the plan's own threshold (whatever that threshold is).
pub proof fn lemma_reading_decision(status: Seq<char>, charge: u32, plan: PlanConfig)
    ensures
        reading_warrants_shutdown(status, charge, plan) == (has_trigger_token(
            status,
            plan.trigger_statuses@,
        ) || (is_token_of(status, on_battery_token()) && f32_less(
            charge,
            plan.charge_threshold.bits,
        ))),
{
}

/// On battery, a charge below the configured threshold warrants a shutdown, for every
/// threshold.
pub proof fn lemma_low_charge_on_battery_warrants(status: Seq<char>, charge: u32, plan: PlanConfig)
    requires
        is_token_of(status, on_battery_token()),
        f32_less(charge, plan.charge_threshold.bits),
    ensures
        reading_warrants_shutdown(status, charge, plan),
{
}

/// A trigger token warrants a shutdown whatever the charge.
pub proof fn lemma_trigger_token_warrants(status: Seq<char>, charge: u32, plan: PlanConfig)
    requires
        has_trigger_token(status, plan.trigger_statuses@),
    ensures
        reading_warrants_shutdown(status, charge, plan),
{
}

/// Without a trigger token, a reading that is off battery or whose charge is not below
/// the threshold warrants no shutdown.
pub proof fn lemma_no_cause_no_shutdown(status: Seq<char>, charge: u32, plan: PlanConfig)
    requires
        !has_trigger_token(status, plan.trigger_statuses@),
        !is_token_of(status, on_battery_token()) || !f32_less(charge, plan.charge_threshold.bits),
    ensures
        !reading_warrants_shutdown(status, charge, plan),
{
}

} // verus!
