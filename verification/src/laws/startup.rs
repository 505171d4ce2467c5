//! What the start of the node is for: stored values that no longer fit are
//! brought back, each as little as possible, and the outcome is applied.

use vstd::prelude::*;

use crate::cluster::SystemModeEnum;
use crate::error::Error;
use crate::handler::{LifecycleOp, ThermostatHandler};
use crate::hooks;
use crate::hooks::{HookCall, HookRecord, ThermostatHooks};
use crate::journal::Event;
use crate::laws;
use crate::laws::requests;
use crate::model;
use crate::model::ControlState;

verus! {

/// `found` is `value` where that fits between `lo` and `hi`, else the end that
/// `value` lies beyond.
pub open spec fn brought_into(value: int, lo: int, hi: int, found: int) -> bool {
    &&& lo <= value <= hi ==> found == value
    &&& value < lo ==> found == lo
    &&& hi < value ==> found == hi
}

/// What a stored state has to become: the limits within those of the
/// manufacturer, the upper not below the lower, the setpoint within the effective
/// limits, an unsupported mode off.
pub open spec fn is_mended<H: ThermostatHooks>(stored: ControlState, mended: ControlState) -> bool {
    let abs_min = H::ABS_MIN_HEAT_SETPOINT as int;
    let abs_max = H::ABS_MAX_HEAT_SETPOINT as int;
    &&& if requests::limits_served::<H>() {
        &&& brought_into(stored.min_limit as int, abs_min, abs_max, mended.min_limit as int)
        &&& brought_into(
            stored.max_limit as int,
            mended.min_limit as int,
            abs_max,
            mended.max_limit as int,
        )
        &&& brought_into(
            stored.setpoint as int,
            mended.min_limit as int,
            mended.max_limit as int,
            mended.setpoint as int,
        )
    } else {
        &&& mended.min_limit == stored.min_limit
        &&& mended.max_limit == stored.max_limit
        &&& brought_into(stored.setpoint as int, abs_min, abs_max, mended.setpoint as int)
    }
    &&& if stored.mode == SystemModeEnum::Off || stored.mode == SystemModeEnum::Heat {
        mended.mode == stored.mode
    } else {
        mended.mode == SystemModeEnum::Off
    }
}

/// The calls that store what changes: the lower limit, the upper limit, the
/// setpoint, the mode.
pub open spec fn needed(stored: ControlState, mended: ControlState) -> Seq<HookCall> {
    (if mended.min_limit != stored.min_limit {
        seq![HookCall::SetMinHeatSetpointLimit(mended.min_limit)]
    } else {
        Seq::empty()
    }) + (if mended.max_limit != stored.max_limit {
        seq![HookCall::SetMaxHeatSetpointLimit(mended.max_limit)]
    } else {
        Seq::empty()
    }) + (if mended.setpoint != stored.setpoint {
        seq![HookCall::SetOccupiedHeatingSetpoint(mended.setpoint)]
    } else {
        Seq::empty()
    }) + (if mended.mode != stored.mode {
        seq![HookCall::SetSystemMode(mended.mode)]
    } else {
        Seq::empty()
    })
}

/// The records of calls that were carried out.
pub open spec fn all_made(calls: Seq<HookCall>) -> Seq<HookRecord> {
    Seq::new(calls.len(), |i: int| requests::made(calls[i]))
}

/// The repair came to an end with the call of the given index, which failed.
pub open spec fn stopped_at<H: ThermostatHooks>(
    before: H,
    after: H,
    mended: ControlState,
    index: int,
    error: Error,
) -> bool {
    let stored = before.control();
    let calls = needed(stored, mended);
    let state = after.control();
    let earlier = calls.take(index);
    &&& 0 <= index < calls.len()
    &&& !H::carries_out(calls[index])
    &&& after.calls() =~= before.calls() + all_made(earlier) + seq![
        requests::failed(calls[index], error),
    ]
    &&& H::fails_cleanly() ==> {
        &&& state.min_limit == if earlier.contains(
            HookCall::SetMinHeatSetpointLimit(mended.min_limit),
        ) {
            mended.min_limit
        } else {
            stored.min_limit
        }
        &&& state.max_limit == if earlier.contains(
            HookCall::SetMaxHeatSetpointLimit(mended.max_limit),
        ) {
            mended.max_limit
        } else {
            stored.max_limit
        }
        &&& state.setpoint == if earlier.contains(
            HookCall::SetOccupiedHeatingSetpoint(mended.setpoint),
        ) {
            mended.setpoint
        } else {
            stored.setpoint
        }
        &&& state.mode == stored.mode
    }
}

/// A repair stores exactly what has to change, in order, and then applies the
/// outcome; the first call that the device fails ends it.
#[verifier::rlimit(40)]
#[verifier::spinoff_prover]
pub proof fn law_a_repair<H: ThermostatHooks>(
    handler: &mut ThermostatHandler<H>,
    mended: ControlState,
    result: Result<(), Error>,
)
    requires
        H::ABS_MIN_HEAT_SETPOINT <= H::ABS_MAX_HEAT_SETPOINT,
        call_ensures(ThermostatHandler::<H>::repair, (handler,), result) || call_ensures(
            ThermostatHandler::<H>::lifecycle,
            (handler, LifecycleOp::Startup),
            result,
        ),
        is_mended::<H>(old(handler).hooks.control(), mended),
    ensures
        ({
            let before = *old(handler);
            let after = *final(handler);
            let stored = before.hooks.control();
            let known = before.hooks.calls().len() as int;
            &&& after.dataver == before.dataver
            &&& after.endpoint_id == before.endpoint_id
            &&& after.pending == before.pending
            &&& after.journal@ =~= before.journal@ + Seq::new(
                (after.hooks.calls().len() - known) as nat,
                |i: int| Event::Called(after.hooks.calls()[known + i]),
            )
            &&& match result {
                Ok(()) => {
                    &&& after.hooks.control() == mended
                    &&& after.hooks.calls() =~= before.hooks.calls() + all_made(
                        needed(stored, mended),
                    ) + seq![requests::made(HookCall::Apply(mended.mode, mended.setpoint))]
                },
                Err(error) => exists|index: int| #[trigger]
                    stopped_at(before.hooks, after.hooks, mended, index, error),
            }
        }),
{
    let before = *old(handler);
    let after = *final(handler);
    let stored = before.hooks.control();
    let calls = needed(stored, mended);
    let plan = model::repair_plan(stored, mended);
    lemma_mended::<H>(stored, mended);
    lemma_plan(stored, mended);
    let done = choose|done: int|
        {
            &&& #[trigger] model::carried_out(
                before.hooks.calls(),
                after.hooks.calls(),
                plan,
                done,
                result,
            )
            &&& result is Err ==> !H::carries_out(plan[done])
            &&& H::fails_cleanly() && result is Err ==> after.hooks.control() == model::effects(
                stored,
                plan.take(done),
            )
        };
    if let Err(error) = result {
        assert(plan.take(done) =~= calls.take(done));
        lemma_effects_of_needed(stored, mended, done);
        assert(stopped_at(before.hooks, after.hooks, mended, done, error));
    }
}

/// There is only one state that a stored one has to become.
proof fn lemma_mended<H: ThermostatHooks>(stored: ControlState, mended: ControlState)
    requires
        H::ABS_MIN_HEAT_SETPOINT <= H::ABS_MAX_HEAT_SETPOINT,
        is_mended::<H>(stored, mended),
    ensures
        model::repaired(hooks::heating_range::<H>(), stored) == mended,
{
}

/// The needed calls, and then the one that applies the outcome.
proof fn lemma_plan(stored: ControlState, mended: ControlState)
    ensures
        model::repair_plan(stored, mended) == needed(stored, mended).push(
            HookCall::Apply(mended.mode, mended.setpoint),
        ),
{
    assert(model::repair_plan(stored, mended) =~= needed(stored, mended).push(
        HookCall::Apply(mended.mode, mended.setpoint),
    ));
}

/// The effects of the first of the needed calls.
proof fn lemma_effects_of_needed(stored: ControlState, mended: ControlState, index: int)
    requires
        0 <= index < needed(stored, mended).len(),
    ensures
        ({
            let earlier = needed(stored, mended).take(index);
            let state = model::effects(stored, earlier);
            &&& state.min_limit == if earlier.contains(
                HookCall::SetMinHeatSetpointLimit(mended.min_limit),
            ) {
                mended.min_limit
            } else {
                stored.min_limit
            }
            &&& state.max_limit == if earlier.contains(
                HookCall::SetMaxHeatSetpointLimit(mended.max_limit),
            ) {
                mended.max_limit
            } else {
                stored.max_limit
            }
            &&& state.setpoint == if earlier.contains(
                HookCall::SetOccupiedHeatingSetpoint(mended.setpoint),
            ) {
                mended.setpoint
            } else {
                stored.setpoint
            }
            &&& state.mode == stored.mode
        }),
{
    let earlier = needed(stored, mended).take(index);
    reveal_with_fuel(model::effects, 5);
    assert(earlier.len() == index);
    if index > 0 {
        assert(earlier.contains(earlier[0]));
    }
    if index > 1 {
        assert(earlier.contains(earlier[1]));
    }
    if index > 2 {
        assert(earlier.contains(earlier[2]));
    }
}

/// Every stored state can be mended.
pub proof fn law_a_stored_state_can_be_mended<H: ThermostatHooks>(stored: ControlState)
    requires
        H::ABS_MIN_HEAT_SETPOINT <= H::ABS_MAX_HEAT_SETPOINT,
    ensures
        is_mended::<H>(stored, model::repaired(hooks::heating_range::<H>(), stored)),
{
}

/// A repair moves each limit no further than needed: no value that the limit may
/// have lies nearer to the stored one.
pub proof fn law_a_repair_moves_the_limits_least<H: ThermostatHooks>(
    handler: &mut ThermostatHandler<H>,
    other: i16,
)
    requires
        H::ABS_MIN_HEAT_SETPOINT <= H::ABS_MAX_HEAT_SETPOINT,
        requests::limits_served::<H>(),
        call_ensures(ThermostatHandler::<H>::repair, (handler,), Ok(())),
    ensures
        ({
            let old_min = old(handler).hooks.control().min_limit;
            let old_max = old(handler).hooks.control().max_limit;
            let new_min = final(handler).hooks.control().min_limit;
            let new_max = final(handler).hooks.control().max_limit;
            &&& H::ABS_MIN_HEAT_SETPOINT <= new_min <= new_max <= H::ABS_MAX_HEAT_SETPOINT
            &&& H::ABS_MIN_HEAT_SETPOINT <= other <= H::ABS_MAX_HEAT_SETPOINT ==> laws::distance(
                old_min,
                new_min,
            ) <= laws::distance(old_min, other)
            &&& new_min <= other <= H::ABS_MAX_HEAT_SETPOINT ==> laws::distance(old_max, new_max)
                <= laws::distance(old_max, other)
        }),
{
}

/// Nothing happens when the node is shut down.
pub proof fn law_a_shutdown<H: ThermostatHooks>(
    handler: &mut ThermostatHandler<H>,
    result: Result<(), Error>,
)
    requires
        call_ensures(
            ThermostatHandler::<H>::lifecycle,
            (handler, LifecycleOp::Shutdown),
            result,
        ),
    ensures
        result is Ok,
        *final(handler) == *old(handler),
{
}

} // verus!
