//! What each request is for: which values are accepted, what is stored, what
//! the device is called for and what subscribers are told.
//!
//! The laws speak of a call of the handler and of its result, over the stored
//! values and the numbers of the attributes alone.

use vstd::prelude::*;

use crate::cluster::{
    AttrId, ControlSequenceOfOperationEnum, SetpointRaiseLowerModeEnum, SystemModeEnum,
};
use crate::error::{Error, ErrorCode};
use crate::handler::{SetpointRaiseLowerRequest, ThermostatHandler};
use crate::hooks;
use crate::hooks::{AttrChangeNotifier, AttrPath, HookCall, HookRecord, ThermostatHooks};
use crate::journal::Event;
use crate::model;
use crate::model::{ControlState, HeatingRange, Request};

verus! {

/// Whether the device serves the user-configurable setpoint limits.
pub open spec fn limits_served<H: ThermostatHooks>() -> bool {
    H::metadata().attributes.contains(0x0015)
}

/// Whether the setpoint may be put to `value`: within the stored limits where
/// these are served, else within those of the manufacturer.
pub open spec fn permitted<H: ThermostatHooks>(state: ControlState, value: int) -> bool {
    if limits_served::<H>() {
        state.min_limit <= value <= state.max_limit
    } else {
        H::ABS_MIN_HEAT_SETPOINT <= value <= H::ABS_MAX_HEAT_SETPOINT
    }
}

/// A call that the device carried out.
pub open spec fn made(call: HookCall) -> HookRecord {
    HookRecord { call, failure: None }
}

/// A call that the device failed.
pub open spec fn failed(call: HookCall, error: Error) -> HookRecord {
    HookRecord { call, failure: Some(error) }
}

/// The place of the attribute with the given number.
pub open spec fn place<H: ThermostatHooks>(handler: ThermostatHandler<H>, attr_id: AttrId) -> AttrPath {
    AttrPath { endpoint_id: handler.endpoint_id, cluster_id: H::metadata().id, attr_id }
}

/// The handler and its notifier before and after a request.
pub struct Passage<H: ThermostatHooks, N: AttrChangeNotifier> {
    pub before: ThermostatHandler<H>,
    pub after: ThermostatHandler<H>,
    pub notifier_before: N,
    pub notifier_after: N,
}

/// From one handler and notifier to another.
pub open spec fn between<H: ThermostatHooks, N: AttrChangeNotifier>(
    before: ThermostatHandler<H>,
    after: ThermostatHandler<H>,
    notifier_before: N,
    notifier_after: N,
) -> Passage<H, N> {
    Passage { before, after, notifier_before, notifier_after }
}

impl<H: ThermostatHooks, N: AttrChangeNotifier> Passage<H, N> {
    /// The stored state before.
    pub open spec fn old_state(self) -> ControlState {
        self.before.hooks.control()
    }

    /// The stored state after.
    pub open spec fn new_state(self) -> ControlState {
        self.after.hooks.control()
    }

    /// What no request touches.
    pub open spec fn keeps_the_rest(self) -> bool {
        &&& self.after.dataver == self.before.dataver
        &&& self.after.endpoint_id == self.before.endpoint_id
        &&& self.after.pending == self.before.pending
    }

    /// Nothing happened at all: the device was not called, nobody was told.
    pub open spec fn nothing_happened(self) -> bool {
        &&& self.after.hooks == self.before.hooks
        &&& self.after.journal == self.before.journal
        &&& self.notifier_after == self.notifier_before
    }

    /// The device got exactly these calls, the subscribers exactly these reports,
    /// in this order.
    pub open spec fn happened(
        self,
        calls: Seq<HookRecord>,
        reports: Seq<AttrPath>,
        events: Seq<Event>,
    ) -> bool {
        &&& self.after.hooks.calls() =~= self.before.hooks.calls() + calls
        &&& self.notifier_after.reported() =~= self.notifier_before.reported() + reports
        &&& self.after.journal@ =~= self.before.journal@ + events
    }

    /// One setter was called, and failed.
    pub open spec fn failed_at_once(self, call: HookCall, error: Error) -> bool {
        &&& !H::carries_out(call)
        &&& self.happened(
            seq![failed(call, error)],
            Seq::empty(),
            seq![Event::Called(failed(call, error))],
        )
        &&& H::fails_cleanly() ==> self.new_state() == self.old_state()
    }

    /// One setter was called, the outcome was applied, and then the attribute was
    /// reported.
    pub open spec fn stored_applied_reported(
        self,
        call: HookCall,
        apply: HookCall,
        attr_id: AttrId,
    ) -> bool {
        self.happened(
            seq![made(call), made(apply)],
            seq![place(self.before, attr_id)],
            seq![
                Event::Called(made(call)),
                Event::Called(made(apply)),
                Event::Reported(place(self.before, attr_id)),
            ],
        )
    }

    /// What becomes of a write of `OccupiedHeatingSetpoint`.
    pub open spec fn writes_setpoint(self, value: i16, result: Result<(), Error>) -> bool {
        let old = self.old_state();
        let new = self.new_state();
        let call = HookCall::SetOccupiedHeatingSetpoint(value);
        &&& self.keeps_the_rest()
        &&& if permitted::<H>(old, value as int) {
            match result {
                Ok(()) => {
                    &&& new.setpoint == value
                    &&& new.min_limit == old.min_limit
                    &&& new.max_limit == old.max_limit
                    &&& new.mode == old.mode
                    &&& self.stored_applied_reported(call, HookCall::Apply(old.mode, value), 0x0012)
                },
                Err(error) => self.failed_at_once(call, error),
            }
        } else {
            &&& result == Err::<(), Error>(Error { code: ErrorCode::ConstraintError })
            &&& self.nothing_happened()
        }
    }

    /// What becomes of a write of `SystemMode`.
    pub open spec fn writes_mode(self, mode: SystemModeEnum, result: Result<(), Error>) -> bool {
        let old = self.old_state();
        let new = self.new_state();
        let call = HookCall::SetSystemMode(mode);
        &&& self.keeps_the_rest()
        &&& if mode == SystemModeEnum::Off || mode == SystemModeEnum::Heat {
            match result {
                Ok(()) => {
                    &&& new.mode == mode
                    &&& new.setpoint == old.setpoint
                    &&& new.min_limit == old.min_limit
                    &&& new.max_limit == old.max_limit
                    &&& self.stored_applied_reported(
                        call,
                        HookCall::Apply(mode, old.setpoint),
                        0x001C,
                    )
                },
                Err(error) => self.failed_at_once(call, error),
            }
        } else {
            &&& result == Err::<(), Error>(Error { code: ErrorCode::ConstraintError })
            &&& self.nothing_happened()
        }
    }

    /// What becomes of a limit that is stored with `call`, has the number
    /// `attr_id` and drags the setpoint along where it conflicts with it.
    pub open spec fn stores_limit(
        self,
        call: HookCall,
        attr_id: AttrId,
        value: i16,
        conflict: bool,
        result: Result<(), Error>,
    ) -> bool {
        let old = self.old_state();
        let new = self.new_state();
        let drag = HookCall::SetOccupiedHeatingSetpoint(value);
        let apply = HookCall::Apply(old.mode, value);
        match result {
            Ok(()) => {
                &&& new.mode == old.mode
                &&& conflict ==> {
                    &&& new.setpoint == value
                    &&& self.happened(
                        seq![made(call), made(drag), made(apply)],
                        seq![place(self.before, attr_id), place(self.before, 0x0012)],
                        seq![
                            Event::Called(made(call)),
                            Event::Reported(place(self.before, attr_id)),
                            Event::Called(made(drag)),
                            Event::Called(made(apply)),
                            Event::Reported(place(self.before, 0x0012)),
                        ],
                    )
                }
                &&& !conflict ==> {
                    &&& new.setpoint == old.setpoint
                    &&& self.happened(
                        seq![made(call)],
                        seq![place(self.before, attr_id)],
                        seq![
                            Event::Called(made(call)),
                            Event::Reported(place(self.before, attr_id)),
                        ],
                    )
                }
            },
            Err(error) => {
                ||| self.failed_at_once(call, error)
                ||| {
                    &&& conflict
                    &&& !H::carries_out(drag)
                    &&& self.happened(
                        seq![made(call), failed(drag, error)],
                        seq![place(self.before, attr_id)],
                        seq![
                            Event::Called(made(call)),
                            Event::Reported(place(self.before, attr_id)),
                            Event::Called(failed(drag, error)),
                        ],
                    )
                    &&& H::fails_cleanly() ==> new.setpoint == old.setpoint && new.mode == old.mode
                }
            },
        }
    }

    /// What becomes of a write of `MinHeatSetpointLimit`.
    pub open spec fn writes_min_limit(self, value: i16, result: Result<(), Error>) -> bool {
        let old = self.old_state();
        let new = self.new_state();
        let call = HookCall::SetMinHeatSetpointLimit(value);
        &&& self.keeps_the_rest()
        &&& if H::ABS_MIN_HEAT_SETPOINT <= value && value <= old.max_limit {
            &&& self.stores_limit(call, 0x0015, value, old.setpoint < value, result)
            &&& result is Ok || H::fails_cleanly() ==> new.max_limit == old.max_limit
            &&& result is Ok ==> new.min_limit == value
            &&& result is Err && H::fails_cleanly() ==> new.min_limit == (if self.after.hooks.calls().len()
                == self.before.hooks.calls().len() + 1 {
                old.min_limit
            } else {
                value
            })
        } else {
            &&& result == Err::<(), Error>(Error { code: ErrorCode::ConstraintError })
            &&& self.nothing_happened()
        }
    }

    /// What becomes of a write of `MaxHeatSetpointLimit`.
    pub open spec fn writes_max_limit(self, value: i16, result: Result<(), Error>) -> bool {
        let old = self.old_state();
        let new = self.new_state();
        let call = HookCall::SetMaxHeatSetpointLimit(value);
        &&& self.keeps_the_rest()
        &&& if old.min_limit <= value && value <= H::ABS_MAX_HEAT_SETPOINT {
            &&& self.stores_limit(call, 0x0016, value, old.setpoint > value, result)
            &&& result is Ok || H::fails_cleanly() ==> new.min_limit == old.min_limit
            &&& result is Ok ==> new.max_limit == value
            &&& result is Err && H::fails_cleanly() ==> new.max_limit == (if self.after.hooks.calls().len()
                == self.before.hooks.calls().len() + 1 {
                old.max_limit
            } else {
                value
            })
        } else {
            &&& result == Err::<(), Error>(Error { code: ErrorCode::ConstraintError })
            &&& self.nothing_happened()
        }
    }

    /// What becomes of raising the setpoint by `amount` tenths of a degree, if
    /// that ends at `reached`.
    pub open spec fn moves_setpoint(
        self,
        amount: i8,
        reached: i16,
        result: Result<(), Error>,
    ) -> bool {
        let old = self.old_state();
        let new = self.new_state();
        let call = HookCall::SetOccupiedHeatingSetpoint(reached);
        let (lo, hi) = if limits_served::<H>() {
            (old.min_limit, old.max_limit)
        } else {
            (H::ABS_MIN_HEAT_SETPOINT, H::ABS_MAX_HEAT_SETPOINT)
        };
        let target = old.setpoint + amount * 10;
        &&& lo <= target <= hi ==> reached == target
        &&& target < lo ==> reached == lo
        &&& hi < target ==> reached == hi
        &&& match result {
            Ok(()) => {
                &&& new.setpoint == reached
                &&& new.min_limit == old.min_limit
                &&& new.max_limit == old.max_limit
                &&& new.mode == old.mode
                &&& if reached == old.setpoint {
                    self.happened(Seq::empty(), Seq::empty(), Seq::empty())
                } else {
                    self.stored_applied_reported(
                        call,
                        HookCall::Apply(old.mode, reached),
                        0x0012,
                    )
                }
            },
            Err(error) => reached != old.setpoint && self.failed_at_once(call, error),
        }
    }

    /// What becomes of a `SetpointRaiseLower` command. There is only the heating
    /// setpoint to move.
    pub open spec fn raises(
        self,
        mode: SetpointRaiseLowerModeEnum,
        amount: i8,
        result: Result<(), Error>,
    ) -> bool {
        &&& self.keeps_the_rest()
        &&& if mode == SetpointRaiseLowerModeEnum::Cool {
            &&& result == Err::<(), Error>(Error { code: ErrorCode::InvalidCommand })
            &&& self.nothing_happened()
        } else {
            exists|reached: i16| #[trigger] self.moves_setpoint(amount, reached, result)
        }
    }
}

/// What the handler's answer to a request amounts to.
#[verifier::rlimit(40)]
#[verifier::spinoff_prover]
proof fn lemma_answers<H: ThermostatHooks, N: AttrChangeNotifier>(
    passage: Passage<H, N>,
    request: Request,
    result: Result<(), Error>,
)
    requires
        ThermostatHandler::answers(
            passage.before,
            passage.after,
            passage.notifier_before,
            passage.notifier_after,
            request,
            result,
        ),
    ensures
        match request {
            Request::WriteOccupiedHeatingSetpoint(value) => passage.writes_setpoint(value, result),
            Request::WriteMinHeatSetpointLimit(value) => passage.writes_min_limit(value, result),
            Request::WriteMaxHeatSetpointLimit(value) => passage.writes_max_limit(value, result),
            Request::WriteSystemMode(mode) => passage.writes_mode(mode, result),
            Request::WriteControlSequenceOfOperation(_) => passage.keeps_the_rest() && result is Ok
                && passage.new_state() == passage.old_state() && passage.happened(
                Seq::empty(),
                Seq::empty(),
                Seq::empty(),
            ),
            Request::SetpointRaiseLower(mode, amount) => {
                let range = hooks::heating_range::<H>();
                let state = passage.old_state();
                state.floor(range) <= state.ceiling(range) ==> passage.raises(mode, amount, result)
            },
        },
{
    let state = passage.before.hooks.control();
    let range = hooks::heating_range::<H>();
    let plan = model::plan(range, state, request);
    let endpoint_id = passage.before.endpoint_id;
    let cluster_id = H::metadata().id;
    model::lemma_first_calls(endpoint_id, cluster_id, state, plan);
    if model::refusal(range, state, request) is None {
        let done = choose|done: int|
            {
                &&& #[trigger] model::carried_out(
                    passage.before.hooks.calls(),
                    passage.after.hooks.calls(),
                    plan,
                    done,
                    result,
                )
                &&& passage.notifier_after.reported() =~= passage.notifier_before.reported()
                    + model::paths(
                    endpoint_id,
                    cluster_id,
                    model::written_attributes(plan.take(done)),
                )
                &&& passage.after.journal@ =~= passage.before.journal@ + model::events(
                    endpoint_id,
                    cluster_id,
                    plan,
                    done,
                    result,
                )
                &&& result is Err ==> !H::carries_out(plan[done])
                &&& H::fails_cleanly() && result is Err ==> passage.after.hooks.control()
                    == model::effects(state, plan.take(done))
            };
        match request {
            Request::SetpointRaiseLower(mode, amount) => {
                if state.floor(range) <= state.ceiling(range) {
                    let reached = model::raised_setpoint(range, state, amount);
                    assert(passage.moves_setpoint(amount, reached, result));
                }
            },
            _ => {},
        }
    }
}

/// A write of the setpoint is accepted exactly when the value lies within the
/// effective limits. It is then stored, applied and reported, and nothing else
/// changes; a refused write leaves everything as it was.
pub proof fn law_a_setpoint_write<H: ThermostatHooks, N: AttrChangeNotifier>(
    handler: &mut ThermostatHandler<H>,
    notifier: &mut N,
    value: i16,
    result: Result<(), Error>,
)
    requires
        call_ensures(
            ThermostatHandler::<H>::write_occupied_heating_setpoint::<N>,
            (handler, notifier, value),
            result,
        ) || call_ensures(
            ThermostatHandler::<H>::set_occupied_heating_setpoint::<N>,
            (handler, notifier, value),
            result,
        ),
    ensures
        between(*old(handler), *final(handler), *old(notifier), *final(notifier)).writes_setpoint(value, result),
{
    let passage = between(*old(handler), *final(handler), *old(notifier), *final(notifier));
    lemma_answers(passage, Request::WriteOccupiedHeatingSetpoint(value), result);
}

/// A write of the lower limit is accepted exactly when the value lies between the
/// absolute minimum and the upper limit. A setpoint below it is raised to it, any
/// other stays; the limit is reported, and a setpoint that moved is applied and
/// reported after it.
pub proof fn law_a_min_limit_write<H: ThermostatHooks, N: AttrChangeNotifier>(
    handler: &mut ThermostatHandler<H>,
    notifier: &mut N,
    value: i16,
    result: Result<(), Error>,
)
    requires
        call_ensures(
            ThermostatHandler::<H>::write_min_heat_setpoint_limit::<N>,
            (handler, notifier, value),
            result,
        ) || call_ensures(
            ThermostatHandler::<H>::set_min_heat_setpoint_limit::<N>,
            (handler, notifier, value),
            result,
        ),
    ensures
        between(*old(handler), *final(handler), *old(notifier), *final(notifier)).writes_min_limit(value, result),
{
    let passage = between(*old(handler), *final(handler), *old(notifier), *final(notifier));
    lemma_answers(passage, Request::WriteMinHeatSetpointLimit(value), result);
}

/// A write of the upper limit is accepted exactly when the value lies between the
/// lower limit and the absolute maximum. A setpoint above it is lowered to it, any
/// other stays; the limit is reported, and a setpoint that moved is applied and
/// reported after it.
pub proof fn law_a_max_limit_write<H: ThermostatHooks, N: AttrChangeNotifier>(
    handler: &mut ThermostatHandler<H>,
    notifier: &mut N,
    value: i16,
    result: Result<(), Error>,
)
    requires
        call_ensures(
            ThermostatHandler::<H>::write_max_heat_setpoint_limit::<N>,
            (handler, notifier, value),
            result,
        ) || call_ensures(
            ThermostatHandler::<H>::set_max_heat_setpoint_limit::<N>,
            (handler, notifier, value),
            result,
        ),
    ensures
        between(*old(handler), *final(handler), *old(notifier), *final(notifier)).writes_max_limit(value, result),
{
    let passage = between(*old(handler), *final(handler), *old(notifier), *final(notifier));
    lemma_answers(passage, Request::WriteMaxHeatSetpointLimit(value), result);
}

/// A write of the mode is accepted exactly for `Off` and `Heat`, whatever the
/// state. It is then stored, applied with the setpoint as it is, and reported.
pub proof fn law_a_mode_write<H: ThermostatHooks, N: AttrChangeNotifier>(
    handler: &mut ThermostatHandler<H>,
    notifier: &mut N,
    value: SystemModeEnum,
    result: Result<(), Error>,
)
    requires
        call_ensures(
            ThermostatHandler::<H>::write_system_mode::<N>,
            (handler, notifier, value),
            result,
        ) || call_ensures(
            ThermostatHandler::<H>::set_system_mode::<N>,
            (handler, notifier, value),
            result,
        ),
    ensures
        between(*old(handler), *final(handler), *old(notifier), *final(notifier)).writes_mode(value, result),
{
    let passage = between(*old(handler), *final(handler), *old(notifier), *final(notifier));
    lemma_answers(passage, Request::WriteSystemMode(value), result);
}

/// A write of the control sequence succeeds and does nothing.
pub proof fn law_a_control_sequence_write<H: ThermostatHooks, N: AttrChangeNotifier>(
    handler: &ThermostatHandler<H>,
    notifier: &mut N,
    value: ControlSequenceOfOperationEnum,
    result: Result<(), Error>,
)
    requires
        call_ensures(
            ThermostatHandler::<H>::set_control_sequence_of_operation::<N>,
            (handler, notifier, value),
            result,
        ),
    ensures
        result is Ok,
        *final(notifier) == *old(notifier),
{
}

/// A `SetpointRaiseLower` command moves the setpoint by ten times the amount, or
/// as far towards that as the effective limits allow. Only cooling is refused. A
/// setpoint that does not move is neither stored nor reported.
pub proof fn law_a_raise_or_lower<H: ThermostatHooks, N: AttrChangeNotifier>(
    handler: &mut ThermostatHandler<H>,
    notifier: &mut N,
    mode: SetpointRaiseLowerModeEnum,
    amount: i8,
    result: Result<(), Error>,
)
    requires
        call_ensures(
            ThermostatHandler::<H>::raise_lower_setpoint::<N>,
            (handler, notifier, mode, amount),
            result,
        ) || call_ensures(
            ThermostatHandler::<H>::handle_setpoint_raise_lower::<N>,
            (
                handler,
                notifier,
                (SetpointRaiseLowerRequest { mode: Ok(mode), amount: Ok(amount) }),
            ),
            result,
        ),
        limits_served::<H>() ==> old(handler).hooks.control().min_limit
            <= old(handler).hooks.control().max_limit,
        !limits_served::<H>() ==> H::ABS_MIN_HEAT_SETPOINT <= H::ABS_MAX_HEAT_SETPOINT,
    ensures
        between(*old(handler), *final(handler), *old(notifier), *final(notifier)).raises(
            mode,
            amount,
            result,
        ),
{
    let passage = between(*old(handler), *final(handler), *old(notifier), *final(notifier));
    lemma_answers(passage, Request::SetpointRaiseLower(mode, amount), result);
}

/// A `SetpointRaiseLower` command that cannot be decoded is answered with the
/// decoder's error, the mode's first, and does nothing.
pub proof fn law_an_undecodable_raise_or_lower<H: ThermostatHooks, N: AttrChangeNotifier>(
    handler: &mut ThermostatHandler<H>,
    notifier: &mut N,
    request: SetpointRaiseLowerRequest,
    result: Result<(), Error>,
)
    requires
        call_ensures(
            ThermostatHandler::<H>::handle_setpoint_raise_lower::<N>,
            (handler, notifier, request),
            result,
        ),
        request.mode is Err || request.amount is Err,
    ensures
        result is Err,
        request.mode matches Err(error) ==> result->Err_0 == error,
        request.mode is Ok ==> result->Err_0 == request.amount->Err_0,
        *final(handler) == *old(handler),
        *final(notifier) == *old(notifier),
{
}

/// Which requests are refused, and with which error, in terms of the stored
/// values.
pub proof fn law_a_request_is_refused_for_a_reason(
    range: HeatingRange,
    state: ControlState,
    request: Request,
)
    ensures
        match request {
            Request::WriteOccupiedHeatingSetpoint(value) => model::refusal(range, state, request)
                is None <==> if range.has_limits {
                state.min_limit <= value <= state.max_limit
            } else {
                range.abs_min <= value <= range.abs_max
            },
            Request::WriteMinHeatSetpointLimit(value) => model::refusal(range, state, request)
                is None <==> range.abs_min <= value <= state.max_limit,
            Request::WriteMaxHeatSetpointLimit(value) => model::refusal(range, state, request)
                is None <==> state.min_limit <= value <= range.abs_max,
            Request::WriteSystemMode(mode) => model::refusal(range, state, request) is None <==> mode
                == SystemModeEnum::Off || mode == SystemModeEnum::Heat,
            Request::WriteControlSequenceOfOperation(_) => model::refusal(range, state, request)
                is None,
            Request::SetpointRaiseLower(mode, _) => model::refusal(range, state, request) is None
                <==> mode != SetpointRaiseLowerModeEnum::Cool,
        },
        model::refusal(range, state, request) matches Some(code) ==> code == if request
            is SetpointRaiseLower {
            ErrorCode::InvalidCommand
        } else {
            ErrorCode::ConstraintError
        },
{
}

} // verus!
