//! What the thermostat is, and what each request does to it, as mathematics.
//!
//! A request is judged ([`refusal`]) and, unless it is refused, it moves the
//! state ([`next`]) by a list of calls to the device ([`plan`]).

use vstd::prelude::*;

use crate::cluster::{
    AttributeId, ClusterId, ControlSequenceOfOperationEnum, EndptId, SetpointRaiseLowerModeEnum,
    SystemModeEnum,
};
use crate::error::{Error, ErrorCode};
use crate::hooks::{AttrPath, HookCall, HookRecord};
use crate::journal::Event;

verus! {

/// The state of the thermostat that requests read and write. Temperatures are
/// in 0.01 degrees Celsius.
pub struct ControlState {
    pub setpoint: i16,
    pub min_limit: i16,
    pub max_limit: i16,
    pub mode: SystemModeEnum,
}

/// What the device fixes about the heating setpoint: the manufacturer's
/// absolute limits, and whether user-configurable limits are served as well.
pub struct HeatingRange {
    pub abs_min: i16,
    pub abs_max: i16,
    pub has_limits: bool,
}

impl ControlState {
    pub open spec fn with_setpoint(self, setpoint: i16) -> Self {
        ControlState { setpoint, ..self }
    }

    pub open spec fn with_min_limit(self, min_limit: i16) -> Self {
        ControlState { min_limit, ..self }
    }

    pub open spec fn with_max_limit(self, max_limit: i16) -> Self {
        ControlState { max_limit, ..self }
    }

    pub open spec fn with_mode(self, mode: SystemModeEnum) -> Self {
        ControlState { mode, ..self }
    }

    /// The effective lower bound on the heating setpoint.
    pub open spec fn floor(self, range: HeatingRange) -> i16 {
        if range.has_limits {
            self.min_limit
        } else {
            range.abs_min
        }
    }

    /// The effective upper bound on the heating setpoint.
    pub open spec fn ceiling(self, range: HeatingRange) -> i16 {
        if range.has_limits {
            self.max_limit
        } else {
            range.abs_max
        }
    }

    /// The constraint chain: the setpoint lies within the effective limits, and
    /// these lie within the absolute ones.
    pub open spec fn in_chain(self, range: HeatingRange) -> bool {
        range.abs_min <= self.floor(range) <= self.setpoint <= self.ceiling(range) <= range.abs_max
    }

    /// A state that the cluster may report: in the chain, and in a mode that a
    /// heating-only thermostat has.
    pub open spec fn well_formed(self, range: HeatingRange) -> bool {
        self.in_chain(range) && is_heating_mode(self.mode)
    }
}

/// The value of `lo ..= hi` that lies nearest to `value`.
pub open spec fn clamp(value: int, lo: int, hi: int) -> int {
    if value < lo {
        lo
    } else if value > hi {
        hi
    } else {
        value
    }
}

/// The modes that a device without cooling, fan, dehumidifier or second stage
/// can be in.
pub open spec fn is_heating_mode(mode: SystemModeEnum) -> bool {
    mode is Off || mode is Heat
}

/// What a client may ask of the thermostat.
pub enum Request {
    WriteOccupiedHeatingSetpoint(i16),
    WriteMinHeatSetpointLimit(i16),
    WriteMaxHeatSetpointLimit(i16),
    WriteSystemMode(SystemModeEnum),
    WriteControlSequenceOfOperation(ControlSequenceOfOperationEnum),
    SetpointRaiseLower(SetpointRaiseLowerModeEnum, i8),
}

/// The error with which the thermostat refuses a request, if it does.
pub open spec fn refusal(
    range: HeatingRange,
    state: ControlState,
    request: Request,
) -> Option<ErrorCode> {
    match request {
        Request::WriteOccupiedHeatingSetpoint(value) => if state.floor(range) <= value
            <= state.ceiling(range) {
            None
        } else {
            Some(ErrorCode::ConstraintError)
        },
        Request::WriteMinHeatSetpointLimit(value) => if range.abs_min <= value
            <= state.max_limit {
            None
        } else {
            Some(ErrorCode::ConstraintError)
        },
        Request::WriteMaxHeatSetpointLimit(value) => if state.min_limit <= value
            <= range.abs_max {
            None
        } else {
            Some(ErrorCode::ConstraintError)
        },
        Request::WriteSystemMode(mode) => if is_heating_mode(mode) {
            None
        } else {
            Some(ErrorCode::ConstraintError)
        },
        Request::WriteControlSequenceOfOperation(_) => None,
        Request::SetpointRaiseLower(mode, _) => if mode is Cool {
            Some(ErrorCode::InvalidCommand)
        } else {
            None
        },
    }
}

/// The setpoint that a `SetpointRaiseLower` by `amount` aims at. The amount is
/// in steps of 0.1 degrees, the setpoint in 0.01 degrees.
pub open spec fn raised_setpoint(range: HeatingRange, state: ControlState, amount: i8) -> i16 {
    clamp(
        state.setpoint + 10 * amount,
        state.floor(range) as int,
        state.ceiling(range) as int,
    ) as i16
}

/// The state after a request that is not refused and that the device carries
/// out.
pub open spec fn next(range: HeatingRange, state: ControlState, request: Request) -> ControlState {
    match request {
        Request::WriteOccupiedHeatingSetpoint(value) => state.with_setpoint(value),
        Request::WriteMinHeatSetpointLimit(value) => state.with_min_limit(value).with_setpoint(
            if state.setpoint < value {
                value
            } else {
                state.setpoint
            },
        ),
        Request::WriteMaxHeatSetpointLimit(value) => state.with_max_limit(value).with_setpoint(
            if state.setpoint > value {
                value
            } else {
                state.setpoint
            },
        ),
        Request::WriteSystemMode(mode) => state.with_mode(mode),
        Request::WriteControlSequenceOfOperation(_) => state,
        Request::SetpointRaiseLower(_, amount) => state.with_setpoint(
            raised_setpoint(range, state, amount),
        ),
    }
}

/// The calls that store a new setpoint and bring it to bear.
pub open spec fn move_setpoint(state: ControlState, value: i16) -> Seq<HookCall> {
    seq![HookCall::SetOccupiedHeatingSetpoint(value), HookCall::Apply(state.mode, value)]
}

/// The calls to the device by which a request that is not refused is served.
pub open spec fn plan(range: HeatingRange, state: ControlState, request: Request) -> Seq<HookCall> {
    match request {
        Request::WriteOccupiedHeatingSetpoint(value) => move_setpoint(state, value),
        Request::WriteMinHeatSetpointLimit(value) => seq![HookCall::SetMinHeatSetpointLimit(value)]
            + if state.setpoint < value {
            move_setpoint(state, value)
        } else {
            Seq::empty()
        },
        Request::WriteMaxHeatSetpointLimit(value) => seq![HookCall::SetMaxHeatSetpointLimit(value)]
            + if state.setpoint > value {
            move_setpoint(state, value)
        } else {
            Seq::empty()
        },
        Request::WriteSystemMode(mode) => seq![
            HookCall::SetSystemMode(mode),
            HookCall::Apply(mode, state.setpoint),
        ],
        Request::WriteControlSequenceOfOperation(_) => Seq::empty(),
        Request::SetpointRaiseLower(_, amount) => if raised_setpoint(range, state, amount)
            != state.setpoint {
            move_setpoint(state, raised_setpoint(range, state, amount))
        } else {
            Seq::empty()
        },
    }
}

/// The stored state pulled back into the constraint chain: the limits into the
/// absolute limits, the setpoint into the limits, an unsupported mode to `Off`.
pub open spec fn repaired(range: HeatingRange, state: ControlState) -> ControlState {
    let limited = if range.has_limits {
        let min_limit = clamp(
            state.min_limit as int,
            range.abs_min as int,
            range.abs_max as int,
        ) as i16;
        let max_limit = clamp(
            state.max_limit as int,
            min_limit as int,
            range.abs_max as int,
        ) as i16;
        state.with_min_limit(min_limit).with_max_limit(max_limit)
    } else {
        state
    };
    limited.with_setpoint(
        clamp(
            state.setpoint as int,
            limited.floor(range) as int,
            limited.ceiling(range) as int,
        ) as i16,
    ).with_mode(
        if is_heating_mode(state.mode) {
            state.mode
        } else {
            SystemModeEnum::Off
        },
    )
}

/// The call, if it is needed.
pub open spec fn if_needed(needed: bool, call: HookCall) -> Seq<HookCall> {
    if needed {
        seq![call]
    } else {
        Seq::empty()
    }
}

/// The calls that bring the device from `from` to `to`, one for each attribute
/// that differs, and bring the outcome to bear.
pub open spec fn repair_plan(from: ControlState, to: ControlState) -> Seq<HookCall> {
    if_needed(
        to.min_limit != from.min_limit,
        HookCall::SetMinHeatSetpointLimit(to.min_limit),
    ) + if_needed(
        to.max_limit != from.max_limit,
        HookCall::SetMaxHeatSetpointLimit(to.max_limit),
    ) + if_needed(
        to.setpoint != from.setpoint,
        HookCall::SetOccupiedHeatingSetpoint(to.setpoint),
    ) + if_needed(to.mode != from.mode, HookCall::SetSystemMode(to.mode)) + seq![
        HookCall::Apply(to.mode, to.setpoint),
    ]
}

/// The records of calls that all succeeded.
pub open spec fn succeeded(calls: Seq<HookCall>) -> Seq<HookRecord> {
    calls.map_values(|call: HookCall| HookRecord { call, failure: None })
}

/// A plan was carried out up to its `done`-th call: to the end with success, or
/// up to the call that the device failed, whose error is the result.
pub open spec fn carried_out(
    before: Seq<HookRecord>,
    after: Seq<HookRecord>,
    plan: Seq<HookCall>,
    done: int,
    result: Result<(), Error>,
) -> bool {
    match result {
        Ok(()) => done == plan.len() && after =~= before + succeeded(plan),
        Err(error) => 0 <= done < plan.len() && plan[done] !is Apply && after =~= before
            + succeeded(plan.take(done)).push(HookRecord { call: plan[done], failure: Some(error) }),
    }
}

/// The written attributes after one more call.
pub open spec fn and_written(earlier: Seq<AttributeId>, call: HookCall) -> Seq<AttributeId> {
    match call.attribute() {
        Some(attribute) => earlier.push(attribute),
        None => earlier,
    }
}

/// The attributes that the calls write, in the order of the calls.
pub open spec fn written_attributes(calls: Seq<HookCall>) -> Seq<AttributeId>
    decreases calls.len(),
{
    if calls.len() == 0 {
        Seq::empty()
    } else {
        and_written(written_attributes(calls.drop_last()), calls.last())
    }
}

/// The places of attributes of one cluster instance.
pub open spec fn paths(
    endpoint_id: EndptId,
    cluster_id: ClusterId,
    attributes: Seq<AttributeId>,
) -> Seq<AttrPath> {
    attributes.map_values(
        |attribute: AttributeId| AttrPath { endpoint_id, cluster_id, attr_id: attribute.number() },
    )
}

/// The state after a call that the device carries out.
pub open spec fn effect(state: ControlState, call: HookCall) -> ControlState {
    match call {
        HookCall::SetOccupiedHeatingSetpoint(value) => state.with_setpoint(value),
        HookCall::SetMinHeatSetpointLimit(value) => state.with_min_limit(value),
        HookCall::SetMaxHeatSetpointLimit(value) => state.with_max_limit(value),
        HookCall::SetSystemMode(mode) => state.with_mode(mode),
        HookCall::Apply(_, _) => state,
    }
}

/// The state after a series of calls that the device carries out.
pub open spec fn effects(state: ControlState, calls: Seq<HookCall>) -> ControlState
    decreases calls.len(),
{
    if calls.len() == 0 {
        state
    } else {
        effect(effects(state, calls.drop_last()), calls.last())
    }
}

/// The attribute that is due for a report after the last of the calls: a limit as
/// soon as it is stored, a setpoint or a mode once it is applied.
pub open spec fn due_report(calls: Seq<HookCall>) -> Option<AttributeId> {
    match calls.last() {
        HookCall::SetMinHeatSetpointLimit(_) => Some(AttributeId::MinHeatSetpointLimit),
        HookCall::SetMaxHeatSetpointLimit(_) => Some(AttributeId::MaxHeatSetpointLimit),
        HookCall::Apply(_, _) if calls.len() > 1 => calls[calls.len() - 2].attribute(),
        _ => None,
    }
}

/// The events after one more call that succeeded: the call, and the report that
/// is due after it.
pub open spec fn and_told(
    endpoint_id: EndptId,
    cluster_id: ClusterId,
    earlier: Seq<Event>,
    call: HookCall,
    due: Option<AttributeId>,
) -> Seq<Event> {
    let made = earlier.push(Event::Called(HookRecord { call, failure: None }));
    match due {
        Some(attribute) => made.push(
            Event::Reported(AttrPath { endpoint_id, cluster_id, attr_id: attribute.number() }),
        ),
        None => made,
    }
}

/// The events of serving a request by the given calls, all of which succeeded.
pub open spec fn told(endpoint_id: EndptId, cluster_id: ClusterId, calls: Seq<HookCall>) -> Seq<Event>
    decreases calls.len(),
{
    if calls.len() == 0 {
        Seq::empty()
    } else {
        and_told(
            endpoint_id,
            cluster_id,
            told(endpoint_id, cluster_id, calls.drop_last()),
            calls.last(),
            due_report(calls),
        )
    }
}

/// The events of serving a request by a plan that was carried out up to its
/// `done`-th call. A call that the device failed is the last of them.
pub open spec fn events(
    endpoint_id: EndptId,
    cluster_id: ClusterId,
    plan: Seq<HookCall>,
    done: int,
    result: Result<(), Error>,
) -> Seq<Event> {
    let made = told(endpoint_id, cluster_id, plan.take(done));
    match result {
        Ok(()) => made,
        Err(error) => made.push(
            Event::Called(HookRecord { call: plan[done], failure: Some(error) }),
        ),
    }
}

/// What the call of the given index adds: an attribute written, an effect on the
/// state, events.
pub open spec fn one_more_call(
    endpoint_id: EndptId,
    cluster_id: ClusterId,
    state: ControlState,
    calls: Seq<HookCall>,
    index: int,
) -> bool {
    let earlier = calls.take(index);
    let made = calls.take(index + 1);
    &&& written_attributes(made) == and_written(written_attributes(earlier), calls[index])
    &&& effects(state, made) == effect(effects(state, earlier), calls[index])
    &&& told(endpoint_id, cluster_id, made) == and_told(
        endpoint_id,
        cluster_id,
        told(endpoint_id, cluster_id, earlier),
        calls[index],
        due_report(made),
    )
}

/// What the first calls of a plan add, call by call.
pub proof fn lemma_first_calls(
    endpoint_id: EndptId,
    cluster_id: ClusterId,
    state: ControlState,
    calls: Seq<HookCall>,
)
    ensures
        written_attributes(calls.take(0)) == Seq::<AttributeId>::empty(),
        effects(state, calls.take(0)) == state,
        told(endpoint_id, cluster_id, calls.take(0)) == Seq::<Event>::empty(),
        calls.len() >= 1 ==> one_more_call(endpoint_id, cluster_id, state, calls, 0),
        calls.len() >= 2 ==> one_more_call(endpoint_id, cluster_id, state, calls, 1),
        calls.len() >= 3 ==> one_more_call(endpoint_id, cluster_id, state, calls, 2),
{
    if calls.len() >= 1 {
        assert(calls.take(1).drop_last() =~= calls.take(0));
    }
    if calls.len() >= 2 {
        assert(calls.take(2).drop_last() =~= calls.take(1));
    }
    if calls.len() >= 3 {
        assert(calls.take(3).drop_last() =~= calls.take(2));
    }
}

/// The effect of one more call.
pub(crate) proof fn lemma_effect_of_one_more(
    state: ControlState,
    made: Seq<HookCall>,
    call: HookCall,
)
    ensures
        effects(state, made + seq![call]) == effect(effects(state, made), call),
{
    assert((made + seq![call]).drop_last() =~= made);
}

/// One more call that succeeded, after the calls made so far.
pub(crate) proof fn lemma_call_succeeded(
    before: Seq<HookRecord>,
    made: Seq<HookCall>,
    call: HookCall,
)
    ensures
        (before + succeeded(made)).push((HookRecord { call, failure: None })) == before
            + succeeded(made + seq![call]),
{
    assert((before + succeeded(made)).push((HookRecord { call, failure: None })) =~= before
        + succeeded(made + seq![call]));
}

/// A call that failed, after the calls made so far.
pub(crate) proof fn lemma_call_failed(
    before: Seq<HookRecord>,
    made: Seq<HookCall>,
    call: HookCall,
    rest: Seq<HookCall>,
    error: Error,
)
    requires
        call !is Apply,
    ensures
        carried_out(
            before,
            (before + succeeded(made)).push((HookRecord { call, failure: Some(error) })),
            made + seq![call] + rest,
            made.len() as int,
            Err(error),
        ),
        (made + seq![call] + rest)[made.len() as int] == call,
        (made + seq![call] + rest).take(made.len() as int) == made,
{
    let plan = made + seq![call] + rest;
    assert(plan.take(made.len() as int) =~= made);
    assert(plan[made.len() as int] == call);
}

/// A plan of five parts, cut before each of the first four.
pub(crate) proof fn lemma_parts_of_plan(
    a: Seq<HookCall>,
    b: Seq<HookCall>,
    c: Seq<HookCall>,
    d: Seq<HookCall>,
    e: Seq<HookCall>,
)
    ensures
        a + b + c + d + e == Seq::<HookCall>::empty() + a + (b + c + d + e),
        a + b + c + d + e == a + b + (c + d + e),
        a + b + c + d + e == a + b + c + (d + e),
{
    assert(a + b + c + d + e =~= Seq::<HookCall>::empty() + a + (b + c + d + e));
    assert(a + b + c + d + e =~= a + b + (c + d + e));
    assert(a + b + c + d + e =~= a + b + c + (d + e));
}

} // verus!
