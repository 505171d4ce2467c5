//! What holds of the thermostat as a whole.

use vstd::prelude::*;

use crate::cluster::{
    AttributeId, ClusterId, EndptId, SetpointRaiseLowerModeEnum, SystemModeEnum,
};
use crate::cluster;
use crate::device;
use crate::device::Snapshot;
use crate::error::{Error, ErrorCode};
use crate::handler::ThermostatHandler;
use crate::hooks;
use crate::hooks::{AttrChangeNotifier, AttrPath, HookCall, HookRecord, ThermostatHooks};
use crate::journal::Event;
use crate::model;
use crate::model::{ControlState, HeatingRange, Request};
use crate::pending;
use crate::pending::OutOfBandMessage;
use crate::room;
use crate::validation::Configuration;

pub mod configuration;
pub mod devices;
pub mod messages;
pub mod reads;
pub mod requests;
pub mod startup;

verus! {

/// Whether the request can reach the handler: an attribute that is not served
/// cannot be written.
pub open spec fn reaches(range: HeatingRange, request: Request) -> bool {
    match request {
        Request::WriteMinHeatSetpointLimit(_) => range.has_limits,
        Request::WriteMaxHeatSetpointLimit(_) => range.has_limits,
        _ => true,
    }
}

/// The state after a request, refused or not, on a device that never fails.
pub open spec fn after(range: HeatingRange, state: ControlState, request: Request) -> ControlState {
    match model::refusal(range, state, request) {
        Some(_) => state,
        None => model::next(range, state, request),
    }
}

/// The state after a series of requests, the oldest first.
pub open spec fn after_all(
    range: HeatingRange,
    state: ControlState,
    requests: Seq<Request>,
) -> ControlState
    decreases requests.len(),
{
    if requests.len() == 0 {
        state
    } else {
        after(range, after_all(range, state, requests.drop_last()), requests.last())
    }
}

/// How far two temperatures lie apart.
pub open spec fn distance(a: i16, b: i16) -> int {
    if a < b {
        b - a
    } else {
        a - b
    }
}

/// No request takes a well-formed state out of the constraint chain or into a
/// mode that the device does not have.
pub proof fn law_a_request_keeps_the_chain(
    range: HeatingRange,
    state: ControlState,
    request: Request,
)
    requires
        state.well_formed(range),
        reaches(range, request),
    ensures
        after(range, state, request).well_formed(range),
{
}

/// However many requests are made, the state stays well-formed.
pub proof fn law_all_requests_keep_the_chain(
    range: HeatingRange,
    state: ControlState,
    requests: Seq<Request>,
)
    requires
        state.well_formed(range),
        forall|i: int| 0 <= i < requests.len() ==> reaches(range, #[trigger] requests[i]),
    ensures
        after_all(range, state, requests).well_formed(range),
    decreases requests.len(),
{
    if requests.len() > 0 {
        law_all_requests_keep_the_chain(range, state, requests.drop_last());
        assert(reaches(range, requests[requests.len() - 1]));
        law_a_request_keeps_the_chain(
            range,
            after_all(range, state, requests.drop_last()),
            requests.last(),
        );
    }
}

/// The handler keeps a well-formed state well-formed whenever it serves a
/// request to the end, whenever it refuses one, and whenever a device that fails
/// cleanly fails the first call of one.
pub proof fn law_the_handler_keeps_the_chain<H: ThermostatHooks, N: AttrChangeNotifier>(
    before: ThermostatHandler<H>,
    after: ThermostatHandler<H>,
    notifier_before: N,
    notifier_after: N,
    request: Request,
    result: Result<(), Error>,
)
    requires
        ThermostatHandler::answers(
            before,
            after,
            notifier_before,
            notifier_after,
            request,
            result,
        ),
        before.hooks.control().well_formed(hooks::heating_range::<H>()),
        reaches(hooks::heating_range::<H>(), request),
        result is Ok || model::refusal(
            hooks::heating_range::<H>(),
            before.hooks.control(),
            request,
        ) is Some || H::fails_cleanly() && after.hooks.calls().len() == before.hooks.calls().len()
            + 1,
    ensures
        after.hooks.control().well_formed(hooks::heating_range::<H>()),
{
    let range = hooks::heating_range::<H>();
    let state = before.hooks.control();
    law_a_request_keeps_the_chain(range, state, request);
    model::lemma_first_calls(0, 0, state, model::plan(range, state, request));
}

/// Whatever state was stored, the repaired one is well-formed.
pub proof fn law_repair_restores_the_chain(range: HeatingRange, state: ControlState)
    requires
        range.abs_min <= range.abs_max,
    ensures
        model::repaired(range, state).well_formed(range),
{
}

/// A handler that starts up without a failing device is in a well-formed state.
pub proof fn law_startup_restores_the_chain<H: ThermostatHooks>(
    before: ThermostatHandler<H>,
    after: ThermostatHandler<H>,
)
    requires
        ThermostatHandler::<H>::configuration().is_valid(),
        ThermostatHandler::repairs(before, after, Ok(())),
    ensures
        after.hooks.control().well_formed(hooks::heating_range::<H>()),
{
    law_repair_restores_the_chain(hooks::heating_range::<H>(), before.hooks.control());
}

/// A well-formed state needs no repair: nothing is written, and the state is
/// brought to bear once.
pub proof fn law_repair_leaves_a_sound_state_alone(range: HeatingRange, state: ControlState)
    requires
        state.well_formed(range),
    ensures
        model::repaired(range, state) == state,
        model::repair_plan(state, model::repaired(range, state)) == seq![
            HookCall::Apply(state.mode, state.setpoint),
        ],
{
    assert(model::repair_plan(state, model::repaired(range, state)) =~= seq![
        HookCall::Apply(state.mode, state.setpoint),
    ]);
}

/// A second repair finds nothing left to do.
pub proof fn law_repair_is_idempotent(range: HeatingRange, state: ControlState)
    requires
        range.abs_min <= range.abs_max,
    ensures
        model::repaired(range, model::repaired(range, state)) == model::repaired(range, state),
{
    law_repair_restores_the_chain(range, state);
    law_repair_leaves_a_sound_state_alone(range, model::repaired(range, state));
}

/// What a sound state reports, the thermostat would also accept as a write.
pub proof fn law_a_sound_state_can_be_written_back(
    range: HeatingRange,
    state: ControlState,
    request: Request,
)
    requires
        state.well_formed(range),
        reaches(range, request),
        match request {
            Request::WriteOccupiedHeatingSetpoint(value) => value == state.setpoint,
            Request::WriteMinHeatSetpointLimit(value) => value == state.min_limit,
            Request::WriteMaxHeatSetpointLimit(value) => value == state.max_limit,
            Request::WriteSystemMode(mode) => mode == state.mode,
            Request::WriteControlSequenceOfOperation(_) => true,
            Request::SetpointRaiseLower(_, _) => false,
        },
    ensures
        model::refusal(range, state, request) is None,
        model::next(range, state, request) == state,
{
}

/// A repair moves the setpoint no further than the repaired limits demand.
pub proof fn law_repair_moves_the_setpoint_least(
    range: HeatingRange,
    state: ControlState,
    other: i16,
)
    requires
        range.abs_min <= range.abs_max,
        model::repaired(range, state).with_setpoint(other).in_chain(range),
    ensures
        distance(state.setpoint, model::repaired(range, state).setpoint) <= distance(
            state.setpoint,
            other,
        ),
{
}

/// A write of a limit moves the setpoint by the minimum amount: no setpoint
/// within the new limits lies nearer to the old one.
pub proof fn law_a_limit_write_moves_the_setpoint_least(
    range: HeatingRange,
    state: ControlState,
    request: Request,
    other: i16,
)
    requires
        state.in_chain(range),
        range.has_limits,
        request is WriteMinHeatSetpointLimit || request is WriteMaxHeatSetpointLimit,
        model::refusal(range, state, request) is None,
        model::next(range, state, request).with_setpoint(other).in_chain(range),
    ensures
        distance(state.setpoint, model::next(range, state, request).setpoint) <= distance(
            state.setpoint,
            other,
        ),
{
}

/// A write of the lower limit is refused exactly when no setpoint at all could
/// make room for it.
pub proof fn law_a_min_limit_is_refused_iff_unresolvable(
    range: HeatingRange,
    state: ControlState,
    value: i16,
)
    requires
        state.in_chain(range),
        range.has_limits,
    ensures
        model::refusal(range, state, Request::WriteMinHeatSetpointLimit(value)) is Some <==> !exists|
            setpoint: i16,
        | #[trigger]
            state.with_min_limit(value).with_setpoint(setpoint).in_chain(range),
        model::refusal(range, state, Request::WriteMinHeatSetpointLimit(value)) is Some ==> model::refusal(
            range,
            state,
            Request::WriteMinHeatSetpointLimit(value),
        ) == Some(ErrorCode::ConstraintError),
{
    if range.abs_min <= value <= state.max_limit {
        assert(state.with_min_limit(value).with_setpoint(value).in_chain(range));
    }
}

/// A write of the upper limit is refused exactly when no setpoint at all could
/// make room for it.
pub proof fn law_a_max_limit_is_refused_iff_unresolvable(
    range: HeatingRange,
    state: ControlState,
    value: i16,
)
    requires
        state.in_chain(range),
        range.has_limits,
    ensures
        model::refusal(range, state, Request::WriteMaxHeatSetpointLimit(value)) is Some <==> !exists|
            setpoint: i16,
        | #[trigger]
            state.with_max_limit(value).with_setpoint(setpoint).in_chain(range),
        model::refusal(range, state, Request::WriteMaxHeatSetpointLimit(value)) is Some ==> model::refusal(
            range,
            state,
            Request::WriteMaxHeatSetpointLimit(value),
        ) == Some(ErrorCode::ConstraintError),
{
    if state.min_limit <= value <= range.abs_max {
        assert(state.with_max_limit(value).with_setpoint(value).in_chain(range));
    }
}

/// Raising or lowering the setpoint is never refused, but for cooling; it ends
/// within the effective limits, and exactly where it was asked to where the
/// limits allow that.
pub proof fn law_raise_lower_clamps(
    range: HeatingRange,
    state: ControlState,
    mode: SetpointRaiseLowerModeEnum,
    amount: i8,
)
    requires
        state.floor(range) <= state.ceiling(range),
    ensures
        ({
            let request = Request::SetpointRaiseLower(mode, amount);
            let target = state.setpoint + 10 * amount;
            let reached = model::next(range, state, request).setpoint;
            &&& model::refusal(range, state, request) == if mode is Cool {
                Some(ErrorCode::InvalidCommand)
            } else {
                None
            }
            &&& state.floor(range) <= reached <= state.ceiling(range)
            &&& state.floor(range) <= target <= state.ceiling(range) ==> reached == target
            &&& target < state.floor(range) ==> reached == state.floor(range)
            &&& target > state.ceiling(range) ==> reached == state.ceiling(range)
        }),
{
}

/// `Both` adjusts the heating setpoint exactly as `Heat` does.
pub proof fn law_both_is_heat(range: HeatingRange, state: ControlState, amount: i8)
    ensures
        ({
            let heat = Request::SetpointRaiseLower(SetpointRaiseLowerModeEnum::Heat, amount);
            let both = Request::SetpointRaiseLower(SetpointRaiseLowerModeEnum::Both, amount);
            &&& model::refusal(range, state, both) == model::refusal(range, state, heat)
            &&& model::next(range, state, both) == model::next(range, state, heat)
            &&& model::plan(range, state, both) == model::plan(range, state, heat)
        }),
{
}

/// Out of range, a write is an error where the command clamps.
pub proof fn law_a_write_rejects_what_the_command_clamps(
    range: HeatingRange,
    state: ControlState,
    mode: SetpointRaiseLowerModeEnum,
    amount: i8,
    target: i16,
)
    requires
        state.floor(range) <= state.ceiling(range),
        mode !is Cool,
        target == state.setpoint + 10 * amount,
        !(state.floor(range) <= target <= state.ceiling(range)),
    ensures
        model::refusal(range, state, Request::WriteOccupiedHeatingSetpoint(target)) == Some(
            ErrorCode::ConstraintError,
        ),
        model::refusal(range, state, Request::SetpointRaiseLower(mode, amount)) is None,
        state.floor(range) <= model::next(
            range,
            state,
            Request::SetpointRaiseLower(mode, amount),
        ).setpoint <= state.ceiling(range),
{
}

/// What was accepted is what is read back; what the request does not speak of
/// stays as it was, except for a setpoint that a new limit drags along.
pub proof fn law_an_accepted_write_is_read_back(
    range: HeatingRange,
    state: ControlState,
    request: Request,
)
    requires
        model::refusal(range, state, request) is None,
    ensures
        ({
            let next = model::next(range, state, request);
            match request {
                Request::WriteOccupiedHeatingSetpoint(value) => next == state.with_setpoint(value),
                Request::WriteMinHeatSetpointLimit(value) => next == state.with_min_limit(
                    value,
                ).with_setpoint(next.setpoint),
                Request::WriteMaxHeatSetpointLimit(value) => next == state.with_max_limit(
                    value,
                ).with_setpoint(next.setpoint),
                Request::WriteSystemMode(mode) => next == state.with_mode(mode),
                Request::WriteControlSequenceOfOperation(_) => next == state,
                Request::SetpointRaiseLower(_, _) => next == state.with_setpoint(next.setpoint),
            }
        }),
{
}

/// A handler that accepted a write and had it carried out reads it back.
pub proof fn law_the_handler_reads_back_what_it_accepted<
    H: ThermostatHooks,
    N: AttrChangeNotifier,
>(
    before: ThermostatHandler<H>,
    after: ThermostatHandler<H>,
    notifier_before: N,
    notifier_after: N,
    request: Request,
)
    requires
        ThermostatHandler::answers(
            before,
            after,
            notifier_before,
            notifier_after,
            request,
            Ok(()),
        ),
    ensures
        ({
            let stored = after.hooks.control();
            match request {
                Request::WriteOccupiedHeatingSetpoint(value) => stored.setpoint == value,
                Request::WriteMinHeatSetpointLimit(value) => stored.min_limit == value,
                Request::WriteMaxHeatSetpointLimit(value) => stored.max_limit == value,
                Request::WriteSystemMode(mode) => stored.mode == mode,
                Request::WriteControlSequenceOfOperation(_) => stored == before.hooks.control(),
                Request::SetpointRaiseLower(_, amount) => stored.setpoint == model::raised_setpoint(
                    hooks::heating_range::<H>(),
                    before.hooks.control(),
                    amount,
                ),
            }
        }),
{
}

/// The calls of a plan do what the request is to do.
pub proof fn law_a_plan_leads_to_the_next_state(
    range: HeatingRange,
    state: ControlState,
    request: Request,
)
    requires
        model::refusal(range, state, request) is None,
    ensures
        model::effects(state, model::plan(range, state, request)) == model::next(
            range,
            state,
            request,
        ),
{
    let plan = model::plan(range, state, request);
    model::lemma_first_calls(0, 0, state, plan);
    assert(plan.take(plan.len() as int) =~= plan);
}

/// Every attribute that a request changes is written by its plan, and so
/// reported.
pub proof fn law_every_change_is_reported(
    range: HeatingRange,
    state: ControlState,
    request: Request,
)
    requires
        model::refusal(range, state, request) is None,
    ensures
        ({
            let next = model::next(range, state, request);
            let written = model::written_attributes(model::plan(range, state, request));
            &&& next.setpoint != state.setpoint ==> written.contains(
                AttributeId::OccupiedHeatingSetpoint,
            )
            &&& next.min_limit != state.min_limit ==> written.contains(
                AttributeId::MinHeatSetpointLimit,
            )
            &&& next.max_limit != state.max_limit ==> written.contains(
                AttributeId::MaxHeatSetpointLimit,
            )
            &&& next.mode != state.mode ==> written.contains(AttributeId::SystemMode)
        }),
{
    let plan = model::plan(range, state, request);
    let written = model::written_attributes(plan);
    model::lemma_first_calls(0, 0, state, plan);
    assert(plan.take(plan.len() as int) =~= plan);
    if plan.len() > 0 {
        assert(written[0] == plan[0].attribute()->0);
    }
    if plan.len() == 3 {
        assert(written[1] == AttributeId::OccupiedHeatingSetpoint);
    }
}

/// Every change of the setpoint or the mode is brought to bear: the plan that
/// makes it ends by applying the new state.
pub proof fn law_every_change_is_applied(
    range: HeatingRange,
    state: ControlState,
    request: Request,
)
    requires
        model::refusal(range, state, request) is None,
    ensures
        ({
            let next = model::next(range, state, request);
            let plan = model::plan(range, state, request);
            next.setpoint != state.setpoint || next.mode != state.mode ==> plan.len() > 0
                && plan.last() == HookCall::Apply(next.mode, next.setpoint)
        }),
{
}

/// A change of the setpoint or the mode is applied before it is reported: the
/// report comes directly after the call that applies the new state.
pub proof fn law_a_change_is_applied_before_it_is_reported(
    endpoint_id: EndptId,
    cluster_id: ClusterId,
    range: HeatingRange,
    state: ControlState,
    request: Request,
    attribute: AttributeId,
    i: int,
)
    requires
        model::refusal(range, state, request) is None,
        attribute is OccupiedHeatingSetpoint || attribute is SystemMode,
        0 <= i < model::told(endpoint_id, cluster_id, model::plan(range, state, request)).len(),
        model::told(endpoint_id, cluster_id, model::plan(range, state, request))[i]
            == Event::Reported(
            AttrPath { endpoint_id, cluster_id, attr_id: attribute.number() },
        ),
    ensures
        ({
            let next = model::next(range, state, request);
            let events = model::told(endpoint_id, cluster_id, model::plan(range, state, request));
            i > 0 && events[i - 1] == Event::Called(
                HookRecord { call: HookCall::Apply(next.mode, next.setpoint), failure: None },
            )
        }),
{
    let plan = model::plan(range, state, request);
    model::lemma_first_calls(endpoint_id, cluster_id, state, plan);
    assert(plan.take(plan.len() as int) =~= plan);
}

/// On a device that fails cleanly, a new limit stays stored although the device
/// then fails to move the setpoint along.
pub proof fn law_a_stored_limit_outlives_a_failed_setpoint<
    H: ThermostatHooks,
    N: AttrChangeNotifier,
>(
    before: ThermostatHandler<H>,
    after: ThermostatHandler<H>,
    notifier_before: N,
    notifier_after: N,
    request: Request,
    error: Error,
)
    requires
        H::fails_cleanly(),
        request is WriteMinHeatSetpointLimit || request is WriteMaxHeatSetpointLimit,
        model::refusal(hooks::heating_range::<H>(), before.hooks.control(), request) is None,
        ThermostatHandler::answers(
            before,
            after,
            notifier_before,
            notifier_after,
            request,
            Err(error),
        ),
        after.hooks.calls().len() > before.hooks.calls().len() + 1,
    ensures
        after.hooks.control() == match request {
            Request::WriteMinHeatSetpointLimit(value) => before.hooks.control().with_min_limit(
                value,
            ),
            Request::WriteMaxHeatSetpointLimit(value) => before.hooks.control().with_max_limit(
                value,
            ),
            _ => before.hooks.control(),
        },
{
    let state = before.hooks.control();
    model::lemma_first_calls(
        0,
        0,
        state,
        model::plan(hooks::heating_range::<H>(), state, request),
    );
}

/// Whether the state holds what the call stores.
pub open spec fn holds(state: ControlState, call: HookCall) -> bool {
    match call {
        HookCall::SetOccupiedHeatingSetpoint(value) => state.setpoint == value,
        HookCall::SetMinHeatSetpointLimit(value) => state.min_limit == value,
        HookCall::SetMaxHeatSetpointLimit(value) => state.max_limit == value,
        HookCall::SetSystemMode(mode) => state.mode == mode,
        HookCall::Apply(_, _) => true,
    }
}

/// On a device that fails cleanly, a repair that fails halfway leaves mended what
/// it had mended: the state holds what every successful call stored.
pub proof fn law_a_failed_repair_keeps_what_it_mended<H: ThermostatHooks>(
    before: ThermostatHandler<H>,
    after: ThermostatHandler<H>,
    error: Error,
    i: int,
)
    requires
        H::fails_cleanly(),
        ThermostatHandler::repairs(before, after, Err(error)),
        before.hooks.calls().len() <= i < after.hooks.calls().len(),
        after.hooks.calls()[i].failure is None,
    ensures
        holds(after.hooks.control(), after.hooks.calls()[i].call),
{
    let state = before.hooks.control();
    let goal = model::repaired(hooks::heating_range::<H>(), state);
    let plan = model::repair_plan(state, goal);
    let done = choose|done: int|
        {
            &&& #[trigger] model::carried_out(
                before.hooks.calls(),
                after.hooks.calls(),
                plan,
                done,
                Err(error),
            )
            &&& after.hooks.control() == model::effects(state, plan.take(done))
        };
    let made = plan.take(done);
    assert(after.hooks.calls()[i].call == made[i - before.hooks.calls().len()]);
    reveal_with_fuel(model::effects, 5);
}

/// A repair applies the repaired state, whether or not it changed anything: once,
/// and after all else.
pub proof fn law_a_repair_is_applied(range: HeatingRange, state: ControlState)
    ensures
        ({
            let goal = model::repaired(range, state);
            let plan = model::repair_plan(state, goal);
            &&& plan.len() > 0
            &&& plan.last() == HookCall::Apply(goal.mode, goal.setpoint)
            &&& forall|i: int| 0 <= i < plan.len() - 1 ==> #[trigger] plan[i] !is Apply
        }),
{
}

/// The feature map of a valid configuration is `HEAT`, or `HEAT` with `LTNE`.
pub proof fn law_a_valid_configuration_heats(configuration: Configuration)
    requires
        configuration.is_valid(),
    ensures
        configuration.cluster.feature_map == cluster::FEATURE_HEATING
            || configuration.cluster.feature_map == cluster::FEATURE_HEATING
            + cluster::FEATURE_LOCAL_TEMPERATURE_NOT_EXPOSED,
{
    let map = configuration.cluster.feature_map;
    assert(map & 0x01 == 0x01 && map & !0x41u32 == 0 ==> map == 0x01 || map == 0x41) by (bit_vector);
}

/// A configuration has no fault exactly when it is valid.
pub proof fn law_a_configuration_is_valid_or_has_a_fault(configuration: Configuration)
    ensures
        configuration.is_valid() <==> configuration.fault() is None,
{
}

/// What is pending after a series of messages, the oldest first.
pub open spec fn pending_after(
    attributes: Set<AttributeId>,
    messages: Seq<OutOfBandMessage>,
) -> Set<AttributeId>
    decreases messages.len(),
{
    if messages.len() == 0 {
        attributes
    } else {
        pending_after(attributes, messages.drop_last()).union(messages.last().attributes())
    }
}

/// A mask of pending attributes is told by the attributes that it marks.
pub proof fn law_a_mask_is_told_by_its_attributes(a: u8, b: u8)
    requires
        a <= pending::PENDING_ALL,
        b <= pending::PENDING_ALL,
        pending::marked(a) == pending::marked(b),
    ensures
        a == b,
{
    assert(forall|attribute: AttributeId| #[trigger]
        pending::marked(a).contains(attribute) == pending::marked(b).contains(attribute));
    assert(pending::marked(a).contains(AttributeId::LocalTemperature) == (a & 0x01 != 0));
    assert(pending::marked(a).contains(AttributeId::OccupiedHeatingSetpoint) == (a & 0x02 != 0));
    assert(pending::marked(a).contains(AttributeId::SystemMode) == (a & 0x04 != 0));
    assert(pending::marked(a).contains(AttributeId::MinHeatSetpointLimit) == (a & 0x08 != 0));
    assert(pending::marked(a).contains(AttributeId::MaxHeatSetpointLimit) == (a & 0x10 != 0));
    assert(a == b) by (bit_vector)
        requires
            a <= 0x1f,
            b <= 0x1f,
            (a & 0x01 != 0) == (b & 0x01 != 0),
            (a & 0x02 != 0) == (b & 0x02 != 0),
            (a & 0x04 != 0) == (b & 0x04 != 0),
            (a & 0x08 != 0) == (b & 0x08 != 0),
            (a & 0x10 != 0) == (b & 0x10 != 0),
    ;
}

/// No message is lost: after any series of messages exactly the attributes are
/// pending that were pending before or that one of the messages is about.
pub proof fn law_no_message_is_lost(
    attributes: Set<AttributeId>,
    messages: Seq<OutOfBandMessage>,
    attribute: AttributeId,
)
    ensures
        pending_after(attributes, messages).contains(attribute) <==> attributes.contains(attribute)
            || exists|i: int|
            0 <= i < messages.len() && (#[trigger] messages[i]).attributes().contains(attribute),
    decreases messages.len(),
{
    if messages.len() > 0 {
        let earlier = messages.drop_last();
        law_no_message_is_lost(attributes, earlier, attribute);
        if messages.last().attributes().contains(attribute) {
            assert(messages[messages.len() - 1].attributes().contains(attribute));
        }
        if exists|i: int|
            0 <= i < earlier.len() && (#[trigger] earlier[i]).attributes().contains(attribute) {
            let i = choose|i: int|
                0 <= i < earlier.len() && (#[trigger] earlier[i]).attributes().contains(attribute);
            assert(messages[i].attributes().contains(attribute));
        }
        if exists|i: int|
            0 <= i < messages.len() && (#[trigger] messages[i]).attributes().contains(attribute) {
            let i = choose|i: int|
                0 <= i < messages.len() && (#[trigger] messages[i]).attributes().contains(
                    attribute,
                );
            if i < messages.len() - 1 {
                assert(earlier[i].attributes().contains(attribute));
            }
        }
    }
}

/// Whatever the messages were, the attributes that they are about, and no
/// others, are reported: each once, in ascending order of their numbers.
pub proof fn law_messages_are_reported_once(messages: Seq<OutOfBandMessage>)
    ensures
        ({
            let reported = pending::in_order(pending_after(Set::empty(), messages));
            &&& forall|attribute: AttributeId| #[trigger]
                reported.contains(attribute) <==> exists|i: int|
                    0 <= i < messages.len() && (#[trigger] messages[i]).attributes().contains(
                        attribute,
                    )
            &&& forall|i: int, j: int|
                0 <= i < j < reported.len() ==> (#[trigger] reported[i]).number() < (
                #[trigger] reported[j]).number()
        }),
{
    broadcast use vstd::seq_lib::group_filter_ensures;

    let attributes = pending_after(Set::empty(), messages);
    let order = pending::pending_order();
    let pending = |attribute: AttributeId| attributes.contains(attribute);
    let reported = pending::in_order(attributes);
    lemma_filter_keeps_ascending(order, pending);
    assert forall|attribute: AttributeId| #[trigger]
        reported.contains(attribute) <==> exists|i: int|
            0 <= i < messages.len() && (#[trigger] messages[i]).attributes().contains(attribute) by {
        law_no_message_is_lost(Set::empty(), messages, attribute);
        if reported.contains(attribute) {
            let k = choose|k: int| 0 <= k < reported.len() && reported[k] == attribute;
            assert(pending(reported[k]));
        }
        if exists|i: int|
            0 <= i < messages.len() && (#[trigger] messages[i]).attributes().contains(attribute) {
            let i = choose|i: int|
                0 <= i < messages.len() && (#[trigger] messages[i]).attributes().contains(
                    attribute,
                );
            lemma_messages_are_about_pending_attributes(messages[i], attribute);
            let k = choose|k: int| 0 <= k < order.len() && order[k] == attribute;
            assert(pending(order[k]));
            assert(reported.contains(order[k]));
        }
    }
}

/// A message is about attributes that can be pending.
proof fn lemma_messages_are_about_pending_attributes(
    message: OutOfBandMessage,
    attribute: AttributeId,
)
    requires
        message.attributes().contains(attribute),
    ensures
        pending::pending_order().contains(attribute),
{
    let order = pending::pending_order();
    assert(order[0] is LocalTemperature && order[1] is OccupiedHeatingSetpoint
        && order[2] is MinHeatSetpointLimit && order[3] is MaxHeatSetpointLimit
        && order[4] is SystemMode);
}

/// Leaving attributes out keeps the order of the others.
pub(crate) proof fn lemma_filter_keeps_ascending(
    attributes: Seq<AttributeId>,
    kept: spec_fn(AttributeId) -> bool,
)
    requires
        forall|i: int, j: int|
            0 <= i < j < attributes.len() ==> (#[trigger] attributes[i]).number() < (
            #[trigger] attributes[j]).number(),
    ensures
        forall|i: int, j: int|
            0 <= i < j < attributes.filter(kept).len() ==> (#[trigger] attributes.filter(
                kept,
            )[i]).number() < (#[trigger] attributes.filter(kept)[j]).number(),
        forall|i: int|
            0 <= i < attributes.filter(kept).len() ==> attributes.contains(
                #[trigger] attributes.filter(kept)[i],
            ),
    decreases attributes.len(),
{
    reveal(Seq::filter);
    if attributes.len() > 0 {
        let earlier = attributes.drop_last();
        lemma_filter_keeps_ascending(earlier, kept);
        assert forall|i: int| 0 <= i < attributes.filter(kept).len() implies attributes.contains(
            #[trigger] attributes.filter(kept)[i],
        ) by {
            if i < earlier.filter(kept).len() {
                assert(earlier.contains(earlier.filter(kept)[i]));
                let k = choose|k: int|
                    0 <= k < earlier.len() && earlier[k] == earlier.filter(kept)[i];
                assert(attributes[k] == attributes.filter(kept)[i]);
            } else {
                assert(attributes[attributes.len() - 1] == attributes.filter(kept)[i]);
            }
        }
        assert forall|i: int, j: int| 0 <= i < j < attributes.filter(kept).len() implies (
        #[trigger] attributes.filter(kept)[i]).number() < (#[trigger] attributes.filter(
            kept,
        )[j]).number() by {
            assert(earlier.contains(earlier.filter(kept)[i]));
            let k = choose|k: int| 0 <= k < earlier.len() && earlier[k] == earlier.filter(kept)[i];
            assert(attributes[k] == attributes.filter(kept)[i]);
            if j < earlier.filter(kept).len() {
                assert(earlier.filter(kept)[j] == attributes.filter(kept)[j]);
            }
        }
    }
}

/// The relay does not chatter: when a tick switches the heater, the next one
/// leaves it as it is.
pub proof fn law_the_relay_does_not_chatter(
    mode: SystemModeEnum,
    heating: bool,
    temperature: i16,
    setpoint: i16,
)
    requires
        mode is Heat,
        heating != room::calls_for_heat(mode, heating, temperature, setpoint),
    ensures
        ({
            let switched = !heating;
            room::calls_for_heat(
                mode,
                switched,
                room::next_temperature(switched, temperature),
                setpoint,
            ) == switched
        }),
{
}

/// The heater never calls for heat in a mode other than `Heat`.
pub proof fn law_only_heat_mode_heats(
    mode: SystemModeEnum,
    heating: bool,
    temperature: i16,
    setpoint: i16,
)
    requires
        mode !is Heat,
    ensures
        !room::calls_for_heat(mode, heating, temperature, setpoint),
{
}

/// A heated room warms towards the setpoint: a notch a tick, with the heater on
/// until it gets there.
pub proof fn law_a_heated_room_warms_towards_the_setpoint(
    mode: SystemModeEnum,
    temperature: i16,
    setpoint: i16,
)
    requires
        mode is Heat,
        temperature < setpoint,
    ensures
        ({
            let next = room::next_temperature(true, temperature);
            &&& next == room::saturated(temperature + room::HEATING_RATE)
            &&& next > temperature
            &&& next < setpoint ==> room::calls_for_heat(mode, true, next, setpoint)
        }),
{
}

/// The room never gets two notches above the setpoint by heating.
pub proof fn law_heating_stays_near_the_setpoint(
    mode: SystemModeEnum,
    heating: bool,
    temperature: i16,
    setpoint: i16,
)
    requires
        mode is Heat,
        heating ==> temperature < room::saturated(setpoint + room::HEATING_RATE),
        temperature < setpoint + 2 * room::HEATING_RATE || temperature <= room::AMBIENT,
    ensures
        ({
            let next = room::next_temperature(heating, temperature);
            &&& next < setpoint + 2 * room::HEATING_RATE || next <= room::AMBIENT
            &&& room::calls_for_heat(mode, heating, next, setpoint) ==> next < room::saturated(
                setpoint + room::HEATING_RATE,
            )
        }),
{
}

/// The temperature of an idle room after some ticks.
pub open spec fn idle_temperature(temperature: i16, ticks: nat) -> i16
    decreases ticks,
{
    if ticks == 0 {
        temperature
    } else {
        room::next_temperature(false, idle_temperature(temperature, (ticks - 1) as nat))
    }
}

/// An idle room cools by the same amount with every tick, down to the ambient
/// temperature; a colder room is at that temperature after one tick.
pub proof fn law_an_idle_room_cools_at_its_rate(temperature: i16, ticks: nat)
    ensures
        idle_temperature(temperature, ticks) == if ticks == 0 {
            temperature as int
        } else if temperature - room::COOLING_RATE * ticks > room::AMBIENT {
            temperature - room::COOLING_RATE * ticks
        } else {
            room::AMBIENT as int
        },
    decreases ticks,
{
    if ticks > 0 {
        law_an_idle_room_cools_at_its_rate(temperature, (ticks - 1) as nat);
    }
}

/// An idle room drifts to the ambient temperature and stays there.
pub proof fn law_an_idle_room_drifts_to_ambient(temperature: i16, ticks: nat)
    requires
        ticks > 0,
        temperature - room::COOLING_RATE * ticks <= room::AMBIENT,
    ensures
        idle_temperature(temperature, ticks) == room::AMBIENT,
{
    law_an_idle_room_cools_at_its_rate(temperature, ticks);
}

/// What was saved is what is loaded, whatever follows it, as long as the device
/// was in a mode that it has.
pub proof fn law_a_saved_state_is_restored(snapshot: Snapshot, tail: Seq<u8>)
    requires
        model::is_heating_mode(snapshot.control.mode),
    ensures
        device::decode(device::encode(snapshot) + tail) == Some(snapshot),
{
    lemma_bytes_are_read_back(snapshot.control.setpoint);
    lemma_bytes_are_read_back(snapshot.control.min_limit);
    lemma_bytes_are_read_back(snapshot.control.max_limit);
    lemma_bytes_are_read_back(snapshot.temperature);
}

/// A state saved in any other mode is not usable.
pub proof fn law_an_unsupported_mode_is_not_restored(snapshot: Snapshot, tail: Seq<u8>)
    requires
        !model::is_heating_mode(snapshot.control.mode),
    ensures
        device::decode(device::encode(snapshot) + tail) is None,
{
}

/// The two bytes of a number stand for that number.
proof fn lemma_bytes_are_read_back(value: i16)
    ensures
        device::from_little_endian(
            device::little_endian(value)[0],
            device::little_endian(value)[1],
        ) == value,
{
}

} // verus!
