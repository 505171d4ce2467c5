//! The heating-only Thermostat cluster handler.

use vstd::prelude::*;

use crate::cluster::{
    AttributeId, ControlSequenceOfOperationEnum, EndptId, SetpointRaiseLowerModeEnum,
    SystemModeEnum, FEATURE_LOCAL_TEMPERATURE_NOT_EXPOSED,
};
use crate::error::{Error, ErrorCode};
use crate::hooks;
use crate::hooks::{AttrChangeNotifier, HookCall, HookRecord, ThermostatHooks};
use crate::journal;
use crate::journal::{Event, Journal};
use crate::model;
use crate::model::Request;
use crate::pending;
use crate::pending::{OutOfBandMessage, PendingAttributes};
use crate::validation;
use crate::validation::{Configuration, ConfigurationError};

verus! {

/// The version of the cluster's data, which moves with every change.
#[derive(Debug)]
pub struct Dataver {
    pub version: u32,
}

impl Dataver {
    /// A data version that starts at `version`.
    pub fn new(version: u32) -> (dataver: Self)
        ensures
            dataver.version == version,
    {
        Dataver { version }
    }

    /// The current version.
    pub fn get(&self) -> (version: u32)
        ensures
            version == self.version,
    {
        self.version
    }

    /// Moves on to the next version; the highest is followed by zero.
    pub fn changed(&mut self)
        ensures
            final(self).version == (old(self).version + 1) % 0x1_0000_0000,
    {
        self.version = if self.version == u32::MAX {
            0
        } else {
            self.version + 1
        };
    }
}

/// What happens to the node that hosts the cluster.
#[derive(Clone, Copy, Debug, PartialEq, Eq, Structural)]
pub enum LifecycleOp {
    Startup,
    Shutdown,
}

/// The fields of a `SetpointRaiseLower` command, each as it was decoded.
#[derive(Clone, Copy, Debug)]
pub struct SetpointRaiseLowerRequest {
    pub mode: Result<SetpointRaiseLowerModeEnum, Error>,
    pub amount: Result<i8, Error>,
}

/// A handler in the form in which a node hosts it.
pub struct HandlerAsyncAdaptor<T>(pub T);

/// A heating-only Thermostat cluster handler.
///
/// The cluster is not coupled to any other, so the handler needs no wiring:
/// construct it with [`new`](ThermostatHandler::new), check its configuration
/// with [`validate`](ThermostatHandler::validate), and start it up.
pub struct ThermostatHandler<H: ThermostatHooks> {
    pub dataver: Dataver,
    /// The endpoint that hosts this cluster instance.
    pub endpoint_id: EndptId,
    /// The device behind the thermostat.
    pub hooks: H,
    /// The attributes that await a report.
    pub pending: PendingAttributes,
    /// What the handler did so far.
    pub journal: Journal,
}

impl<H: ThermostatHooks> ThermostatHandler<H> {
    /// What the device declares about itself.
    pub open spec fn configuration() -> Configuration {
        Configuration {
            cluster: H::metadata(),
            abs_min: H::ABS_MIN_HEAT_SETPOINT,
            abs_max: H::ABS_MAX_HEAT_SETPOINT,
            control_sequence: H::CONTROL_SEQUENCE_OF_OPERATION,
        }
    }

    /// How a request is answered: a refused request changes and reports
    /// nothing; any other is served by the calls of its plan, up to the first
    /// that the device fails, and every attribute that was written is reported,
    /// a limit as soon as it is stored, a setpoint or a mode once it is applied.
    /// On a device that fails cleanly, what was stored before a failure stays.
    pub open spec fn answers<N: AttrChangeNotifier>(
        before: Self,
        after: Self,
        notifier_before: N,
        notifier_after: N,
        request: Request,
        result: Result<(), Error>,
    ) -> bool {
        let range = hooks::heating_range::<H>();
        let state = before.hooks.control();
        let plan = model::plan(range, state, request);
        &&& after.dataver == before.dataver
        &&& after.endpoint_id == before.endpoint_id
        &&& after.pending == before.pending
        &&& match model::refusal(range, state, request) {
            Some(code) => {
                &&& result == Err::<(), Error>(Error { code })
                &&& after.hooks == before.hooks
                &&& after.journal == before.journal
                &&& notifier_after == notifier_before
            },
            None => {
                &&& Self::carries_out_all(plan) ==> result is Ok
                &&& result is Ok ==> after.hooks.control() == model::next(range, state, request)
                &&& exists|done: int|
                    {
                        &&& #[trigger] model::carried_out(
                            before.hooks.calls(),
                            after.hooks.calls(),
                            plan,
                            done,
                            result,
                        )
                        &&& notifier_after.reported() =~= notifier_before.reported() + model::paths(
                            before.endpoint_id,
                            H::metadata().id,
                            model::written_attributes(plan.take(done)),
                        )
                        &&& after.journal@ =~= before.journal@ + model::events(
                            before.endpoint_id,
                            H::metadata().id,
                            plan,
                            done,
                            result,
                        )
                        &&& result is Err ==> !H::carries_out(plan[done])
                        &&& H::fails_cleanly() && result is Err ==> after.hooks.control()
                            == model::effects(state, plan.take(done))
                    }
            },
        }
    }

    /// Whether the device promises to carry out every call of a plan. Applying a
    /// state cannot fail.
    pub open spec fn carries_out_all(plan: Seq<HookCall>) -> bool {
        forall|i: int|
            0 <= i < plan.len() && plan[i] !is Apply ==> H::carries_out(#[trigger] plan[i])
    }

    /// How a repair ends: the calls of its plan were made, up to the first that
    /// the device failed, and if none was failed the state is the repaired one.
    /// On a device that fails cleanly, what was mended before a failure stays
    /// mended. Nothing is reported.
    pub open spec fn repairs(before: Self, after: Self, result: Result<(), Error>) -> bool {
        let state = before.hooks.control();
        let goal = model::repaired(hooks::heating_range::<H>(), state);
        let plan = model::repair_plan(state, goal);
        &&& after.dataver == before.dataver
        &&& after.endpoint_id == before.endpoint_id
        &&& after.pending == before.pending
        &&& Self::carries_out_all(plan) ==> result is Ok
        &&& result is Ok ==> after.hooks.control() == goal
        &&& after.journal@ =~= before.journal@ + journal::called(
            after.hooks.calls().skip(before.hooks.calls().len() as int),
        )
        &&& exists|done: int|
            {
                &&& #[trigger] model::carried_out(
                    before.hooks.calls(),
                    after.hooks.calls(),
                    plan,
                    done,
                    result,
                )
                &&& result is Err ==> !H::carries_out(plan[done])
                &&& H::fails_cleanly() && result is Err ==> after.hooks.control()
                    == model::effects(state, plan.take(done))
            }
    }

    /// Creates a handler for the given device.
    pub fn new(dataver: Dataver, endpoint_id: EndptId, hooks: H) -> (handler: Self)
        ensures
            handler.dataver == dataver,
            handler.endpoint_id == endpoint_id,
            handler.hooks == hooks,
            handler.pending@ == Set::<AttributeId>::empty(),
            handler.journal@ == Seq::<Event>::empty(),
    {
        ThermostatHandler {
            dataver,
            endpoint_id,
            hooks,
            pending: PendingAttributes::new(),
            journal: Journal::new(),
        }
    }

    /// Whether the configured feature map contains all of `features`.
    pub fn supports_feature(features: u32) -> (supported: bool)
        ensures
            supported == validation::contains_features(H::metadata().feature_map, features),
    {
        H::cluster().feature_map & features == features
    }

    /// Whether the user-configurable setpoint limits are served. A valid
    /// configuration serves all of the limits or none.
    pub fn has_limits() -> (served: bool)
        ensures
            served == hooks::heating_range::<H>().has_limits,
    {
        H::cluster().serves(AttributeId::MinHeatSetpointLimit)
    }

    /// The effective lower bound on the heating setpoint: the user-configurable
    /// limit when served, else the manufacturer's absolute limit.
    pub fn min_setpoint(&self) -> (value: i16)
        ensures
            value == self.hooks.control().floor(hooks::heating_range::<H>()),
    {
        if Self::has_limits() {
            self.hooks.min_heat_setpoint_limit()
        } else {
            H::ABS_MIN_HEAT_SETPOINT
        }
    }

    /// The effective upper bound on the heating setpoint.
    pub fn max_setpoint(&self) -> (value: i16)
        ensures
            value == self.hooks.control().ceiling(hooks::heating_range::<H>()),
    {
        if Self::has_limits() {
            self.hooks.max_heat_setpoint_limit()
        } else {
            H::ABS_MAX_HEAT_SETPOINT
        }
    }

    /// Clamps a candidate heating setpoint into the effective limits.
    pub fn clamp_setpoint(&self, value: i32) -> (clamped: i16)
        requires
            self.hooks.control().floor(hooks::heating_range::<H>()) <= self.hooks.control().ceiling(
                hooks::heating_range::<H>(),
            ),
        ensures
            clamped == model::clamp(
                value as int,
                self.hooks.control().floor(hooks::heating_range::<H>()) as int,
                self.hooks.control().ceiling(hooks::heating_range::<H>()) as int,
            ),
    {
        clamp(value, self.min_setpoint(), self.max_setpoint())
    }

    /// Whether `mode` is a mode that this thermostat can be put into. The
    /// heating sequences rule out cooling and precooling; of the remaining
    /// modes only `Off` and `Heat` mean something for a device that has neither
    /// a fan nor a dehumidifier nor second-stage emergency heat.
    pub fn is_supported_system_mode(mode: SystemModeEnum) -> (supported: bool)
        ensures
            supported == model::is_heating_mode(mode),
    {
        match mode {
            SystemModeEnum::Off => true,
            SystemModeEnum::Heat => true,
            _ => false,
        }
    }

    /// Pushes the current control state onto the device.
    pub fn apply(&mut self)
        ensures
            final(self).dataver == old(self).dataver,
            final(self).endpoint_id == old(self).endpoint_id,
            final(self).pending == old(self).pending,
            final(self).hooks.control() == old(self).hooks.control(),
            final(self).hooks.calls() == old(self).hooks.calls().push(
                HookRecord::of(
                    HookCall::Apply(
                        old(self).hooks.control().mode,
                        old(self).hooks.control().setpoint,
                    ),
                    Ok(()),
                ),
            ),
            final(self).journal@ == old(self).journal@.push(
                Event::Called(
                    HookRecord::of(
                        HookCall::Apply(
                            old(self).hooks.control().mode,
                            old(self).hooks.control().setpoint,
                        ),
                        Ok(()),
                    ),
                ),
            ),
    {
        let mode = self.hooks.system_mode();
        let setpoint: i16 = self.hooks.occupied_heating_setpoint();
        self.journal.apply(&mut self.hooks, mode, setpoint);
    }

    /// Reports a single attribute of this cluster instance.
    pub fn notify<N: AttrChangeNotifier>(&mut self, notifier: &mut N, attribute: AttributeId)
        ensures
            final(self).dataver == old(self).dataver,
            final(self).endpoint_id == old(self).endpoint_id,
            final(self).hooks == old(self).hooks,
            final(self).pending == old(self).pending,
            final(notifier).reported() == old(notifier).reported() + model::paths(
                old(self).endpoint_id,
                H::metadata().id,
                seq![attribute],
            ),
            final(self).journal@ == old(self).journal@ + journal::reported(
                model::paths(old(self).endpoint_id, H::metadata().id, seq![attribute]),
            ),
    {
        self.journal.report(notifier, self.endpoint_id, H::cluster().id, attribute.id());
        assert(notifier.reported() =~= old(notifier).reported() + model::paths(
            self.endpoint_id,
            H::metadata().id,
            seq![attribute],
        ));
        assert(self.journal@ =~= old(self).journal@ + journal::reported(
            model::paths(self.endpoint_id, H::metadata().id, seq![attribute]),
        ));
    }

    /// Writes `OccupiedHeatingSetpoint`. A value outside the effective limits is
    /// a constraint error, in contrast to
    /// [`raise_lower_setpoint`](Self::raise_lower_setpoint), which clamps.
    pub fn write_occupied_heating_setpoint<N: AttrChangeNotifier>(
        &mut self,
        notifier: &mut N,
        value: i16,
    ) -> (result: Result<(), Error>)
        ensures
            Self::answers(
                *old(self),
                *final(self),
                *old(notifier),
                *final(notifier),
                Request::WriteOccupiedHeatingSetpoint(value),
                result,
            ),
    {
        if value < self.min_setpoint() || value > self.max_setpoint() {
            return Err(Error::new(ErrorCode::ConstraintError));
        }
        let ghost before = *self;
        let ghost plan = model::plan(
            hooks::heating_range::<H>(),
            before.hooks.control(),
            Request::WriteOccupiedHeatingSetpoint(value),
        );
        proof {
            model::lemma_first_calls(self.endpoint_id, H::metadata().id, self.hooks.control(), plan);
        }

        if let Err(error) = self.journal.set_occupied_heating_setpoint(&mut self.hooks, value) {
            assert(model::carried_out(before.hooks.calls(), self.hooks.calls(), plan, 0, Err(error)));
            return Err(error);
        }
        self.apply();
        self.notify(notifier, AttributeId::OccupiedHeatingSetpoint);

        assert(model::carried_out(before.hooks.calls(), self.hooks.calls(), plan, 2, Ok(())));
        Ok(())
    }

    /// Writes `MinHeatSetpointLimit`. A floor that the setpoint lies below drags
    /// the setpoint up by the minimum amount. A floor above the upper limit or
    /// below the absolute one breaks the constraint chain in a way that no
    /// setpoint can mend, and is a constraint error.
    pub fn write_min_heat_setpoint_limit<N: AttrChangeNotifier>(
        &mut self,
        notifier: &mut N,
        value: i16,
    ) -> (result: Result<(), Error>)
        ensures
            Self::answers(
                *old(self),
                *final(self),
                *old(notifier),
                *final(notifier),
                Request::WriteMinHeatSetpointLimit(value),
                result,
            ),
    {
        if value < H::ABS_MIN_HEAT_SETPOINT || value > self.hooks.max_heat_setpoint_limit() {
            return Err(Error::new(ErrorCode::ConstraintError));
        }
        let ghost before = *self;
        let ghost plan = model::plan(
            hooks::heating_range::<H>(),
            before.hooks.control(),
            Request::WriteMinHeatSetpointLimit(value),
        );
        proof {
            model::lemma_first_calls(self.endpoint_id, H::metadata().id, self.hooks.control(), plan);
        }

        if let Err(error) = self.journal.set_min_heat_setpoint_limit(&mut self.hooks, value) {
            assert(model::carried_out(before.hooks.calls(), self.hooks.calls(), plan, 0, Err(error)));
            return Err(error);
        }
        self.notify(notifier, AttributeId::MinHeatSetpointLimit);

        if self.hooks.occupied_heating_setpoint() < value {
            if let Err(error) = self.journal.set_occupied_heating_setpoint(&mut self.hooks, value) {
                assert(model::carried_out(
                    before.hooks.calls(),
                    self.hooks.calls(),
                    plan,
                    1,
                    Err(error),
                ));
                return Err(error);
            }
            self.apply();
            self.notify(notifier, AttributeId::OccupiedHeatingSetpoint);
        }
        assert(model::carried_out(
            before.hooks.calls(),
            self.hooks.calls(),
            plan,
            plan.len() as int,
            Ok(()),
        ));
        Ok(())
    }

    /// Writes `MaxHeatSetpointLimit`, the mirror image of
    /// [`write_min_heat_setpoint_limit`](Self::write_min_heat_setpoint_limit).
    pub fn write_max_heat_setpoint_limit<N: AttrChangeNotifier>(
        &mut self,
        notifier: &mut N,
        value: i16,
    ) -> (result: Result<(), Error>)
        ensures
            Self::answers(
                *old(self),
                *final(self),
                *old(notifier),
                *final(notifier),
                Request::WriteMaxHeatSetpointLimit(value),
                result,
            ),
    {
        if value > H::ABS_MAX_HEAT_SETPOINT || value < self.hooks.min_heat_setpoint_limit() {
            return Err(Error::new(ErrorCode::ConstraintError));
        }
        let ghost before = *self;
        let ghost plan = model::plan(
            hooks::heating_range::<H>(),
            before.hooks.control(),
            Request::WriteMaxHeatSetpointLimit(value),
        );
        proof {
            model::lemma_first_calls(self.endpoint_id, H::metadata().id, self.hooks.control(), plan);
        }

        if let Err(error) = self.journal.set_max_heat_setpoint_limit(&mut self.hooks, value) {
            assert(model::carried_out(before.hooks.calls(), self.hooks.calls(), plan, 0, Err(error)));
            return Err(error);
        }
        self.notify(notifier, AttributeId::MaxHeatSetpointLimit);

        if self.hooks.occupied_heating_setpoint() > value {
            if let Err(error) = self.journal.set_occupied_heating_setpoint(&mut self.hooks, value) {
                assert(model::carried_out(
                    before.hooks.calls(),
                    self.hooks.calls(),
                    plan,
                    1,
                    Err(error),
                ));
                return Err(error);
            }
            self.apply();
            self.notify(notifier, AttributeId::OccupiedHeatingSetpoint);
        }
        assert(model::carried_out(
            before.hooks.calls(),
            self.hooks.calls(),
            plan,
            plan.len() as int,
            Ok(()),
        ));
        Ok(())
    }

    /// Writes `SystemMode`, which is limited to the modes that a heating
    /// sequence allows.
    pub fn write_system_mode<N: AttrChangeNotifier>(
        &mut self,
        notifier: &mut N,
        value: SystemModeEnum,
    ) -> (result: Result<(), Error>)
        ensures
            Self::answers(
                *old(self),
                *final(self),
                *old(notifier),
                *final(notifier),
                Request::WriteSystemMode(value),
                result,
            ),
    {
        if !Self::is_supported_system_mode(value) {
            return Err(Error::new(ErrorCode::ConstraintError));
        }
        let ghost before = *self;
        let ghost plan = model::plan(
            hooks::heating_range::<H>(),
            before.hooks.control(),
            Request::WriteSystemMode(value),
        );
        proof {
            model::lemma_first_calls(self.endpoint_id, H::metadata().id, self.hooks.control(), plan);
        }

        if let Err(error) = self.journal.set_system_mode(&mut self.hooks, value) {
            assert(model::carried_out(before.hooks.calls(), self.hooks.calls(), plan, 0, Err(error)));
            return Err(error);
        }
        self.apply();
        self.notify(notifier, AttributeId::SystemMode);

        assert(model::carried_out(before.hooks.calls(), self.hooks.calls(), plan, 2, Ok(())));
        Ok(())
    }

    /// Serves the `SetpointRaiseLower` command.
    ///
    /// `amount` is in steps of 0.1 degrees, the setpoint in 0.01 degrees. A
    /// target outside the effective limits is clamped, which is no error. There
    /// is no cooling setpoint: `Cool` is an invalid command, and `Both` adjusts
    /// the heating setpoint alone.
    pub fn raise_lower_setpoint<N: AttrChangeNotifier>(
        &mut self,
        notifier: &mut N,
        mode: SetpointRaiseLowerModeEnum,
        amount: i8,
    ) -> (result: Result<(), Error>)
        requires
            mode !is Cool ==> old(self).hooks.control().floor(hooks::heating_range::<H>()) <= old(
                self,
            ).hooks.control().ceiling(hooks::heating_range::<H>()),
        ensures
            Self::answers(
                *old(self),
                *final(self),
                *old(notifier),
                *final(notifier),
                Request::SetpointRaiseLower(mode, amount),
                result,
            ),
    {
        if let SetpointRaiseLowerModeEnum::Cool = mode {
            return Err(Error::new(ErrorCode::InvalidCommand));
        }
        let ghost before = *self;
        let ghost plan = model::plan(
            hooks::heating_range::<H>(),
            before.hooks.control(),
            Request::SetpointRaiseLower(mode, amount),
        );
        proof {
            model::lemma_first_calls(self.endpoint_id, H::metadata().id, self.hooks.control(), plan);
        }

        let previous: i16 = self.hooks.occupied_heating_setpoint();
        let target: i16 = self.clamp_setpoint(previous as i32 + amount as i32 * 10);

        if target != previous {
            if let Err(error) = self.journal.set_occupied_heating_setpoint(&mut self.hooks, target) {
                assert(model::carried_out(
                    before.hooks.calls(),
                    self.hooks.calls(),
                    plan,
                    0,
                    Err(error),
                ));
                return Err(error);
            }
            self.apply();
            self.notify(notifier, AttributeId::OccupiedHeatingSetpoint);
        }
        assert(model::carried_out(
            before.hooks.calls(),
            self.hooks.calls(),
            plan,
            plan.len() as int,
            Ok(()),
        ));
        Ok(())
    }

    /// Checks that the cluster is configured in a way that this handler can
    /// serve, and names the first thing that is wrong with it.
    pub fn validate(&self) -> (result: Result<(), ConfigurationError>)
        ensures
            result is Ok <==> Self::configuration().is_valid(),
            result matches Err(error) ==> Self::configuration().fault() == Some(error),
    {
        validation::check_configuration(
            &H::cluster(),
            H::ABS_MIN_HEAT_SETPOINT,
            H::ABS_MAX_HEAT_SETPOINT,
            H::CONTROL_SEQUENCE_OF_OPERATION,
        )
    }

    /// Pulls the stored state back into the constraint chain.
    ///
    /// The limits and the setpoint are non-volatile, while the absolute limits
    /// are compiled in. A firmware update that narrows these, or a corrupt
    /// restore, can leave stored values out of bounds, which the cluster would
    /// then report although it would reject them on a write.
    pub fn repair(&mut self) -> (result: Result<(), Error>)
        requires
            H::ABS_MIN_HEAT_SETPOINT <= H::ABS_MAX_HEAT_SETPOINT,
        ensures
            Self::repairs(*old(self), *final(self), result),
    {
        let ghost before = *self;
        let ghost range = hooks::heating_range::<H>();
        let ghost state = before.hooks.control();
        let ghost goal = model::repaired(range, state);
        let ghost calls = before.hooks.calls();
        let ghost start = calls.len() as int;
        let ghost none: Seq<HookCall> = Seq::empty();
        let ghost set_min = HookCall::SetMinHeatSetpointLimit(goal.min_limit);
        let ghost set_max = HookCall::SetMaxHeatSetpointLimit(goal.max_limit);
        let ghost set_setpoint = HookCall::SetOccupiedHeatingSetpoint(goal.setpoint);
        let ghost set_mode = HookCall::SetSystemMode(goal.mode);
        let ghost a = model::if_needed(goal.min_limit != state.min_limit, set_min);
        let ghost b = model::if_needed(goal.max_limit != state.max_limit, set_max);
        let ghost c = model::if_needed(goal.setpoint != state.setpoint, set_setpoint);
        let ghost d = model::if_needed(goal.mode != state.mode, set_mode);
        let ghost e = seq![HookCall::Apply(goal.mode, goal.setpoint)];
        let ghost plan = model::repair_plan(state, goal);
        proof {
            model::lemma_parts_of_plan(a, b, c, d, e);
            assert(calls + model::succeeded(none) =~= calls);
            assert(none + none =~= none);
            assert(none + a =~= a);
            assert(a + none =~= a);
            assert(a + b + none =~= a + b);
            assert(a + b + c + none =~= a + b + c);
            assert(before.journal@ + journal::called(calls.skip(start)) =~= before.journal@);
        }

        if Self::has_limits() {
            let stored_min: i16 = self.hooks.min_heat_setpoint_limit();
            let min: i16 = clamp(
                stored_min as i32,
                H::ABS_MIN_HEAT_SETPOINT,
                H::ABS_MAX_HEAT_SETPOINT,
            );
            if min != stored_min {
                let ghost history = self.hooks.calls();
                let result = self.journal.set_min_heat_setpoint_limit(&mut self.hooks, min);
                proof {
                    journal::lemma_one_more_called(history, start, HookRecord::of(set_min, result));
                }
                if let Err(error) = result {
                    proof {
                        model::lemma_call_failed(calls, none, set_min, b + c + d + e, error);
                        assert(plan == none + seq![set_min] + (b + c + d + e));
                    }
                    return Err(error);
                }
                proof {
                    model::lemma_call_succeeded(calls, none, set_min);
                    model::lemma_effect_of_one_more(state, none, set_min);
                }
            }
            assert(self.hooks.calls() == calls + model::succeeded(a));
            assert(self.hooks.control() == model::effects(state, a));

            let stored_max: i16 = self.hooks.max_heat_setpoint_limit();
            let max: i16 = clamp(stored_max as i32, min, H::ABS_MAX_HEAT_SETPOINT);
            if max != stored_max {
                let ghost history = self.hooks.calls();
                let result = self.journal.set_max_heat_setpoint_limit(&mut self.hooks, max);
                proof {
                    journal::lemma_one_more_called(history, start, HookRecord::of(set_max, result));
                }
                if let Err(error) = result {
                    proof {
                        model::lemma_call_failed(calls, a, set_max, c + d + e, error);
                        assert(plan == a + seq![set_max] + (c + d + e));
                    }
                    return Err(error);
                }
                proof {
                    model::lemma_call_succeeded(calls, a, set_max);
                    model::lemma_effect_of_one_more(state, a, set_max);
                }
            }
        }
        assert(self.hooks.calls() == calls + model::succeeded(a + b));
        assert(self.hooks.control() == model::effects(state, a + b));

        let stored_setpoint: i16 = self.hooks.occupied_heating_setpoint();
        let setpoint: i16 = self.clamp_setpoint(stored_setpoint as i32);
        if setpoint != stored_setpoint {
            let ghost history = self.hooks.calls();
            let result = self.journal.set_occupied_heating_setpoint(&mut self.hooks, setpoint);
            proof {
                journal::lemma_one_more_called(
                    history,
                    start,
                    HookRecord::of(set_setpoint, result),
                );
            }
            if let Err(error) = result {
                proof {
                    model::lemma_call_failed(calls, a + b, set_setpoint, d + e, error);
                    assert(plan == a + b + seq![set_setpoint] + (d + e));
                }
                return Err(error);
            }
            proof {
                model::lemma_call_succeeded(calls, a + b, set_setpoint);
                model::lemma_effect_of_one_more(state, a + b, set_setpoint);
            }
        }
        assert(self.hooks.calls() == calls + model::succeeded(a + b + c));
        assert(self.hooks.control() == model::effects(state, a + b + c));

        if !Self::is_supported_system_mode(self.hooks.system_mode()) {
            let ghost history = self.hooks.calls();
            let result = self.journal.set_system_mode(&mut self.hooks, SystemModeEnum::Off);
            proof {
                journal::lemma_one_more_called(history, start, HookRecord::of(set_mode, result));
            }
            if let Err(error) = result {
                proof {
                    model::lemma_call_failed(calls, a + b + c, set_mode, e, error);
                    assert(plan == a + b + c + seq![set_mode] + (e));
                }
                return Err(error);
            }
            proof {
                model::lemma_call_succeeded(calls, a + b + c, set_mode);
            }
        }
        assert(self.hooks.calls() == calls + model::succeeded(a + b + c + d));

        let ghost history = self.hooks.calls();
        self.apply();
        proof {
            journal::lemma_one_more_called(history, start, HookRecord::of(e[0], Ok(())));
            model::lemma_call_succeeded(calls, a + b + c + d, e[0]);
            assert(model::carried_out(
                calls,
                self.hooks.calls(),
                plan,
                plan.len() as int,
                Ok(()),
            ));
        }
        Ok(())
    }

    /// Marks a set of attributes as needing a report.
    pub fn out_of_band_message(&mut self, message: OutOfBandMessage)
        ensures
            final(self).dataver == old(self).dataver,
            final(self).endpoint_id == old(self).endpoint_id,
            final(self).hooks == old(self).hooks,
            final(self).journal == old(self).journal,
            final(self).pending@ == old(self).pending@.union(message.attributes()),
    {
        self.pending.add(message);
    }

    /// Takes the mask of the attributes that await a report, once there are any.
    pub fn take_pending(&mut self) -> (taken: Option<u8>)
        ensures
            final(self).dataver == old(self).dataver,
            final(self).endpoint_id == old(self).endpoint_id,
            final(self).hooks == old(self).hooks,
            final(self).journal == old(self).journal,
            final(self).pending@ == Set::<AttributeId>::empty(),
            taken is Some <==> old(self).pending@ != Set::<AttributeId>::empty(),
            taken matches Some(mask) ==> mask <= pending::PENDING_ALL && pending::marked(mask)
                == old(self).pending@,
    {
        self.pending.take()
    }

    /// Reports each attribute that the mask marks, once, in ascending order of
    /// the attributes' numbers.
    pub fn notify_pending<N: AttrChangeNotifier>(&mut self, notifier: &mut N, pending: u8)
        ensures
            final(self).dataver == old(self).dataver,
            final(self).endpoint_id == old(self).endpoint_id,
            final(self).hooks == old(self).hooks,
            final(self).pending == old(self).pending,
            final(notifier).reported() == old(notifier).reported() + model::paths(
                old(self).endpoint_id,
                H::metadata().id,
                pending::in_order(pending::marked(pending)),
            ),
            final(self).journal@ == old(self).journal@ + journal::reported(
                model::paths(
                    old(self).endpoint_id,
                    H::metadata().id,
                    pending::in_order(pending::marked(pending)),
                ),
            ),
    {
        let order: [(u8, AttributeId); 5] = [
            (pending::PENDING_LOCAL_TEMPERATURE, AttributeId::LocalTemperature),
            (pending::PENDING_OCCUPIED_HEATING_SETPOINT, AttributeId::OccupiedHeatingSetpoint),
            (pending::PENDING_MIN_LIMIT, AttributeId::MinHeatSetpointLimit),
            (pending::PENDING_MAX_LIMIT, AttributeId::MaxHeatSetpointLimit),
            (pending::PENDING_SYSTEM_MODE, AttributeId::SystemMode),
        ];
        let ghost all = pending::pending_order();
        let ghost marked = |attribute: AttributeId| pending::marked(pending).contains(attribute);
        let ghost before = *self;
        let ghost reported = notifier.reported();
        proof {
            reveal(Seq::filter);
            assert(all.take(0).filter(marked) =~= Seq::empty());
        }
        let mut i: usize = 0;
        while i < 5
            invariant
                i <= 5,
                order@.len() == 5,
                forall|j: int|
                    0 <= j < 5 ==> order@[j].1 == #[trigger] pending::pending_order()[j]
                        && order@[j].0 == pending::pending_bit(order@[j].1),
                all == pending::pending_order(),
                marked == (|attribute: AttributeId| pending::marked(pending).contains(attribute)),
                self.dataver == before.dataver,
                self.endpoint_id == before.endpoint_id,
                self.hooks == before.hooks,
                self.pending == before.pending,
                notifier.reported() == reported + model::paths(
                    before.endpoint_id,
                    H::metadata().id,
                    all.take(i as int).filter(marked),
                ),
                self.journal@ == before.journal@ + journal::reported(
                    model::paths(
                        before.endpoint_id,
                        H::metadata().id,
                        all.take(i as int).filter(marked),
                    ),
                ),
            decreases 5 - i,
        {
            let (bit, attribute) = order[i];
            if pending & bit != 0 {
                self.notify(notifier, attribute);
            }
            proof {
                let earlier = all.take(i as int).filter(marked);
                assert(all[i as int] == attribute);
                assert(all.take(i + 1).drop_last() =~= all.take(i as int));
                reveal(Seq::filter);
                assert(all.take(i + 1).filter(marked) =~= if marked(attribute) {
                    earlier + seq![attribute]
                } else {
                    earlier
                });
                assert(notifier.reported() =~= reported + model::paths(
                    before.endpoint_id,
                    H::metadata().id,
                    all.take(i + 1).filter(marked),
                ));
                assert(self.journal@ =~= before.journal@ + journal::reported(
                    model::paths(
                        before.endpoint_id,
                        H::metadata().id,
                        all.take(i + 1).filter(marked),
                    ),
                ));
            }
            i += 1;
        }
        assert(all.take(5) =~= all);
    }

    /// Adapts the handler to the node that hosts it.
    pub fn adapt(self) -> (adaptor: HandlerAsyncAdaptor<Self>)
        ensures
            adaptor.0 == self,
    {
        HandlerAsyncAdaptor(self)
    }

    /// The version of the cluster's data.
    pub fn dataver(&self) -> (version: u32)
        ensures
            version == self.dataver.version,
    {
        self.dataver.get()
    }

    /// Marks the cluster's data as changed.
    pub fn dataver_changed(&mut self)
        ensures
            final(self).dataver.version == (old(self).dataver.version + 1) % 0x1_0000_0000,
            final(self).endpoint_id == old(self).endpoint_id,
            final(self).hooks == old(self).hooks,
            final(self).pending == old(self).pending,
            final(self).journal == old(self).journal,
    {
        self.dataver.changed();
    }

    /// Follows the life of the node. On `Startup` the stored state is repaired.
    /// A configuration that [`validate`](Self::validate) rejects is a
    /// programming error and must not be started up.
    pub fn lifecycle(&mut self, op: LifecycleOp) -> (result: Result<(), Error>)
        requires
            op is Startup ==> Self::configuration().is_valid(),
        ensures
            match op {
                LifecycleOp::Startup => Self::repairs(*old(self), *final(self), result),
                LifecycleOp::Shutdown => *final(self) == *old(self) && result == Ok::<(), Error>(()),
            },
    {
        match op {
            LifecycleOp::Startup => match self.validate() {
                Ok(()) => self.repair(),
                Err(_) => vstd::pervasive::unreached(),
            },
            LifecycleOp::Shutdown => Ok(()),
        }
    }

    /// Reads `LocalTemperature`: the calculated local temperature, or nothing
    /// when it is unavailable. With the `LTNE` feature there is never anything
    /// to read: the equipment still controls off the calculated value, but does
    /// not expose it.
    pub fn local_temperature(&self) -> (result: Result<Option<i16>, Error>)
        ensures
            result == Ok::<Option<i16>, Error>(
                if validation::contains_features(
                    H::metadata().feature_map,
                    FEATURE_LOCAL_TEMPERATURE_NOT_EXPOSED,
                ) {
                    None
                } else {
                    self.hooks.temperature()
                },
            ),
    {
        if Self::supports_feature(FEATURE_LOCAL_TEMPERATURE_NOT_EXPOSED) {
            Ok(None)
        } else {
            Ok(self.hooks.local_temperature())
        }
    }

    /// Reads `AbsMinHeatSetpointLimit`.
    pub fn abs_min_heat_setpoint_limit(&self) -> (result: Result<i16, Error>)
        ensures
            result == Ok::<i16, Error>(H::ABS_MIN_HEAT_SETPOINT),
    {
        Ok(H::ABS_MIN_HEAT_SETPOINT)
    }

    /// Reads `AbsMaxHeatSetpointLimit`.
    pub fn abs_max_heat_setpoint_limit(&self) -> (result: Result<i16, Error>)
        ensures
            result == Ok::<i16, Error>(H::ABS_MAX_HEAT_SETPOINT),
    {
        Ok(H::ABS_MAX_HEAT_SETPOINT)
    }

    /// Reads `OccupiedHeatingSetpoint`.
    pub fn occupied_heating_setpoint(&self) -> (result: Result<i16, Error>)
        ensures
            result == Ok::<i16, Error>(self.hooks.control().setpoint),
    {
        Ok(self.hooks.occupied_heating_setpoint())
    }

    /// Reads `MinHeatSetpointLimit`.
    pub fn min_heat_setpoint_limit(&self) -> (result: Result<i16, Error>)
        ensures
            result == Ok::<i16, Error>(self.hooks.control().min_limit),
    {
        Ok(self.hooks.min_heat_setpoint_limit())
    }

    /// Reads `MaxHeatSetpointLimit`.
    pub fn max_heat_setpoint_limit(&self) -> (result: Result<i16, Error>)
        ensures
            result == Ok::<i16, Error>(self.hooks.control().max_limit),
    {
        Ok(self.hooks.max_heat_setpoint_limit())
    }

    /// Reads `ControlSequenceOfOperation`.
    pub fn control_sequence_of_operation(&self) -> (result: Result<ControlSequenceOfOperationEnum, Error>)
        ensures
            result == Ok::<ControlSequenceOfOperationEnum, Error>(H::CONTROL_SEQUENCE_OF_OPERATION),
    {
        Ok(H::CONTROL_SEQUENCE_OF_OPERATION)
    }

    /// Reads `SystemMode`.
    pub fn system_mode(&self) -> (result: Result<SystemModeEnum, Error>)
        ensures
            result == Ok::<SystemModeEnum, Error>(self.hooks.control().mode),
    {
        Ok(self.hooks.system_mode())
    }

    /// Serves a write of `OccupiedHeatingSetpoint`.
    pub fn set_occupied_heating_setpoint<N: AttrChangeNotifier>(
        &mut self,
        notifier: &mut N,
        value: i16,
    ) -> (result: Result<(), Error>)
        ensures
            Self::answers(
                *old(self),
                *final(self),
                *old(notifier),
                *final(notifier),
                Request::WriteOccupiedHeatingSetpoint(value),
                result,
            ),
    {
        self.write_occupied_heating_setpoint(notifier, value)
    }

    /// Serves a write of `MinHeatSetpointLimit`.
    pub fn set_min_heat_setpoint_limit<N: AttrChangeNotifier>(
        &mut self,
        notifier: &mut N,
        value: i16,
    ) -> (result: Result<(), Error>)
        ensures
            Self::answers(
                *old(self),
                *final(self),
                *old(notifier),
                *final(notifier),
                Request::WriteMinHeatSetpointLimit(value),
                result,
            ),
    {
        self.write_min_heat_setpoint_limit(notifier, value)
    }

    /// Serves a write of `MaxHeatSetpointLimit`.
    pub fn set_max_heat_setpoint_limit<N: AttrChangeNotifier>(
        &mut self,
        notifier: &mut N,
        value: i16,
    ) -> (result: Result<(), Error>)
        ensures
            Self::answers(
                *old(self),
                *final(self),
                *old(notifier),
                *final(notifier),
                Request::WriteMaxHeatSetpointLimit(value),
                result,
            ),
    {
        self.write_max_heat_setpoint_limit(notifier, value)
    }

    /// Serves a write of `ControlSequenceOfOperation`, which is silently
    /// ignored: it succeeds, changes nothing and reports nothing.
    pub fn set_control_sequence_of_operation<N: AttrChangeNotifier>(
        &self,
        _notifier: &mut N,
        _value: ControlSequenceOfOperationEnum,
    ) -> (result: Result<(), Error>)
        ensures
            result == Ok::<(), Error>(()),
            *final(_notifier) == *old(_notifier),
            Self::answers(
                *self,
                *self,
                *old(_notifier),
                *final(_notifier),
                Request::WriteControlSequenceOfOperation(_value),
                result,
            ),
    {
        proof {
            let plan = model::plan(
                hooks::heating_range::<H>(),
                self.hooks.control(),
                Request::WriteControlSequenceOfOperation(_value),
            );
            model::lemma_first_calls(self.endpoint_id, H::metadata().id, self.hooks.control(), plan);
            assert(model::carried_out(self.hooks.calls(), self.hooks.calls(), plan, 0, Ok(())));
        }
        Ok(())
    }

    /// Serves a write of `SystemMode`.
    pub fn set_system_mode<N: AttrChangeNotifier>(
        &mut self,
        notifier: &mut N,
        value: SystemModeEnum,
    ) -> (result: Result<(), Error>)
        ensures
            Self::answers(
                *old(self),
                *final(self),
                *old(notifier),
                *final(notifier),
                Request::WriteSystemMode(value),
                result,
            ),
    {
        self.write_system_mode(notifier, value)
    }

    /// Serves the `SetpointRaiseLower` command. A request whose fields cannot be
    /// decoded is answered with the decoder's error, the mode's before the
    /// amount's.
    pub fn handle_setpoint_raise_lower<N: AttrChangeNotifier>(
        &mut self,
        notifier: &mut N,
        request: SetpointRaiseLowerRequest,
    ) -> (result: Result<(), Error>)
        requires
            request.mode matches Ok(mode) && request.amount is Ok && mode !is Cool ==> old(
                self,
            ).hooks.control().floor(hooks::heating_range::<H>()) <= old(
                self,
            ).hooks.control().ceiling(hooks::heating_range::<H>()),
        ensures
            match (request.mode, request.amount) {
                (Ok(mode), Ok(amount)) => Self::answers(
                    *old(self),
                    *final(self),
                    *old(notifier),
                    *final(notifier),
                    Request::SetpointRaiseLower(mode, amount),
                    result,
                ),
                (Err(error), _) => result == Err::<(), Error>(error) && *final(self) == *old(self)
                    && *final(notifier) == *old(notifier),
                (_, Err(error)) => result == Err::<(), Error>(error) && *final(self) == *old(self)
                    && *final(notifier) == *old(notifier),
            },
    {
        let mode = match request.mode {
            Ok(mode) => mode,
            Err(error) => return Err(error),
        };
        let amount: i8 = match request.amount {
            Ok(amount) => amount,
            Err(error) => return Err(error),
        };
        self.raise_lower_setpoint(notifier, mode, amount)
    }

    /// Answers the `SetWeeklySchedule` command, which is not served.
    pub fn handle_set_weekly_schedule<R>(&self, _request: R) -> (result: Result<(), Error>)
        ensures
            result == Err::<(), Error>(Error { code: ErrorCode::CommandNotFound }),
    {
        Err(Error::new(ErrorCode::CommandNotFound))
    }

    /// Answers the `GetWeeklySchedule` command, which is not served.
    pub fn handle_get_weekly_schedule<R, P>(&self, _request: R, _response: P) -> (result: Result<P, Error>)
        ensures
            result == Err::<P, Error>(Error { code: ErrorCode::CommandNotFound }),
    {
        Err(Error::new(ErrorCode::CommandNotFound))
    }

    /// Answers the `ClearWeeklySchedule` command, which is not served.
    pub fn handle_clear_weekly_schedule(&self) -> (result: Result<(), Error>)
        ensures
            result == Err::<(), Error>(Error { code: ErrorCode::CommandNotFound }),
    {
        Err(Error::new(ErrorCode::CommandNotFound))
    }

    /// Answers the `SetActiveScheduleRequest` command, which is not served.
    pub fn handle_set_active_schedule_request<R>(&self, _request: R) -> (result: Result<(), Error>)
        ensures
            result == Err::<(), Error>(Error { code: ErrorCode::CommandNotFound }),
    {
        Err(Error::new(ErrorCode::CommandNotFound))
    }

    /// Answers the `SetActivePresetRequest` command, which is not served.
    pub fn handle_set_active_preset_request<R>(&self, _request: R) -> (result: Result<(), Error>)
        ensures
            result == Err::<(), Error>(Error { code: ErrorCode::CommandNotFound }),
    {
        Err(Error::new(ErrorCode::CommandNotFound))
    }

    /// Answers the `AddThermostatSuggestion` command, which is not served.
    pub fn handle_add_thermostat_suggestion<R, P>(&self, _request: R, _response: P) -> (result: Result<P, Error>)
        ensures
            result == Err::<P, Error>(Error { code: ErrorCode::CommandNotFound }),
    {
        Err(Error::new(ErrorCode::CommandNotFound))
    }

    /// Answers the `RemoveThermostatSuggestion` command, which is not served.
    pub fn handle_remove_thermostat_suggestion<R>(&self, _request: R) -> (result: Result<(), Error>)
        ensures
            result == Err::<(), Error>(Error { code: ErrorCode::CommandNotFound }),
    {
        Err(Error::new(ErrorCode::CommandNotFound))
    }

    /// Answers the `AtomicRequest` command, which is not served.
    pub fn handle_atomic_request<R, P>(&self, _request: R, _response: P) -> (result: Result<P, Error>)
        ensures
            result == Err::<P, Error>(Error { code: ErrorCode::CommandNotFound }),
    {
        Err(Error::new(ErrorCode::CommandNotFound))
    }
}

/// The value of `lo ..= hi` that lies nearest to `value`.
fn clamp(value: i32, lo: i16, hi: i16) -> (clamped: i16)
    requires
        lo <= hi,
    ensures
        clamped == model::clamp(value as int, lo as int, hi as int),
{
    if value < lo as i32 {
        lo
    } else if value > hi as i32 {
        hi
    } else {
        value as i16
    }
}

} // verus!
