//! What the handler did, in the order in which it did it.
//!
//! The device and the subscribers each see only their own side, so neither can
//! tell whether a change was applied before it was reported. The journal can: the
//! handler talks to both sides through it, and it has no other way to grow.

use vstd::prelude::*;

use crate::cluster::{AttrId, ClusterId, EndptId, SystemModeEnum};
use crate::error::Error;
use crate::hooks::{AttrChangeNotifier, AttrPath, HookCall, HookRecord, ThermostatHooks};
use crate::model;

verus! {

/// Something that the handler did.
pub enum Event {
    /// It called the device.
    Called(HookRecord),
    /// It reported an attribute.
    Reported(AttrPath),
}

/// The events of calls that were made one after the other.
pub open spec fn called(records: Seq<HookRecord>) -> Seq<Event> {
    records.map_values(|record: HookRecord| Event::Called(record))
}

/// One more call, after those that a history holds from its `start`-th record on.
pub(crate) proof fn lemma_one_more_called(history: Seq<HookRecord>, start: int, record: HookRecord)
    requires
        0 <= start <= history.len(),
    ensures
        called(history.push(record).skip(start)) == called(history.skip(start)).push(
            Event::Called(record),
        ),
{
    assert(called(history.push(record).skip(start)) =~= called(history.skip(start)).push(
        Event::Called(record),
    ));
}

/// The events of reports that were made one after the other.
pub open spec fn reported(paths: Seq<AttrPath>) -> Seq<Event> {
    paths.map_values(|path: AttrPath| Event::Reported(path))
}

/// How a device answers a call to one of its setters.
pub open spec fn answered<H: ThermostatHooks>(
    before: H,
    after: H,
    call: HookCall,
    result: Result<(), Error>,
) -> bool {
    &&& after.calls() == before.calls().push(HookRecord::of(call, result))
    &&& H::carries_out(call) ==> result is Ok
    &&& result is Ok ==> after.control() == model::effect(before.control(), call)
    &&& H::fails_cleanly() && result is Err ==> after.control() == before.control()
}

/// Everything that a handler did so far. It costs nothing at run time.
pub struct Journal {
    events: Ghost<Seq<Event>>,
}

impl Journal {
    /// The events so far, the oldest first.
    pub closed spec fn view(&self) -> Seq<Event> {
        self.events@
    }

    /// A journal in which nothing has happened yet.
    pub(crate) fn new() -> (journal: Self)
        ensures
            journal@ == Seq::<Event>::empty(),
    {
        Journal { events: Ghost(Seq::empty()) }
    }

    /// Has the device store `OccupiedHeatingSetpoint`.
    pub(crate) fn set_occupied_heating_setpoint<H: ThermostatHooks>(
        &mut self,
        hooks: &mut H,
        value: i16,
    ) -> (result: Result<(), Error>)
        ensures
            answered(
                *old(hooks),
                *final(hooks),
                HookCall::SetOccupiedHeatingSetpoint(value),
                result,
            ),
            final(self)@ == old(self)@.push(
                Event::Called(HookRecord::of(HookCall::SetOccupiedHeatingSetpoint(value), result)),
            ),
    {
        let result = hooks.set_occupied_heating_setpoint(value);
        self.events = Ghost(
            self.events@.push(
                Event::Called(HookRecord::of(HookCall::SetOccupiedHeatingSetpoint(value), result)),
            ),
        );
        result
    }

    /// Has the device store `MinHeatSetpointLimit`.
    pub(crate) fn set_min_heat_setpoint_limit<H: ThermostatHooks>(
        &mut self,
        hooks: &mut H,
        value: i16,
    ) -> (result: Result<(), Error>)
        ensures
            answered(*old(hooks), *final(hooks), HookCall::SetMinHeatSetpointLimit(value), result),
            final(self)@ == old(self)@.push(
                Event::Called(HookRecord::of(HookCall::SetMinHeatSetpointLimit(value), result)),
            ),
    {
        let result = hooks.set_min_heat_setpoint_limit(value);
        self.events = Ghost(
            self.events@.push(
                Event::Called(HookRecord::of(HookCall::SetMinHeatSetpointLimit(value), result)),
            ),
        );
        result
    }

    /// Has the device store `MaxHeatSetpointLimit`.
    pub(crate) fn set_max_heat_setpoint_limit<H: ThermostatHooks>(
        &mut self,
        hooks: &mut H,
        value: i16,
    ) -> (result: Result<(), Error>)
        ensures
            answered(*old(hooks), *final(hooks), HookCall::SetMaxHeatSetpointLimit(value), result),
            final(self)@ == old(self)@.push(
                Event::Called(HookRecord::of(HookCall::SetMaxHeatSetpointLimit(value), result)),
            ),
    {
        let result = hooks.set_max_heat_setpoint_limit(value);
        self.events = Ghost(
            self.events@.push(
                Event::Called(HookRecord::of(HookCall::SetMaxHeatSetpointLimit(value), result)),
            ),
        );
        result
    }

    /// Has the device store `SystemMode`.
    pub(crate) fn set_system_mode<H: ThermostatHooks>(
        &mut self,
        hooks: &mut H,
        value: SystemModeEnum,
    ) -> (result: Result<(), Error>)
        ensures
            answered(*old(hooks), *final(hooks), HookCall::SetSystemMode(value), result),
            final(self)@ == old(self)@.push(
                Event::Called(HookRecord::of(HookCall::SetSystemMode(value), result)),
            ),
    {
        let result = hooks.set_system_mode(value);
        self.events = Ghost(
            self.events@.push(
                Event::Called(HookRecord::of(HookCall::SetSystemMode(value), result)),
            ),
        );
        result
    }

    /// Pushes the control state onto the equipment.
    pub(crate) fn apply<H: ThermostatHooks>(
        &mut self,
        hooks: &mut H,
        system_mode: SystemModeEnum,
        heating_setpoint: i16,
    )
        ensures
            (*final(hooks)).calls() == (*old(hooks)).calls().push(
                HookRecord::of(HookCall::Apply(system_mode, heating_setpoint), Ok(())),
            ),
            (*final(hooks)).control() == (*old(hooks)).control(),
            final(self)@ == old(self)@.push(
                Event::Called(
                    HookRecord::of(HookCall::Apply(system_mode, heating_setpoint), Ok(())),
                ),
            ),
    {
        hooks.apply(system_mode, heating_setpoint);
        self.events = Ghost(
            self.events@.push(
                Event::Called(
                    HookRecord::of(HookCall::Apply(system_mode, heating_setpoint), Ok(())),
                ),
            ),
        );
    }

    /// Reports that the attribute changed.
    pub(crate) fn report<N: AttrChangeNotifier>(
        &mut self,
        notifier: &mut N,
        endpoint_id: EndptId,
        cluster_id: ClusterId,
        attr_id: AttrId,
    )
        ensures
            final(notifier).reported() == old(notifier).reported().push(
                (AttrPath { endpoint_id, cluster_id, attr_id }),
            ),
            final(self)@ == old(self)@.push(
                Event::Reported(AttrPath { endpoint_id, cluster_id, attr_id }),
            ),
    {
        notifier.notify_attr_changed(endpoint_id, cluster_id, attr_id);
        self.events = Ghost(
            self.events@.push(Event::Reported(AttrPath { endpoint_id, cluster_id, attr_id })),
        );
    }
}

} // verus!
