//! The two sides that the handler talks to: the device behind the thermostat
//! and the subscribers in front of it.

use vstd::prelude::*;

use crate::cluster::{
    AttrId, AttributeId, Cluster, ClusterId, ClusterView, ControlSequenceOfOperationEnum, EndptId,
    SystemModeEnum,
};
use crate::error::{Error, ErrorCode};
use crate::model::{ControlState, HeatingRange};

verus! {

/// A call that asks the device to change something.
pub enum HookCall {
    SetOccupiedHeatingSetpoint(i16),
    SetMinHeatSetpointLimit(i16),
    SetMaxHeatSetpointLimit(i16),
    SetSystemMode(SystemModeEnum),
    Apply(SystemModeEnum, i16),
}

impl HookCall {
    /// The attribute that the call writes, if it writes one.
    pub open spec fn attribute(self) -> Option<AttributeId> {
        match self {
            HookCall::SetOccupiedHeatingSetpoint(_) => Some(AttributeId::OccupiedHeatingSetpoint),
            HookCall::SetMinHeatSetpointLimit(_) => Some(AttributeId::MinHeatSetpointLimit),
            HookCall::SetMaxHeatSetpointLimit(_) => Some(AttributeId::MaxHeatSetpointLimit),
            HookCall::SetSystemMode(_) => Some(AttributeId::SystemMode),
            HookCall::Apply(_, _) => None,
        }
    }
}

/// A call to the device, together with the error if the device failed it.
pub struct HookRecord {
    pub call: HookCall,
    pub failure: Option<Error>,
}

impl HookRecord {
    /// The record of a call and of what it returned.
    pub open spec fn of(call: HookCall, result: Result<(), Error>) -> Self {
        HookRecord {
            call,
            failure: match result {
                Ok(_) => None,
                Err(error) => Some(error),
            },
        }
    }
}

/// The device-specific half of a heating thermostat.
///
/// The handler owns every rule of the cluster; the hooks own the hardware and
/// the persistence. Each `set_*` method backs a non-volatile attribute and has
/// to keep its value across reboots. None of them should validate or clamp: the
/// handler has already done that, and checking again would only let the two
/// disagree.
///
/// The contracts speak of two things. [`control`](ThermostatHooks::control) is
/// what the getters return and what a successful setter changes.
/// [`calls`](ThermostatHooks::calls) is the history of what the device was
/// asked to do and of what it answered; it constrains no implementer, since
/// every device has such a history. What a setter that fails leaves behind is
/// the device's own affair, unless the device
/// [`fails_cleanly`](ThermostatHooks::fails_cleanly).
///
/// A device that is to be verified has to define what these are for it; their
/// defaults are placeholders, which no device that stores anything lives up to.
/// The two promises [`carries_out`](ThermostatHooks::carries_out) and
/// [`fails_cleanly`](ThermostatHooks::fails_cleanly) are not made unless the
/// device defines them.
pub trait ThermostatHooks: Sized {
    /// `AbsMinHeatSetpointLimit`, the lowest heating setpoint that the
    /// manufacturer allows, in 0.01 degrees Celsius.
    const ABS_MIN_HEAT_SETPOINT: i16 = 700;

    /// `AbsMaxHeatSetpointLimit`, the highest heating setpoint that the
    /// manufacturer allows, in 0.01 degrees Celsius.
    const ABS_MAX_HEAT_SETPOINT: i16 = 3000;

    /// `ControlSequenceOfOperation`. A constant because writes to the attribute
    /// are silently ignored, so it never changes.
    const CONTROL_SEQUENCE_OF_OPERATION: ControlSequenceOfOperationEnum =
        ControlSequenceOfOperationEnum::HeatingOnly;

    /// The cluster metadata, as a mathematical value.
    open spec fn metadata() -> ClusterView {
        arbitrary()
    }

    /// The state that the attributes of the cluster read and write.
    open spec fn control(&self) -> ControlState {
        arbitrary()
    }

    /// The local temperature as the device knows it.
    open spec fn temperature(&self) -> Option<i16> {
        arbitrary()
    }

    /// What the device was asked to do so far, the oldest call first.
    open spec fn calls(&self) -> Seq<HookRecord> {
        arbitrary()
    }

    /// Whether the device promises to carry out the call, to whichever of its
    /// setters it is. A device that omits the setpoint limits promises this for
    /// the setpoint and the mode alone.
    open spec fn carries_out(call: HookCall) -> bool {
        false
    }

    /// Whether the device promises that a setter that fails changes nothing.
    open spec fn fails_cleanly() -> bool {
        false
    }

    /// The cluster metadata, which selects the features, attributes and
    /// commands that this instance serves.
    fn cluster() -> (cluster: Cluster)
        ensures
            cluster@ == Self::metadata(),
    ;

    /// The calculated local temperature in 0.01 degrees Celsius, or nothing
    /// when no reading is available. A device that samples a sensor answers
    /// with the sample it holds.
    fn local_temperature(&self) -> (temperature: Option<i16>)
        ensures
            temperature == self.temperature(),
    ;

    /// The stored `OccupiedHeatingSetpoint`, in 0.01 degrees Celsius.
    fn occupied_heating_setpoint(&self) -> (value: i16)
        ensures
            value == self.control().setpoint,
    ;

    /// Stores `OccupiedHeatingSetpoint`.
    fn set_occupied_heating_setpoint(&mut self, value: i16) -> (result: Result<(), Error>)
        ensures
            (*final(self)).calls() == (*old(self)).calls().push(
                HookRecord::of(HookCall::SetOccupiedHeatingSetpoint(value), result),
            ),
            Self::carries_out(HookCall::SetOccupiedHeatingSetpoint(value)) ==> result is Ok,
            result is Ok ==> (*final(self)).control() == (*old(self)).control().with_setpoint(
                value,
            ),
            Self::fails_cleanly() && result is Err ==> (*final(self)).control() == (*old(
                self,
            )).control(),
    ;

    /// The stored `MinHeatSetpointLimit`, in 0.01 degrees Celsius. A device
    /// that omits the setpoint limits answers with
    /// [`omitted_min_heat_setpoint_limit`](ThermostatHooks::omitted_min_heat_setpoint_limit).
    fn min_heat_setpoint_limit(&self) -> (value: i16)
        ensures
            value == self.control().min_limit,
    ;

    /// Stores `MinHeatSetpointLimit`. A device that omits the setpoint limits
    /// answers with [`refuse_omitted_limit`](ThermostatHooks::refuse_omitted_limit).
    fn set_min_heat_setpoint_limit(&mut self, value: i16) -> (result: Result<(), Error>)
        ensures
            (*final(self)).calls() == (*old(self)).calls().push(
                HookRecord::of(HookCall::SetMinHeatSetpointLimit(value), result),
            ),
            Self::carries_out(HookCall::SetMinHeatSetpointLimit(value)) ==> result is Ok,
            result is Ok ==> (*final(self)).control() == (*old(self)).control().with_min_limit(
                value,
            ),
            Self::fails_cleanly() && result is Err ==> (*final(self)).control() == (*old(
                self,
            )).control(),
    ;

    /// The stored `MaxHeatSetpointLimit`, in 0.01 degrees Celsius. A device
    /// that omits the setpoint limits answers with
    /// [`omitted_max_heat_setpoint_limit`](ThermostatHooks::omitted_max_heat_setpoint_limit).
    fn max_heat_setpoint_limit(&self) -> (value: i16)
        ensures
            value == self.control().max_limit,
    ;

    /// Stores `MaxHeatSetpointLimit`. A device that omits the setpoint limits
    /// answers with [`refuse_omitted_limit`](ThermostatHooks::refuse_omitted_limit).
    fn set_max_heat_setpoint_limit(&mut self, value: i16) -> (result: Result<(), Error>)
        ensures
            (*final(self)).calls() == (*old(self)).calls().push(
                HookRecord::of(HookCall::SetMaxHeatSetpointLimit(value), result),
            ),
            Self::carries_out(HookCall::SetMaxHeatSetpointLimit(value)) ==> result is Ok,
            result is Ok ==> (*final(self)).control() == (*old(self)).control().with_max_limit(
                value,
            ),
            Self::fails_cleanly() && result is Err ==> (*final(self)).control() == (*old(
                self,
            )).control(),
    ;

    /// The stored `SystemMode`.
    fn system_mode(&self) -> (value: SystemModeEnum)
        ensures
            value == self.control().mode,
    ;

    /// Stores `SystemMode`.
    fn set_system_mode(&mut self, value: SystemModeEnum) -> (result: Result<(), Error>)
        ensures
            (*final(self)).calls() == (*old(self)).calls().push(
                HookRecord::of(HookCall::SetSystemMode(value), result),
            ),
            Self::carries_out(HookCall::SetSystemMode(value)) ==> result is Ok,
            result is Ok ==> (*final(self)).control() == (*old(self)).control().with_mode(value),
            Self::fails_cleanly() && result is Err ==> (*final(self)).control() == (*old(
                self,
            )).control(),
    ;

    /// Pushes the resolved control state onto the equipment.
    ///
    /// Called after every change to `SystemMode` or `OccupiedHeatingSetpoint`,
    /// and once at startup. How mode, setpoint and local temperature turn into
    /// heat demand is the device's business, not the cluster's.
    fn apply(&mut self, system_mode: SystemModeEnum, heating_setpoint: i16)
        ensures
            (*final(self)).calls() == (*old(self)).calls().push(
                HookRecord::of(HookCall::Apply(system_mode, heating_setpoint), Ok(())),
            ),
            (*final(self)).control() == (*old(self)).control(),
    ;

    /// What a device that omits the setpoint limits answers for
    /// `MinHeatSetpointLimit`.
    fn omitted_min_heat_setpoint_limit() -> (value: i16)
        ensures
            value == Self::ABS_MIN_HEAT_SETPOINT,
    {
        Self::ABS_MIN_HEAT_SETPOINT
    }

    /// What a device that omits the setpoint limits answers for
    /// `MaxHeatSetpointLimit`.
    fn omitted_max_heat_setpoint_limit() -> (value: i16)
        ensures
            value == Self::ABS_MAX_HEAT_SETPOINT,
    {
        Self::ABS_MAX_HEAT_SETPOINT
    }

    /// How a device that omits the setpoint limits answers a write to one.
    fn refuse_omitted_limit() -> (result: Result<(), Error>)
        ensures
            result == Err::<(), Error>(Error { code: ErrorCode::AttributeNotFound }),
    {
        Err(Error::new(ErrorCode::AttributeNotFound))
    }
}

/// The range in which the heating setpoint of the device `H` moves.
pub open spec fn heating_range<H: ThermostatHooks>() -> HeatingRange {
    HeatingRange {
        abs_min: H::ABS_MIN_HEAT_SETPOINT,
        abs_max: H::ABS_MAX_HEAT_SETPOINT,
        has_limits: H::metadata().serves(AttributeId::MinHeatSetpointLimit),
    }
}

/// A borrowed device is a device.
impl<T: ThermostatHooks> ThermostatHooks for &mut T {
    const ABS_MIN_HEAT_SETPOINT: i16 = T::ABS_MIN_HEAT_SETPOINT;

    const ABS_MAX_HEAT_SETPOINT: i16 = T::ABS_MAX_HEAT_SETPOINT;

    const CONTROL_SEQUENCE_OF_OPERATION: ControlSequenceOfOperationEnum =
        T::CONTROL_SEQUENCE_OF_OPERATION;

    open spec fn metadata() -> ClusterView {
        T::metadata()
    }

    open spec fn control(&self) -> ControlState {
        (**self).control()
    }

    open spec fn temperature(&self) -> Option<i16> {
        (**self).temperature()
    }

    open spec fn calls(&self) -> Seq<HookRecord> {
        (**self).calls()
    }

    open spec fn carries_out(call: HookCall) -> bool {
        T::carries_out(call)
    }

    open spec fn fails_cleanly() -> bool {
        T::fails_cleanly()
    }

    fn cluster() -> (cluster: Cluster) {
        T::cluster()
    }

    fn local_temperature(&self) -> (temperature: Option<i16>) {
        (**self).local_temperature()
    }

    fn occupied_heating_setpoint(&self) -> (value: i16) {
        (**self).occupied_heating_setpoint()
    }

    fn set_occupied_heating_setpoint(&mut self, value: i16) -> (result: Result<(), Error>) {
        (**self).set_occupied_heating_setpoint(value)
    }

    fn min_heat_setpoint_limit(&self) -> (value: i16) {
        (**self).min_heat_setpoint_limit()
    }

    fn set_min_heat_setpoint_limit(&mut self, value: i16) -> (result: Result<(), Error>) {
        (**self).set_min_heat_setpoint_limit(value)
    }

    fn max_heat_setpoint_limit(&self) -> (value: i16) {
        (**self).max_heat_setpoint_limit()
    }

    fn set_max_heat_setpoint_limit(&mut self, value: i16) -> (result: Result<(), Error>) {
        (**self).set_max_heat_setpoint_limit(value)
    }

    fn system_mode(&self) -> (value: SystemModeEnum) {
        (**self).system_mode()
    }

    fn set_system_mode(&mut self, value: SystemModeEnum) -> (result: Result<(), Error>) {
        (**self).set_system_mode(value)
    }

    fn apply(&mut self, system_mode: SystemModeEnum, heating_setpoint: i16) {
        (**self).apply(system_mode, heating_setpoint)
    }
}

/// A borrowed device declares what the device itself declares.
pub proof fn law_a_borrowed_device_declares_the_same<T: ThermostatHooks>()
    ensures
        <&mut T as ThermostatHooks>::ABS_MIN_HEAT_SETPOINT == T::ABS_MIN_HEAT_SETPOINT,
        <&mut T as ThermostatHooks>::ABS_MAX_HEAT_SETPOINT == T::ABS_MAX_HEAT_SETPOINT,
        <&mut T as ThermostatHooks>::CONTROL_SEQUENCE_OF_OPERATION
            == T::CONTROL_SEQUENCE_OF_OPERATION,
        <&mut T as ThermostatHooks>::metadata() == T::metadata(),
        heating_range::<&mut T>() == heating_range::<T>(),
{
}

/// The place of an attribute in the node.
#[derive(Clone, Copy, Debug, PartialEq, Eq, Structural)]
pub struct AttrPath {
    pub endpoint_id: EndptId,
    pub cluster_id: ClusterId,
    pub attr_id: AttrId,
}

/// Receives the attributes whose values subscribers have to be told again.
pub trait AttrChangeNotifier: Sized {
    /// The attributes reported so far, the oldest report first.
    open spec fn reported(&self) -> Seq<AttrPath> {
        arbitrary()
    }

    /// Reports that the attribute changed.
    fn notify_attr_changed(&mut self, endpoint_id: EndptId, cluster_id: ClusterId, attr_id: AttrId)
        ensures
            final(self).reported() == old(self).reported().push(
                (AttrPath { endpoint_id, cluster_id, attr_id }),
            ),
    ;
}

/// A notifier that keeps the reports for its owner to send.
#[derive(Debug)]
pub struct AttrChanges {
    pub paths: Vec<AttrPath>,
}

impl AttrChanges {
    /// A notifier with nothing reported yet.
    pub fn new() -> (changes: Self)
        ensures
            changes.reported() == Seq::<AttrPath>::empty(),
    {
        AttrChanges { paths: Vec::new() }
    }
}

impl AttrChangeNotifier for AttrChanges {
    open spec fn reported(&self) -> Seq<AttrPath> {
        self.paths@
    }

    fn notify_attr_changed(
        &mut self,
        endpoint_id: EndptId,
        cluster_id: ClusterId,
        attr_id: AttrId,
    ) {
        self.paths.push(AttrPath { endpoint_id, cluster_id, attr_id });
    }
}

} // verus!
