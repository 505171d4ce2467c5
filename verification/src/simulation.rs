//! A reference device: a simulated thermostat that keeps its state in memory.

use vstd::prelude::*;

use crate::cluster::{
    AttributeId, Cluster, ClusterView, CommandId, ControlSequenceOfOperationEnum, SystemModeEnum,
    FEATURE_HEATING, THERMOSTAT_CLUSTER_ID,
};
use crate::error::Error;
use crate::handler::ThermostatHandler;
use crate::hooks;
use crate::hooks::{HookCall, HookRecord, ThermostatHooks};
use crate::model::ControlState;
use crate::pending::OutOfBandMessage;
use crate::room;
use crate::validation;

verus! {

/// A heating-only thermostat: the `HEAT` feature alone, the mandatory
/// attributes plus the optional setpoint limits, and the one mandatory command.
pub open spec fn heating_only_metadata() -> ClusterView {
    ClusterView {
        id: THERMOSTAT_CLUSTER_ID,
        revision: 11,
        feature_map: FEATURE_HEATING,
        attributes: seq![0x0000, 0x0003, 0x0004, 0x0012, 0x0015, 0x0016, 0x001B, 0x001C],
        commands: seq![0x00],
        events: Seq::empty(),
    }
}

/// The metadata of a heating-only thermostat.
pub fn heating_only_cluster() -> (cluster: Cluster)
    ensures
        cluster@ == heating_only_metadata(),
{
    let cluster = Cluster {
        id: THERMOSTAT_CLUSTER_ID,
        revision: 11,
        feature_map: FEATURE_HEATING,
        attributes: &[0x0000, 0x0003, 0x0004, 0x0012, 0x0015, 0x0016, 0x001B, 0x001C],
        commands: &[0x00],
        events: &[],
    };
    assert(cluster@ =~= heating_only_metadata());
    cluster
}

/// What the metadata of a heating-only thermostat serves.
pub(crate) proof fn lemma_heating_only_metadata()
    ensures
        forall|attribute: AttributeId| #[trigger] heating_only_metadata().serves(attribute),
        heating_only_metadata().accepts(CommandId::SetpointRaiseLower),
        validation::contains_features(heating_only_metadata().feature_map, FEATURE_HEATING),
        heating_only_metadata().feature_map & !validation::SUPPORTED_FEATURES == 0,
{
    let attributes = heating_only_metadata().attributes;
    assert(attributes[0] == 0x0000 && attributes[1] == 0x0003 && attributes[2] == 0x0004
        && attributes[3] == 0x0012 && attributes[4] == 0x0015 && attributes[5] == 0x0016
        && attributes[6] == 0x001B && attributes[7] == 0x001C);
    assert(heating_only_metadata().commands[0] == 0x00);
    assert(0x01u32 & 0x01u32 == 0x01u32 && 0x01u32 & !0x41u32 == 0u32) by (bit_vector);
}

/// A simulated heating thermostat.
///
/// A real device would persist the non-volatile attributes; this one keeps them
/// in memory, so they reset on restart.
pub struct TestThermostatDeviceLogic {
    local_temperature: i16,
    occupied_heating_setpoint: i16,
    min_heat_setpoint_limit: i16,
    max_heat_setpoint_limit: i16,
    system_mode: SystemModeEnum,
    heating: bool,
    calls: Ghost<Seq<HookRecord>>,
}

impl TestThermostatDeviceLogic {
    /// The temperature of the room.
    pub closed spec fn room_temperature(&self) -> i16 {
        self.local_temperature
    }

    /// Whether the heater calls for heat.
    pub closed spec fn is_heating(&self) -> bool {
        self.heating
    }

    /// A simulated thermostat, idle at the ambient temperature with a setpoint
    /// of 20.00 degrees.
    pub fn new() -> (device: Self)
        ensures
            device.room_temperature() == room::AMBIENT,
            !device.is_heating(),
            device.control() == (ControlState {
                setpoint: 2000,
                min_limit: Self::ABS_MIN_HEAT_SETPOINT,
                max_limit: Self::ABS_MAX_HEAT_SETPOINT,
                mode: SystemModeEnum::Off,
            }),
            device.calls() == Seq::<HookRecord>::empty(),
    {
        TestThermostatDeviceLogic {
            local_temperature: room::AMBIENT,
            occupied_heating_setpoint: 2000,
            min_heat_setpoint_limit: Self::ABS_MIN_HEAT_SETPOINT,
            max_heat_setpoint_limit: Self::ABS_MAX_HEAT_SETPOINT,
            system_mode: SystemModeEnum::Off,
            heating: false,
            calls: Ghost(Seq::empty()),
        }
    }

    /// Whether the simulated heater is currently calling for heat.
    pub fn heating(&self) -> (heating: bool)
        ensures
            heating == self.is_heating(),
    {
        self.heating
    }

    /// Advances the room by one tick; returns whether the local temperature
    /// changed.
    pub fn tick(&mut self) -> (changed: bool)
        ensures
            (*final(self)).control() == (*old(self)).control(),
            (*final(self)).calls() == (*old(self)).calls(),
            final(self).room_temperature() == room::next_temperature(
                old(self).is_heating(),
                old(self).room_temperature(),
            ),
            final(self).is_heating() == room::calls_for_heat(
                (*old(self)).control().mode,
                old(self).is_heating(),
                final(self).room_temperature(),
                (*old(self)).control().setpoint,
            ),
            changed <==> final(self).room_temperature() != old(self).room_temperature(),
    {
        let previous: i16 = self.local_temperature;
        let temperature: i16 = room::drift(self.heating, previous);
        self.local_temperature = temperature;
        self.heating = room::relay(
            self.system_mode,
            self.heating,
            temperature,
            self.occupied_heating_setpoint,
        );
        temperature != previous
    }

    /// Advances the room by one tick; returns what to tell the handler.
    pub fn tick_message(&mut self) -> (message: Option<OutOfBandMessage>)
        ensures
            (*final(self)).control() == (*old(self)).control(),
            (*final(self)).calls() == (*old(self)).calls(),
            final(self).room_temperature() == room::next_temperature(
                old(self).is_heating(),
                old(self).room_temperature(),
            ),
            final(self).is_heating() == room::calls_for_heat(
                (*old(self)).control().mode,
                old(self).is_heating(),
                final(self).room_temperature(),
                (*old(self)).control().setpoint,
            ),
            message == (if final(self).room_temperature() != old(self).room_temperature() {
                Some(OutOfBandMessage::LocalTemperature)
            } else {
                None
            }),
    {
        if self.tick() {
            Some(OutOfBandMessage::LocalTemperature)
        } else {
            None
        }
    }
}

impl Default for TestThermostatDeviceLogic {
    fn default() -> (device: Self)
        ensures
            device.room_temperature() == room::AMBIENT,
            !device.is_heating(),
            device.control() == (ControlState {
                setpoint: 2000,
                min_limit: Self::ABS_MIN_HEAT_SETPOINT,
                max_limit: Self::ABS_MAX_HEAT_SETPOINT,
                mode: SystemModeEnum::Off,
            }),
            device.calls() == Seq::<HookRecord>::empty(),
    {
        Self::new()
    }
}

impl ThermostatHooks for TestThermostatDeviceLogic {
    const ABS_MIN_HEAT_SETPOINT: i16 = 700;

    const ABS_MAX_HEAT_SETPOINT: i16 = 3000;

    const CONTROL_SEQUENCE_OF_OPERATION: ControlSequenceOfOperationEnum =
        ControlSequenceOfOperationEnum::HeatingOnly;

    open spec fn metadata() -> ClusterView {
        heating_only_metadata()
    }

    closed spec fn control(&self) -> ControlState {
        ControlState {
            setpoint: self.occupied_heating_setpoint,
            min_limit: self.min_heat_setpoint_limit,
            max_limit: self.max_heat_setpoint_limit,
            mode: self.system_mode,
        }
    }

    open spec fn temperature(&self) -> Option<i16> {
        Some(self.room_temperature())
    }

    closed spec fn calls(&self) -> Seq<HookRecord> {
        self.calls@
    }

    open spec fn carries_out(call: HookCall) -> bool {
        true
    }

    open spec fn fails_cleanly() -> bool {
        true
    }

    fn cluster() -> (cluster: Cluster) {
        heating_only_cluster()
    }

    fn local_temperature(&self) -> (temperature: Option<i16>) {
        Some(self.local_temperature)
    }

    fn occupied_heating_setpoint(&self) -> (value: i16) {
        self.occupied_heating_setpoint
    }

    fn set_occupied_heating_setpoint(&mut self, value: i16) -> (result: Result<(), Error>)
        ensures
            final(self).room_temperature() == old(self).room_temperature(),
            final(self).is_heating() == old(self).is_heating(),
    {
        self.occupied_heating_setpoint = value;
        self.calls = Ghost(
            self.calls@.push(HookRecord::of(HookCall::SetOccupiedHeatingSetpoint(value), Ok(()))),
        );
        Ok(())
    }

    fn min_heat_setpoint_limit(&self) -> (value: i16) {
        self.min_heat_setpoint_limit
    }

    fn set_min_heat_setpoint_limit(&mut self, value: i16) -> (result: Result<(), Error>)
        ensures
            final(self).room_temperature() == old(self).room_temperature(),
            final(self).is_heating() == old(self).is_heating(),
    {
        self.min_heat_setpoint_limit = value;
        self.calls = Ghost(
            self.calls@.push(HookRecord::of(HookCall::SetMinHeatSetpointLimit(value), Ok(()))),
        );
        Ok(())
    }

    fn max_heat_setpoint_limit(&self) -> (value: i16) {
        self.max_heat_setpoint_limit
    }

    fn set_max_heat_setpoint_limit(&mut self, value: i16) -> (result: Result<(), Error>)
        ensures
            final(self).room_temperature() == old(self).room_temperature(),
            final(self).is_heating() == old(self).is_heating(),
    {
        self.max_heat_setpoint_limit = value;
        self.calls = Ghost(
            self.calls@.push(HookRecord::of(HookCall::SetMaxHeatSetpointLimit(value), Ok(()))),
        );
        Ok(())
    }

    fn system_mode(&self) -> (value: SystemModeEnum) {
        self.system_mode
    }

    fn set_system_mode(&mut self, value: SystemModeEnum) -> (result: Result<(), Error>)
        ensures
            final(self).room_temperature() == old(self).room_temperature(),
            final(self).is_heating() == old(self).is_heating(),
    {
        self.system_mode = value;
        self.calls = Ghost(
            self.calls@.push(HookRecord::of(HookCall::SetSystemMode(value), Ok(()))),
        );
        Ok(())
    }

    /// Sets the relay at once rather than at the next tick, so that switching to
    /// `Heat` has a visible effect right away.
    fn apply(&mut self, system_mode: SystemModeEnum, heating_setpoint: i16)
        ensures
            final(self).room_temperature() == old(self).room_temperature(),
            final(self).is_heating() == (system_mode is Heat && old(self).room_temperature()
                < heating_setpoint),
    {
        self.heating = match system_mode {
            SystemModeEnum::Heat => self.local_temperature < heating_setpoint,
            _ => false,
        };
        self.calls = Ghost(
            self.calls@.push(
                HookRecord::of(HookCall::Apply(system_mode, heating_setpoint), Ok(())),
            ),
        );
    }
}

/// The simulated device is configured in a way that the handler can serve.
pub proof fn law_the_device_is_valid()
    ensures
        TestThermostatDeviceLogic::ABS_MIN_HEAT_SETPOINT == 700,
        TestThermostatDeviceLogic::ABS_MAX_HEAT_SETPOINT == 3000,
        TestThermostatDeviceLogic::CONTROL_SEQUENCE_OF_OPERATION is HeatingOnly,
        hooks::heating_range::<TestThermostatDeviceLogic>().has_limits,
        ThermostatHandler::<TestThermostatDeviceLogic>::configuration().is_valid(),
{
    lemma_heating_only_metadata();
}

} // verus!
