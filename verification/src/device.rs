//! A simulated thermostat whose non-volatile attributes survive a restart as a
//! short string of bytes.

use vstd::prelude::*;

use crate::cluster::{Cluster, ClusterView, ControlSequenceOfOperationEnum, SystemModeEnum};
use crate::error::Error;
use crate::handler::ThermostatHandler;
use crate::hooks;
use crate::hooks::{HookCall, HookRecord, ThermostatHooks};
use crate::model::ControlState;
use crate::pending::OutOfBandMessage;
use crate::room;
use crate::simulation;

verus! {

/// What is kept between two runs of the device.
pub struct Snapshot {
    pub control: ControlState,
    pub temperature: i16,
}

/// The two bytes of a number in two's complement, the low byte first.
pub open spec fn little_endian(value: i16) -> Seq<u8> {
    let bits = if value < 0 {
        value + 0x1_0000
    } else {
        value as int
    };
    seq![(bits % 0x100) as u8, (bits / 0x100) as u8]
}

/// The number that two bytes stand for, the low byte first.
pub open spec fn from_little_endian(low: u8, high: u8) -> i16 {
    let bits = low + 0x100 * high;
    if bits < 0x8000 {
        bits as i16
    } else {
        (bits - 0x1_0000) as i16
    }
}

/// How many bytes are kept.
pub const STATE_LENGTH: usize = 9;

/// The bytes that are kept: the mode, the setpoint, the lower and the upper
/// limit, the local temperature.
pub open spec fn encode(snapshot: Snapshot) -> Seq<u8> {
    seq![snapshot.control.mode.number()] + little_endian(snapshot.control.setpoint)
        + little_endian(snapshot.control.min_limit) + little_endian(snapshot.control.max_limit)
        + little_endian(snapshot.temperature)
}

/// The mode that a byte stands for, if it is one that a heating-only thermostat
/// can be in.
pub open spec fn decode_mode(code: u8) -> Option<SystemModeEnum> {
    if code == SystemModeEnum::Off.number() {
        Some(SystemModeEnum::Off)
    } else if code == SystemModeEnum::Heat.number() {
        Some(SystemModeEnum::Heat)
    } else {
        None
    }
}

/// What the first bytes stand for, if there are enough of them and the mode is
/// usable.
pub open spec fn decode(bytes: Seq<u8>) -> Option<Snapshot> {
    if bytes.len() < STATE_LENGTH {
        None
    } else {
        match decode_mode(bytes[0]) {
            Some(mode) => Some(
                Snapshot {
                    control: ControlState {
                        setpoint: from_little_endian(bytes[1], bytes[2]),
                        min_limit: from_little_endian(bytes[3], bytes[4]),
                        max_limit: from_little_endian(bytes[5], bytes[6]),
                        mode,
                    },
                    temperature: from_little_endian(bytes[7], bytes[8]),
                },
            ),
            None => None,
        }
    }
}

/// Appends the two bytes of `value`, the low byte first.
fn push_little_endian(bytes: &mut Vec<u8>, value: i16)
    ensures
        final(bytes)@ == old(bytes)@ + little_endian(value),
{
    let bits: u32 = if value < 0 {
        (value as i32 + 0x1_0000) as u32
    } else {
        value as u32
    };
    bytes.push((bits % 0x100) as u8);
    bytes.push((bits / 0x100) as u8);
    assert(bytes@ =~= old(bytes)@ + little_endian(value));
}

/// The number that two bytes stand for, the low byte first.
fn read_little_endian(low: u8, high: u8) -> (value: i16)
    ensures
        value == from_little_endian(low, high),
{
    let bits: i32 = low as i32 + 0x100 * (high as i32);
    if bits < 0x8000 {
        bits as i16
    } else {
        (bits - 0x1_0000) as i16
    }
}

/// A simulated heating thermostat whose state can be saved and loaded.
pub struct ThermostatDeviceLogic {
    local_temperature: i16,
    occupied_heating_setpoint: i16,
    min_heat_setpoint_limit: i16,
    max_heat_setpoint_limit: i16,
    system_mode: SystemModeEnum,
    heating: bool,
    calls: Ghost<Seq<HookRecord>>,
}

impl ThermostatDeviceLogic {
    /// The temperature of the room.
    pub closed spec fn room_temperature(&self) -> i16 {
        self.local_temperature
    }

    /// Whether the heater calls for heat.
    pub closed spec fn is_heating(&self) -> bool {
        self.heating
    }

    /// What is kept between two runs.
    pub open spec fn snapshot(&self) -> Snapshot {
        Snapshot { control: self.control(), temperature: self.room_temperature() }
    }

    /// A simulated thermostat, idle at the ambient temperature with a setpoint
    /// of 20.00 degrees, or in the saved state if the saved bytes are usable.
    pub fn new(saved: Option<&[u8]>) -> (device: Self)
        ensures
            !device.is_heating(),
            device.calls() == Seq::<HookRecord>::empty(),
            device.snapshot() == match saved {
                Some(bytes) if decode(bytes@) is Some => decode(bytes@)->0,
                _ => Snapshot {
                    control: ControlState {
                        setpoint: 2000,
                        min_limit: Self::ABS_MIN_HEAT_SETPOINT,
                        max_limit: Self::ABS_MAX_HEAT_SETPOINT,
                        mode: SystemModeEnum::Off,
                    },
                    temperature: room::AMBIENT,
                },
            },
    {
        let mut device = ThermostatDeviceLogic {
            local_temperature: room::AMBIENT,
            occupied_heating_setpoint: 2000,
            min_heat_setpoint_limit: Self::ABS_MIN_HEAT_SETPOINT,
            max_heat_setpoint_limit: Self::ABS_MAX_HEAT_SETPOINT,
            system_mode: SystemModeEnum::Off,
            heating: false,
            calls: Ghost(Seq::empty()),
        };
        if let Some(bytes) = saved {
            device.load_state(bytes);
        }
        device
    }

    /// Takes over a saved state; returns whether it was usable.
    pub fn load_state(&mut self, saved: &[u8]) -> (loaded: bool)
        ensures
            final(self).is_heating() == old(self).is_heating(),
            (*final(self)).calls() == (*old(self)).calls(),
            match decode(saved@) {
                Some(snapshot) => loaded && final(self).snapshot() == snapshot,
                None => !loaded && final(self).snapshot() == old(self).snapshot(),
            },
    {
        if saved.len() < STATE_LENGTH {
            return false;
        }
        let mode = if saved[0] == SystemModeEnum::Off.code() {
            SystemModeEnum::Off
        } else if saved[0] == SystemModeEnum::Heat.code() {
            SystemModeEnum::Heat
        } else {
            return false;
        };
        self.system_mode = mode;
        self.occupied_heating_setpoint = read_little_endian(saved[1], saved[2]);
        self.min_heat_setpoint_limit = read_little_endian(saved[3], saved[4]);
        self.max_heat_setpoint_limit = read_little_endian(saved[5], saved[6]);
        self.local_temperature = read_little_endian(saved[7], saved[8]);
        true
    }

    /// The bytes to keep until the next run.
    pub fn save_state(&self) -> (saved: Vec<u8>)
        ensures
            saved@ == encode(self.snapshot()),
    {
        let mut saved: Vec<u8> = Vec::new();
        saved.push(self.system_mode.code());
        push_little_endian(&mut saved, self.occupied_heating_setpoint);
        push_little_endian(&mut saved, self.min_heat_setpoint_limit);
        push_little_endian(&mut saved, self.max_heat_setpoint_limit);
        push_little_endian(&mut saved, self.local_temperature);
        assert(saved@ =~= encode(self.snapshot()));
        saved
    }

    /// Whether the simulated heater is currently calling for heat.
    pub fn heating(&self) -> (heating: bool)
        ensures
            heating == self.is_heating(),
    {
        self.heating
    }

    /// Evaluates the heat demand again.
    pub fn update_relay(&mut self)
        ensures
            final(self).snapshot() == old(self).snapshot(),
            (*final(self)).calls() == (*old(self)).calls(),
            final(self).is_heating() == room::calls_for_heat(
                (*old(self)).control().mode,
                old(self).is_heating(),
                old(self).room_temperature(),
                (*old(self)).control().setpoint,
            ),
    {
        self.heating = room::relay(
            self.system_mode,
            self.heating,
            self.local_temperature,
            self.occupied_heating_setpoint,
        );
    }

    /// Advances the room by one tick; returns whether the local temperature
    /// changed.
    pub fn tick(&mut self) -> (changed: bool)
        ensures
            (*final(self)).control() == (*old(self)).control(),
            (*final(self)).calls() == (*old(self)).calls(),
            final(self).room_temperature() == room::next_temperature(
                old(self).is_heating(),
                old(self).room_temperature(),
            ),
            final(self).is_heating() == room::calls_for_heat(
                (*old(self)).control().mode,
                old(self).is_heating(),
                final(self).room_temperature(),
                (*old(self)).control().setpoint,
            ),
            changed <==> final(self).room_temperature() != old(self).room_temperature(),
    {
        let previous: i16 = self.local_temperature;
        let temperature: i16 = room::drift(self.heating, previous);
        self.local_temperature = temperature;
        self.update_relay();
        temperature != previous
    }

    /// Advances the room by one tick; returns what to tell the handler, and
    /// with it that there is something new to save.
    pub fn tick_message(&mut self) -> (message: Option<OutOfBandMessage>)
        ensures
            (*final(self)).control() == (*old(self)).control(),
            (*final(self)).calls() == (*old(self)).calls(),
            final(self).room_temperature() == room::next_temperature(
                old(self).is_heating(),
                old(self).room_temperature(),
            ),
            final(self).is_heating() == room::calls_for_heat(
                (*old(self)).control().mode,
                old(self).is_heating(),
                final(self).room_temperature(),
                (*old(self)).control().setpoint,
            ),
            message == (if final(self).room_temperature() != old(self).room_temperature() {
                Some(OutOfBandMessage::LocalTemperature)
            } else {
                None
            }),
    {
        if self.tick() {
            Some(OutOfBandMessage::LocalTemperature)
        } else {
            None
        }
    }
}

impl ThermostatHooks for ThermostatDeviceLogic {
    const ABS_MIN_HEAT_SETPOINT: i16 = 700;

    const ABS_MAX_HEAT_SETPOINT: i16 = 3000;

    const CONTROL_SEQUENCE_OF_OPERATION: ControlSequenceOfOperationEnum =
        ControlSequenceOfOperationEnum::HeatingOnly;

    open spec fn metadata() -> ClusterView {
        simulation::heating_only_metadata()
    }

    closed spec fn control(&self) -> ControlState {
        ControlState {
            setpoint: self.occupied_heating_setpoint,
            min_limit: self.min_heat_setpoint_limit,
            max_limit: self.max_heat_setpoint_limit,
            mode: self.system_mode,
        }
    }

    open spec fn temperature(&self) -> Option<i16> {
        Some(self.room_temperature())
    }

    closed spec fn calls(&self) -> Seq<HookRecord> {
        self.calls@
    }

    open spec fn carries_out(call: HookCall) -> bool {
        true
    }

    open spec fn fails_cleanly() -> bool {
        true
    }

    fn cluster() -> (cluster: Cluster) {
        simulation::heating_only_cluster()
    }

    fn local_temperature(&self) -> (temperature: Option<i16>) {
        Some(self.local_temperature)
    }

    fn occupied_heating_setpoint(&self) -> (value: i16) {
        self.occupied_heating_setpoint
    }

    fn set_occupied_heating_setpoint(&mut self, value: i16) -> (result: Result<(), Error>)
        ensures
            final(self).room_temperature() == old(self).room_temperature(),
            final(self).is_heating() == old(self).is_heating(),
    {
        self.occupied_heating_setpoint = value;
        self.calls = Ghost(
            self.calls@.push(HookRecord::of(HookCall::SetOccupiedHeatingSetpoint(value), Ok(()))),
        );
        Ok(())
    }

    fn min_heat_setpoint_limit(&self) -> (value: i16) {
        self.min_heat_setpoint_limit
    }

    fn set_min_heat_setpoint_limit(&mut self, value: i16) -> (result: Result<(), Error>)
        ensures
            final(self).room_temperature() == old(self).room_temperature(),
            final(self).is_heating() == old(self).is_heating(),
    {
        self.min_heat_setpoint_limit = value;
        self.calls = Ghost(
            self.calls@.push(HookRecord::of(HookCall::SetMinHeatSetpointLimit(value), Ok(()))),
        );
        Ok(())
    }

    fn max_heat_setpoint_limit(&self) -> (value: i16) {
        self.max_heat_setpoint_limit
    }

    fn set_max_heat_setpoint_limit(&mut self, value: i16) -> (result: Result<(), Error>)
        ensures
            final(self).room_temperature() == old(self).room_temperature(),
            final(self).is_heating() == old(self).is_heating(),
    {
        self.max_heat_setpoint_limit = value;
        self.calls = Ghost(
            self.calls@.push(HookRecord::of(HookCall::SetMaxHeatSetpointLimit(value), Ok(()))),
        );
        Ok(())
    }

    fn system_mode(&self) -> (value: SystemModeEnum) {
        self.system_mode
    }

    fn set_system_mode(&mut self, value: SystemModeEnum) -> (result: Result<(), Error>)
        ensures
            final(self).room_temperature() == old(self).room_temperature(),
            final(self).is_heating() == old(self).is_heating(),
    {
        self.system_mode = value;
        self.calls = Ghost(
            self.calls@.push(HookRecord::of(HookCall::SetSystemMode(value), Ok(()))),
        );
        Ok(())
    }

    /// Evaluates the relay at once rather than at the next tick, so that
    /// switching to `Heat` has a visible effect right away.
    fn apply(&mut self, system_mode: SystemModeEnum, heating_setpoint: i16)
        ensures
            final(self).room_temperature() == old(self).room_temperature(),
            final(self).is_heating() == room::calls_for_heat(
                (*old(self)).control().mode,
                old(self).is_heating(),
                old(self).room_temperature(),
                (*old(self)).control().setpoint,
            ),
    {
        self.update_relay();
        self.calls = Ghost(
            self.calls@.push(
                HookRecord::of(HookCall::Apply(system_mode, heating_setpoint), Ok(())),
            ),
        );
    }
}

/// The device is configured in a way that the handler can serve.
pub proof fn law_the_device_is_valid()
    ensures
        ThermostatDeviceLogic::ABS_MIN_HEAT_SETPOINT == 700,
        ThermostatDeviceLogic::ABS_MAX_HEAT_SETPOINT == 3000,
        ThermostatDeviceLogic::CONTROL_SEQUENCE_OF_OPERATION is HeatingOnly,
        hooks::heating_range::<ThermostatDeviceLogic>().has_limits,
        ThermostatHandler::<ThermostatDeviceLogic>::configuration().is_valid(),
{
    simulation::lemma_heating_only_metadata();
}

} // verus!
