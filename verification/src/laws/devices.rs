//! What the simulated devices are for: a room that warms and cools, a relay that
//! follows it, and a state that survives a restart.

use vstd::prelude::*;

use crate::cluster::{Cluster, SystemModeEnum};
use crate::device::ThermostatDeviceLogic;
use crate::error::Error;
use crate::hooks::{HookCall, HookRecord, ThermostatHooks};
use crate::laws::requests;
use crate::model::ControlState;
use crate::pending::OutOfBandMessage;
use crate::room;
use crate::simulation::TestThermostatDeviceLogic;

verus! {

/// One tick of the room: 0.20 degrees warmer with the heating on, up to the end of
/// the scale; 0.10 degrees colder with it off, down to 16.00 degrees, and up to
/// these where the room is colder.
pub open spec fn drifts(heating: bool, temperature: i16, next: i16) -> bool {
    &&& heating && temperature <= 32747 ==> next == temperature + 20
    &&& heating && temperature > 32747 ==> next == 32767
    &&& !heating && temperature > 1610 ==> next == temperature - 10
    &&& !heating && temperature <= 1610 ==> next == 1600
}

/// Whether the heater is on. It comes on more than 0.20 degrees below the
/// setpoint, and goes off 0.20 degrees above it or at the end of the scale.
pub open spec fn follows(
    mode: SystemModeEnum,
    heating: bool,
    temperature: i16,
    setpoint: i16,
    on: bool,
) -> bool {
    &&& mode != SystemModeEnum::Heat ==> !on
    &&& mode == SystemModeEnum::Heat && temperature < setpoint - 20 ==> on
    &&& mode == SystemModeEnum::Heat && heating && temperature < setpoint + 20 && temperature
        < 32767 ==> on
    &&& temperature >= setpoint + 20 || temperature == 32767 ==> !on
    &&& !heating && temperature >= setpoint - 20 ==> !on
}

/// The room drifts as it should, at every temperature.
pub proof fn law_the_room_drifts(heating: bool, temperature: i16, next: i16)
    requires
        call_ensures(room::drift, (heating, temperature), next),
    ensures
        drifts(heating, temperature, next),
{
}

/// The relay follows the room, at every temperature and setpoint.
pub proof fn law_the_relay_follows(
    mode: SystemModeEnum,
    heating: bool,
    temperature: i16,
    setpoint: i16,
    on: bool,
)
    requires
        call_ensures(room::relay, (mode, heating, temperature, setpoint), on),
    ensures
        follows(mode, heating, temperature, setpoint, on),
{
}

/// Warmer rooms and lower setpoints call for no more heat, and a heater that is on
/// stays on wherever an idle one would come on.
pub proof fn law_the_relay_is_monotone(
    mode: SystemModeEnum,
    heating: bool,
    temperature: i16,
    setpoint: i16,
    on: bool,
    other_heating: bool,
    other_temperature: i16,
    other_setpoint: i16,
    other_on: bool,
)
    requires
        call_ensures(room::relay, (mode, heating, temperature, setpoint), on),
        call_ensures(
            room::relay,
            (mode, other_heating, other_temperature, other_setpoint),
            other_on,
        ),
        heating ==> other_heating,
        other_temperature <= temperature,
        setpoint <= other_setpoint,
    ensures
        on ==> other_on,
{
}

/// What a tick does to a device.
pub open spec fn ticked(
    mode: SystemModeEnum,
    setpoint: i16,
    heating: bool,
    temperature: i16,
    new_heating: bool,
    new_temperature: i16,
) -> bool {
    &&& drifts(heating, temperature, new_temperature)
    &&& follows(mode, heating, new_temperature, setpoint, new_heating)
}

/// A tick of the device that keeps its state in memory.
pub proof fn law_a_tick_in_memory(
    device: &mut TestThermostatDeviceLogic,
    changed: bool,
    message: Option<OutOfBandMessage>,
)
    requires
        call_ensures(TestThermostatDeviceLogic::tick, (device,), changed) && message == (if changed {
            Some(OutOfBandMessage::LocalTemperature)
        } else {
            None
        }) || call_ensures(TestThermostatDeviceLogic::tick_message, (device,), message) && changed
            == (message is Some),
    ensures
        ticked(
            (*old(device)).control().mode,
            (*old(device)).control().setpoint,
            old(device).is_heating(),
            old(device).room_temperature(),
            final(device).is_heating(),
            final(device).room_temperature(),
        ),
        changed <==> final(device).room_temperature() != old(device).room_temperature(),
        changed ==> message == Some(OutOfBandMessage::LocalTemperature),
        !changed ==> message is None,
        (*final(device)).control() == (*old(device)).control(),
        (*final(device)).calls() == (*old(device)).calls(),
{
}

/// A tick of the device that can save its state.
pub proof fn law_a_tick(
    device: &mut ThermostatDeviceLogic,
    changed: bool,
    message: Option<OutOfBandMessage>,
)
    requires
        call_ensures(ThermostatDeviceLogic::tick, (device,), changed) && message == (if changed {
            Some(OutOfBandMessage::LocalTemperature)
        } else {
            None
        }) || call_ensures(ThermostatDeviceLogic::tick_message, (device,), message) && changed == (
        message is Some),
    ensures
        ticked(
            (*old(device)).control().mode,
            (*old(device)).control().setpoint,
            old(device).is_heating(),
            old(device).room_temperature(),
            final(device).is_heating(),
            final(device).room_temperature(),
        ),
        changed <==> final(device).room_temperature() != old(device).room_temperature(),
        changed ==> message == Some(OutOfBandMessage::LocalTemperature),
        !changed ==> message is None,
        (*final(device)).control() == (*old(device)).control(),
        (*final(device)).calls() == (*old(device)).calls(),
{
}

/// Applying a state takes effect at once: in memory the heater is on exactly when
/// the mode is `Heat` and the room is colder than the setpoint.
pub proof fn law_applying_in_memory(
    device: &mut TestThermostatDeviceLogic,
    mode: SystemModeEnum,
    setpoint: i16,
)
    requires
        call_ensures(
            <TestThermostatDeviceLogic as ThermostatHooks>::apply,
            (device, mode, setpoint),
            (),
        ),
    ensures
        final(device).is_heating() <==> mode == SystemModeEnum::Heat && old(
            device,
        ).room_temperature() < setpoint,
        final(device).room_temperature() == old(device).room_temperature(),
        (*final(device)).control() == (*old(device)).control(),
        (*final(device)).calls() == (*old(device)).calls().push(
            requests::made(HookCall::Apply(mode, setpoint)),
        ),
{
}

/// Applying a state takes effect at once: the relay follows the stored state, as it
/// does when it is evaluated by itself.
pub proof fn law_applying(
    device: &mut ThermostatDeviceLogic,
    mode: SystemModeEnum,
    setpoint: i16,
    applied: bool,
)
    requires
        applied ==> call_ensures(
            <ThermostatDeviceLogic as ThermostatHooks>::apply,
            (device, mode, setpoint),
            (),
        ),
        !applied ==> call_ensures(ThermostatDeviceLogic::update_relay, (device,), ()),
    ensures
        follows(
            (*old(device)).control().mode,
            old(device).is_heating(),
            old(device).room_temperature(),
            (*old(device)).control().setpoint,
            final(device).is_heating(),
        ),
        final(device).room_temperature() == old(device).room_temperature(),
        (*final(device)).control() == (*old(device)).control(),
        (*final(device)).calls() == if applied {
            (*old(device)).calls().push(requests::made(HookCall::Apply(mode, setpoint)))
        } else {
            (*old(device)).calls()
        },
{
}

/// A device as it leaves the factory.
pub open spec fn is_factory_new(
    control: ControlState,
    temperature: i16,
    heating: bool,
    calls: Seq<HookRecord>,
) -> bool {
    &&& control.setpoint == 2000
    &&& control.min_limit == 700
    &&& control.max_limit == 3000
    &&& control.mode == SystemModeEnum::Off
    &&& temperature == 1600
    &&& !heating
    &&& calls.len() == 0
}

/// A new device is idle at 16.00 degrees, with a setpoint of 20.00 degrees.
pub proof fn law_a_new_device(
    in_memory: TestThermostatDeviceLogic,
    default: TestThermostatDeviceLogic,
    saving: ThermostatDeviceLogic,
)
    requires
        call_ensures(TestThermostatDeviceLogic::new, (), in_memory),
        call_ensures(<TestThermostatDeviceLogic as Default>::default, (), default),
        call_ensures(ThermostatDeviceLogic::new, (None,), saving),
    ensures
        is_factory_new(
            in_memory.control(),
            in_memory.room_temperature(),
            in_memory.is_heating(),
            in_memory.calls(),
        ),
        is_factory_new(
            default.control(),
            default.room_temperature(),
            default.is_heating(),
            default.calls(),
        ),
        is_factory_new(
            saving.control(),
            saving.room_temperature(),
            saving.is_heating(),
            saving.calls(),
        ),
{
    crate::simulation::law_the_device_is_valid();
    crate::device::law_the_device_is_valid();
}

/// A setter of the device in memory stores its value and touches nothing else.
pub proof fn law_a_setter_in_memory(
    device: &mut TestThermostatDeviceLogic,
    call: HookCall,
    result: Result<(), Error>,
)
    requires
        match call {
            HookCall::SetOccupiedHeatingSetpoint(value) => call_ensures(
                <TestThermostatDeviceLogic as ThermostatHooks>::set_occupied_heating_setpoint,
                (device, value),
                result,
            ),
            HookCall::SetMinHeatSetpointLimit(value) => call_ensures(
                <TestThermostatDeviceLogic as ThermostatHooks>::set_min_heat_setpoint_limit,
                (device, value),
                result,
            ),
            HookCall::SetMaxHeatSetpointLimit(value) => call_ensures(
                <TestThermostatDeviceLogic as ThermostatHooks>::set_max_heat_setpoint_limit,
                (device, value),
                result,
            ),
            HookCall::SetSystemMode(mode) => call_ensures(
                <TestThermostatDeviceLogic as ThermostatHooks>::set_system_mode,
                (device, mode),
                result,
            ),
            HookCall::Apply(_, _) => false,
        },
    ensures
        result is Ok,
        stores((*old(device)).control(), (*final(device)).control(), call),
        final(device).room_temperature() == old(device).room_temperature(),
        final(device).is_heating() == old(device).is_heating(),
        (*final(device)).calls() == (*old(device)).calls().push(requests::made(call)),
{
}

/// A setter of the device that can save its state stores its value and touches
/// nothing else.
pub proof fn law_a_setter(
    device: &mut ThermostatDeviceLogic,
    call: HookCall,
    result: Result<(), Error>,
)
    requires
        match call {
            HookCall::SetOccupiedHeatingSetpoint(value) => call_ensures(
                <ThermostatDeviceLogic as ThermostatHooks>::set_occupied_heating_setpoint,
                (device, value),
                result,
            ),
            HookCall::SetMinHeatSetpointLimit(value) => call_ensures(
                <ThermostatDeviceLogic as ThermostatHooks>::set_min_heat_setpoint_limit,
                (device, value),
                result,
            ),
            HookCall::SetMaxHeatSetpointLimit(value) => call_ensures(
                <ThermostatDeviceLogic as ThermostatHooks>::set_max_heat_setpoint_limit,
                (device, value),
                result,
            ),
            HookCall::SetSystemMode(mode) => call_ensures(
                <ThermostatDeviceLogic as ThermostatHooks>::set_system_mode,
                (device, mode),
                result,
            ),
            HookCall::Apply(_, _) => false,
        },
    ensures
        result is Ok,
        stores((*old(device)).control(), (*final(device)).control(), call),
        final(device).room_temperature() == old(device).room_temperature(),
        final(device).is_heating() == old(device).is_heating(),
        (*final(device)).calls() == (*old(device)).calls().push(requests::made(call)),
{
}

/// The device in memory tells what it holds, and always has a temperature.
pub proof fn law_what_the_device_in_memory_tells(
    device: &TestThermostatDeviceLogic,
    temperature: Option<i16>,
    setpoint: i16,
    min_limit: i16,
    max_limit: i16,
    mode: SystemModeEnum,
    heating: bool,
    cluster: Cluster,
)
    requires
        call_ensures(
            <TestThermostatDeviceLogic as ThermostatHooks>::local_temperature,
            (device,),
            temperature,
        ),
        call_ensures(
            <TestThermostatDeviceLogic as ThermostatHooks>::occupied_heating_setpoint,
            (device,),
            setpoint,
        ),
        call_ensures(
            <TestThermostatDeviceLogic as ThermostatHooks>::min_heat_setpoint_limit,
            (device,),
            min_limit,
        ),
        call_ensures(
            <TestThermostatDeviceLogic as ThermostatHooks>::max_heat_setpoint_limit,
            (device,),
            max_limit,
        ),
        call_ensures(<TestThermostatDeviceLogic as ThermostatHooks>::system_mode, (device,), mode),
        call_ensures(TestThermostatDeviceLogic::heating, (device,), heating),
        call_ensures(<TestThermostatDeviceLogic as ThermostatHooks>::cluster, (), cluster),
    ensures
        temperature == Some(device.room_temperature()),
        setpoint == device.control().setpoint,
        min_limit == device.control().min_limit,
        max_limit == device.control().max_limit,
        mode == device.control().mode,
        heating == device.is_heating(),
        cluster.id == 0x0201,
        cluster.revision == 11,
        cluster.feature_map == 0x01,
        cluster.attributes@ == seq![
            0x0000u32,
            0x0003,
            0x0004,
            0x0012,
            0x0015,
            0x0016,
            0x001B,
            0x001C,
        ],
        cluster.commands@ == seq![0x00u32],
        cluster.events@.len() == 0,
{
}

/// The device that can save its state tells what it holds, and always has a
/// temperature.
pub proof fn law_what_the_device_tells(
    device: &ThermostatDeviceLogic,
    temperature: Option<i16>,
    setpoint: i16,
    min_limit: i16,
    max_limit: i16,
    mode: SystemModeEnum,
    heating: bool,
    cluster: Cluster,
)
    requires
        call_ensures(
            <ThermostatDeviceLogic as ThermostatHooks>::local_temperature,
            (device,),
            temperature,
        ),
        call_ensures(
            <ThermostatDeviceLogic as ThermostatHooks>::occupied_heating_setpoint,
            (device,),
            setpoint,
        ),
        call_ensures(
            <ThermostatDeviceLogic as ThermostatHooks>::min_heat_setpoint_limit,
            (device,),
            min_limit,
        ),
        call_ensures(
            <ThermostatDeviceLogic as ThermostatHooks>::max_heat_setpoint_limit,
            (device,),
            max_limit,
        ),
        call_ensures(<ThermostatDeviceLogic as ThermostatHooks>::system_mode, (device,), mode),
        call_ensures(ThermostatDeviceLogic::heating, (device,), heating),
        call_ensures(<ThermostatDeviceLogic as ThermostatHooks>::cluster, (), cluster),
    ensures
        temperature == Some(device.room_temperature()),
        setpoint == device.control().setpoint,
        min_limit == device.control().min_limit,
        max_limit == device.control().max_limit,
        mode == device.control().mode,
        heating == device.is_heating(),
        cluster.id == 0x0201,
        cluster.revision == 11,
        cluster.feature_map == 0x01,
        cluster.attributes@ == seq![
            0x0000u32,
            0x0003,
            0x0004,
            0x0012,
            0x0015,
            0x0016,
            0x001B,
            0x001C,
        ],
        cluster.commands@ == seq![0x00u32],
        cluster.events@.len() == 0,
{
}

/// The new state holds the value of the call, and else what the old one held.
pub open spec fn stores(old_state: ControlState, new_state: ControlState, call: HookCall) -> bool {
    &&& new_state.setpoint == match call {
        HookCall::SetOccupiedHeatingSetpoint(value) => value,
        _ => old_state.setpoint,
    }
    &&& new_state.min_limit == match call {
        HookCall::SetMinHeatSetpointLimit(value) => value,
        _ => old_state.min_limit,
    }
    &&& new_state.max_limit == match call {
        HookCall::SetMaxHeatSetpointLimit(value) => value,
        _ => old_state.max_limit,
    }
    &&& new_state.mode == match call {
        HookCall::SetSystemMode(mode) => mode,
        _ => old_state.mode,
    }
}

/// Two bytes stand for a number in two's complement, the low byte first.
pub open spec fn stands_for(low: u8, high: u8, value: i16) -> bool {
    low + 256 * high == value || low + 256 * high == value + 65536
}

/// The bytes hold the state, field by field.
pub open spec fn hold(bytes: Seq<u8>, control: ControlState, temperature: i16) -> bool {
    &&& stands_for(bytes[1], bytes[2], control.setpoint)
    &&& stands_for(bytes[3], bytes[4], control.min_limit)
    &&& stands_for(bytes[5], bytes[6], control.max_limit)
    &&& stands_for(bytes[7], bytes[8], temperature)
}

/// Saved bytes that can be used: at least nine, the first of which is the number
/// of a mode that a heating-only thermostat has.
pub open spec fn usable(bytes: Seq<u8>) -> bool {
    bytes.len() >= 9 && (bytes[0] == 0 || bytes[0] == 4)
}

/// A device in the state that the bytes hold.
pub open spec fn is_restored(bytes: Seq<u8>, control: ControlState, temperature: i16) -> bool {
    &&& hold(bytes, control, temperature)
    &&& bytes[0] == 0 ==> control.mode == SystemModeEnum::Off
    &&& bytes[0] == 4 ==> control.mode == SystemModeEnum::Heat
}

/// What is saved is nine bytes that hold the state.
pub proof fn law_the_saved_bytes(device: &ThermostatDeviceLogic, saved: Vec<u8>, code: u8)
    requires
        call_ensures(ThermostatDeviceLogic::save_state, (device,), saved),
        call_ensures(SystemModeEnum::code, (device.control().mode,), code),
    ensures
        saved@.len() == 9,
        saved@[0] == code,
        hold(saved@, device.control(), device.room_temperature()),
{
}

/// What is loaded is what the bytes hold, if they can be used at all; else the
/// device stays as it was.
pub proof fn law_the_loaded_bytes(device: &mut ThermostatDeviceLogic, saved: &[u8], loaded: bool)
    requires
        call_ensures(ThermostatDeviceLogic::load_state, (device, saved), loaded),
    ensures
        loaded <==> usable(saved@),
        loaded ==> is_restored(
            saved@,
            (*final(device)).control(),
            final(device).room_temperature(),
        ),
        !loaded ==> (*final(device)).control() == (*old(device)).control()
            && final(device).room_temperature() == old(device).room_temperature(),
        final(device).is_heating() == old(device).is_heating(),
        (*final(device)).calls() == (*old(device)).calls(),
{
}

/// A device that is made from saved bytes is in the state that they hold, or, if
/// they cannot be used, like new.
pub proof fn law_a_device_from_saved_bytes(saved: &[u8], device: ThermostatDeviceLogic)
    requires
        call_ensures(ThermostatDeviceLogic::new, (Some(saved),), device),
    ensures
        !device.is_heating(),
        device.calls().len() == 0,
        usable(saved@) ==> is_restored(saved@, device.control(), device.room_temperature()),
        !usable(saved@) ==> is_factory_new(
            device.control(),
            device.room_temperature(),
            device.is_heating(),
            device.calls(),
        ),
{
    crate::device::law_the_device_is_valid();
}

/// Two bytes stand for one number only.
proof fn lemma_one_number(low: u8, high: u8, value: i16, other: i16)
    requires
        stands_for(low, high, value),
        stands_for(low, high, other),
    ensures
        value == other,
{
}

/// What one device saved, another loads: every value comes back.
pub proof fn law_a_restart_changes_nothing(
    device: &ThermostatDeviceLogic,
    saved: Vec<u8>,
    bytes: &[u8],
    restarted: ThermostatDeviceLogic,
)
    requires
        call_ensures(ThermostatDeviceLogic::save_state, (device,), saved),
        call_ensures(ThermostatDeviceLogic::new, (Some(bytes),), restarted),
        bytes@ == saved@,
        device.control().mode == SystemModeEnum::Off || device.control().mode
            == SystemModeEnum::Heat,
    ensures
        restarted.control() == device.control(),
        restarted.room_temperature() == device.room_temperature(),
{
    let old = device.control();
    let new = restarted.control();
    assert(hold(saved@, old, device.room_temperature()));
    assert(usable(bytes@));
    assert(is_restored(bytes@, new, restarted.room_temperature()));
    lemma_one_number(saved@[1], saved@[2], old.setpoint, new.setpoint);
    lemma_one_number(saved@[3], saved@[4], old.min_limit, new.min_limit);
    lemma_one_number(saved@[5], saved@[6], old.max_limit, new.max_limit);
    lemma_one_number(
        saved@[7],
        saved@[8],
        device.room_temperature(),
        restarted.room_temperature(),
    );
}

} // verus!
