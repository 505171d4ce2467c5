//! What holds of the thermostat as a whole, on concrete values.

use thermostat::cluster::{SetpointRaiseLowerModeEnum, SystemModeEnum};
use thermostat::error::{Error, ErrorCode};
use thermostat::handler::{Dataver, LifecycleOp, ThermostatHandler};
use thermostat::hooks::{AttrChanges, ThermostatHooks};
use thermostat::pending::OutOfBandMessage;
use thermostat::simulation::TestThermostatDeviceLogic;

type Handler = ThermostatHandler<TestThermostatDeviceLogic>;

fn handler() -> Handler {
    ThermostatHandler::new(Dataver::new(1), 1, TestThermostatDeviceLogic::new())
}

fn in_chain(handler: &Handler) -> bool {
    let min = handler.hooks.min_heat_setpoint_limit();
    let max = handler.hooks.max_heat_setpoint_limit();
    let setpoint = handler.hooks.occupied_heating_setpoint();
    700 <= min && min <= setpoint && setpoint <= max && max <= 3000
}

#[test]
fn no_series_of_requests_breaks_the_chain() {
    let mut handler = handler();
    let mut changes = AttrChanges::new();

    for value in [650, 700, 1400, 1999, 2000, 2600, 3000, 3001, -5, i16::MAX, i16::MIN] {
        let _ = handler.set_min_heat_setpoint_limit(&mut changes, value);
        assert!(in_chain(&handler));
        let _ = handler.set_occupied_heating_setpoint(&mut changes, value);
        assert!(in_chain(&handler));
        let _ = handler.set_max_heat_setpoint_limit(&mut changes, value / 2 + 1200);
        assert!(in_chain(&handler));
        let amount = (value % 128) as i8;
        let _ = handler.raise_lower_setpoint(&mut changes, SetpointRaiseLowerModeEnum::Both, amount);
        assert!(in_chain(&handler));
    }
}

#[test]
fn every_stored_state_is_repaired() {
    for min in [i16::MIN, 0, 700, 2500, 3000, 3001, i16::MAX] {
        for max in [i16::MIN, 0, 700, 2500, 3000, 3001, i16::MAX] {
            for setpoint in [i16::MIN, 699, 2000, 3001, i16::MAX] {
                let mut handler = handler();
                handler.hooks.set_min_heat_setpoint_limit(min).unwrap();
                handler.hooks.set_max_heat_setpoint_limit(max).unwrap();
                handler.hooks.set_occupied_heating_setpoint(setpoint).unwrap();
                handler.hooks.set_system_mode(SystemModeEnum::Sleep).unwrap();

                handler.lifecycle(LifecycleOp::Startup).unwrap();
                assert!(in_chain(&handler));
                assert_eq!(handler.hooks.system_mode(), SystemModeEnum::Off);

                // What is reported now would be accepted as a write.
                let changes = &mut AttrChanges::new();
                let min = handler.min_heat_setpoint_limit().unwrap();
                let max = handler.max_heat_setpoint_limit().unwrap();
                let setpoint = handler.occupied_heating_setpoint().unwrap();
                handler.set_min_heat_setpoint_limit(changes, min).unwrap();
                handler.set_max_heat_setpoint_limit(changes, max).unwrap();
                handler.set_occupied_heating_setpoint(changes, setpoint).unwrap();
                assert_eq!(handler.occupied_heating_setpoint(), Ok(setpoint));
            }
        }
    }
}

#[test]
fn a_repair_keeps_near_what_was_stored() {
    let mut handler = handler();
    handler.hooks.set_min_heat_setpoint_limit(1500).unwrap();
    handler.hooks.set_max_heat_setpoint_limit(1000).unwrap();
    handler.hooks.set_occupied_heating_setpoint(1600).unwrap();

    handler.repair().unwrap();
    assert_eq!(handler.hooks.min_heat_setpoint_limit(), 1500);
    assert_eq!(handler.hooks.max_heat_setpoint_limit(), 1500);
    assert_eq!(handler.hooks.occupied_heating_setpoint(), 1500);
}

#[test]
fn a_write_rejects_what_the_command_clamps() {
    let mut handler = handler();
    let mut changes = AttrChanges::new();
    handler.set_max_heat_setpoint_limit(&mut changes, 2050).unwrap();

    assert_eq!(
        handler.set_occupied_heating_setpoint(&mut changes, 2100),
        Err(Error::new(ErrorCode::ConstraintError))
    );
    assert_eq!(handler.occupied_heating_setpoint(), Ok(2000));

    handler
        .raise_lower_setpoint(&mut changes, SetpointRaiseLowerModeEnum::Heat, 10)
        .unwrap();
    assert_eq!(handler.occupied_heating_setpoint(), Ok(2050));
}

#[test]
fn a_borrowed_device_is_written_through() {
    let mut device = TestThermostatDeviceLogic::new();
    let mut changes = AttrChanges::new();

    let mut handler = ThermostatHandler::new(Dataver::new(1), 1, &mut device);
    handler.set_system_mode(&mut changes, SystemModeEnum::Heat).unwrap();
    handler.set_min_heat_setpoint_limit(&mut changes, 2300).unwrap();
    handler.set_max_heat_setpoint_limit(&mut changes, 2300).unwrap();
    assert_eq!(handler.local_temperature(), Ok(Some(1600)));
    assert_eq!(handler.abs_min_heat_setpoint_limit(), Ok(700));

    assert_eq!(device.system_mode(), SystemModeEnum::Heat);
    assert_eq!(device.occupied_heating_setpoint(), 2300);
    assert_eq!(device.max_heat_setpoint_limit(), 2300);
    assert!(device.heating());
}

#[test]
fn back_to_back_messages_are_all_reported_once() {
    let mut handler = handler();
    let mut changes = AttrChanges::new();

    handler.out_of_band_message(OutOfBandMessage::SystemMode);
    handler.out_of_band_message(OutOfBandMessage::LocalTemperature);
    handler.out_of_band_message(OutOfBandMessage::SetpointLimits);
    handler.out_of_band_message(OutOfBandMessage::LocalTemperature);

    let pending = handler.take_pending().unwrap();
    handler.notify_pending(&mut changes, pending);
    let reported: Vec<u32> = changes.paths.iter().map(|path| path.attr_id).collect();
    assert_eq!(reported, [0x0000, 0x0015, 0x0016, 0x001C]);
    assert_eq!(handler.take_pending(), None);
}
