//! The simulated room and the devices in it.

use thermostat::cluster::SystemModeEnum;
use thermostat::device::ThermostatDeviceLogic;
use thermostat::handler::{Dataver, ThermostatHandler};
use thermostat::hooks::{AttrChanges, ThermostatHooks};
use thermostat::pending::OutOfBandMessage;
use thermostat::room::{drift, relay, AMBIENT};
use thermostat::simulation::TestThermostatDeviceLogic;

#[test]
fn a_new_device_idles_at_ambient() {
    for mut device in [TestThermostatDeviceLogic::new(), TestThermostatDeviceLogic::default()] {
        assert!(!device.heating());
        assert_eq!(device.local_temperature(), Some(1600));
        assert_eq!(device.occupied_heating_setpoint(), 2000);
        assert_eq!(device.min_heat_setpoint_limit(), 700);
        assert_eq!(device.max_heat_setpoint_limit(), 3000);
        assert_eq!(device.system_mode(), SystemModeEnum::Off);
        assert!(!device.tick());
        assert_eq!(device.tick_message(), None);
    }
}

#[test]
fn switching_to_heat_has_an_effect_right_away() {
    let mut handler = ThermostatHandler::new(Dataver::new(1), 1, TestThermostatDeviceLogic::new());
    let mut changes = AttrChanges::new();

    handler.write_system_mode(&mut changes, SystemModeEnum::Heat).unwrap();
    assert!(handler.hooks.heating());
    assert_eq!(handler.hooks.tick_message(), Some(OutOfBandMessage::LocalTemperature));
    assert_eq!(handler.hooks.local_temperature(), Some(1620));

    handler.write_system_mode(&mut changes, SystemModeEnum::Off).unwrap();
    assert!(!handler.hooks.heating());
    assert!(handler.hooks.tick());
    assert_eq!(handler.hooks.local_temperature(), Some(1610));
}

#[test]
fn the_room_swings_around_the_setpoint() {
    let mut device = TestThermostatDeviceLogic::new();
    device.set_system_mode(SystemModeEnum::Heat).unwrap();
    device.apply(SystemModeEnum::Heat, 2000);

    let mut switched = 0;
    let mut heating = device.heating();
    for _ in 0..200 {
        let before = heating;
        device.tick();
        heating = device.heating();
        if heating != before {
            // One tick later it is still as it was switched.
            device.tick();
            assert_eq!(device.heating(), heating);
            switched += 1;
        }
        assert!(device.local_temperature().unwrap() < 2040);
    }
    assert!(switched > 2);
    assert!(device.local_temperature().unwrap() > 1940);
}

#[test]
fn the_temperature_drifts() {
    assert_eq!(drift(true, 1600), 1620);
    assert_eq!(drift(true, i16::MAX - 3), i16::MAX);
    assert_eq!(drift(false, 1700), 1690);
    assert_eq!(drift(false, 1605), AMBIENT);
    assert_eq!(drift(false, 1000), AMBIENT);
    assert_eq!(drift(false, i16::MIN), AMBIENT);
}

#[test]
fn the_relay_has_a_band() {
    assert!(relay(SystemModeEnum::Heat, true, 2019, 2000));
    assert!(!relay(SystemModeEnum::Heat, true, 2020, 2000));
    assert!(relay(SystemModeEnum::Heat, false, 1979, 2000));
    assert!(!relay(SystemModeEnum::Heat, false, 1980, 2000));
    assert!(!relay(SystemModeEnum::Off, true, 0, 2000));
    assert!(!relay(SystemModeEnum::Heat, true, i16::MAX, i16::MAX));
    assert!(!relay(SystemModeEnum::Heat, false, i16::MIN, i16::MIN));
}

#[test]
fn a_room_left_alone_reaches_ambient() {
    let mut device = ThermostatDeviceLogic::new(None);
    assert!(device.load_state(&[0, 0, 0, 0, 0, 0, 0, 0xa4, 0x06])); // 17.00 degrees
    for ticks in 1..=10 {
        assert!(device.tick());
        assert_eq!(device.local_temperature(), Some(1700 - 10 * ticks));
    }
    assert_eq!(device.local_temperature(), Some(AMBIENT));
    assert!(!device.tick());
}

#[test]
fn a_saved_state_is_loaded_again() {
    let mut device = ThermostatDeviceLogic::new(None);
    device.set_system_mode(SystemModeEnum::Heat).unwrap();
    device.set_occupied_heating_setpoint(2150).unwrap();
    device.set_min_heat_setpoint_limit(-2).unwrap();
    device.set_max_heat_setpoint_limit(i16::MIN).unwrap();

    let saved = device.save_state();
    assert_eq!(saved, [4, 0x66, 0x08, 0xfe, 0xff, 0x00, 0x80, 0x40, 0x06]);

    let restored = ThermostatDeviceLogic::new(Some(&saved));
    assert_eq!(restored.system_mode(), SystemModeEnum::Heat);
    assert_eq!(restored.occupied_heating_setpoint(), 2150);
    assert_eq!(restored.min_heat_setpoint_limit(), -2);
    assert_eq!(restored.max_heat_setpoint_limit(), i16::MIN);
    assert_eq!(restored.local_temperature(), Some(1600));
    assert!(!restored.heating());
}

#[test]
fn an_unusable_state_is_not_loaded() {
    let mut device = ThermostatDeviceLogic::new(Some(&[4, 0, 0]));
    assert_eq!(device.system_mode(), SystemModeEnum::Off);
    assert_eq!(device.occupied_heating_setpoint(), 2000);

    assert!(!device.load_state(&[3, 1, 1, 1, 1, 1, 1, 1, 1]));
    assert_eq!(device.occupied_heating_setpoint(), 2000);

    device.set_system_mode(SystemModeEnum::Cool).unwrap();
    let saved = device.save_state();
    assert_eq!(saved[0], 3);
    assert!(!device.load_state(&saved));
}

#[test]
fn the_saving_device_applies_with_its_band() {
    let mut handler = ThermostatHandler::new(Dataver::new(1), 1, ThermostatDeviceLogic::new(None));
    let mut changes = AttrChanges::new();

    handler.write_occupied_heating_setpoint(&mut changes, 1620).unwrap();
    handler.write_system_mode(&mut changes, SystemModeEnum::Heat).unwrap();
    // Within the band, so nothing is switched on yet.
    assert!(!handler.hooks.heating());

    handler.write_occupied_heating_setpoint(&mut changes, 1621).unwrap();
    assert!(handler.hooks.heating());
    assert_eq!(handler.hooks.tick_message(), Some(OutOfBandMessage::LocalTemperature));
    assert!(handler.hooks.heating());
    handler.hooks.tick();
    handler.hooks.update_relay();
    assert_eq!(handler.hooks.local_temperature(), Some(1640));
    assert!(handler.hooks.heating());
}

#[test]
fn both_devices_pass_validation() {
    let memory = ThermostatHandler::new(Dataver::new(1), 1, TestThermostatDeviceLogic::new());
    assert!(memory.validate().is_ok());
    let saving = ThermostatHandler::new(Dataver::new(1), 1, ThermostatDeviceLogic::new(None));
    assert!(saving.validate().is_ok());
}
