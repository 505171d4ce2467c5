//! The order in which the device is called and the subscribers are told.

use std::cell::RefCell;
use std::rc::Rc;

use thermostat::cluster::{AttrId, Cluster, ClusterId, EndptId, SystemModeEnum};
use thermostat::error::Error;
use thermostat::handler::{Dataver, ThermostatHandler};
use thermostat::hooks::{AttrChangeNotifier, ThermostatHooks};
use thermostat::simulation::TestThermostatDeviceLogic;

type Log = Rc<RefCell<Vec<String>>>;

/// A device that writes down what it is asked to do.
struct Device {
    inner: TestThermostatDeviceLogic,
    log: Log,
}

/// A notifier that writes into the same log.
struct Notifier {
    log: Log,
}

impl AttrChangeNotifier for Notifier {
    fn notify_attr_changed(&mut self, _: EndptId, _: ClusterId, attr_id: AttrId) {
        self.log.borrow_mut().push(format!("report {attr_id:04x}"));
    }
}

impl Device {
    fn note(&self, entry: &str) {
        self.log.borrow_mut().push(entry.to_string());
    }
}

impl ThermostatHooks for Device {
    fn cluster() -> Cluster {
        TestThermostatDeviceLogic::cluster()
    }

    fn local_temperature(&self) -> Option<i16> {
        self.inner.local_temperature()
    }

    fn occupied_heating_setpoint(&self) -> i16 {
        self.inner.occupied_heating_setpoint()
    }

    fn set_occupied_heating_setpoint(&mut self, value: i16) -> Result<(), Error> {
        self.note("setpoint");
        self.inner.set_occupied_heating_setpoint(value)
    }

    fn min_heat_setpoint_limit(&self) -> i16 {
        self.inner.min_heat_setpoint_limit()
    }

    fn set_min_heat_setpoint_limit(&mut self, value: i16) -> Result<(), Error> {
        self.note("min");
        self.inner.set_min_heat_setpoint_limit(value)
    }

    fn max_heat_setpoint_limit(&self) -> i16 {
        self.inner.max_heat_setpoint_limit()
    }

    fn set_max_heat_setpoint_limit(&mut self, value: i16) -> Result<(), Error> {
        self.note("max");
        self.inner.set_max_heat_setpoint_limit(value)
    }

    fn system_mode(&self) -> SystemModeEnum {
        self.inner.system_mode()
    }

    fn set_system_mode(&mut self, value: SystemModeEnum) -> Result<(), Error> {
        self.note("mode");
        self.inner.set_system_mode(value)
    }

    fn apply(&mut self, system_mode: SystemModeEnum, heating_setpoint: i16) {
        self.note("apply");
        self.inner.apply(system_mode, heating_setpoint)
    }
}

fn parts() -> (ThermostatHandler<Device>, Notifier, Log) {
    let log = Log::default();
    let device = Device {
        inner: TestThermostatDeviceLogic::new(),
        log: log.clone(),
    };
    let notifier = Notifier { log: log.clone() };
    (ThermostatHandler::new(Dataver::new(1), 1, device), notifier, log)
}

#[test]
fn a_setpoint_is_applied_before_it_is_reported() {
    let (mut handler, mut notifier, log) = parts();
    handler.set_occupied_heating_setpoint(&mut notifier, 2100).unwrap();
    assert_eq!(*log.borrow(), ["setpoint", "apply", "report 0012"]);
}

#[test]
fn a_mode_is_applied_before_it_is_reported() {
    let (mut handler, mut notifier, log) = parts();
    handler.set_system_mode(&mut notifier, SystemModeEnum::Heat).unwrap();
    assert_eq!(*log.borrow(), ["mode", "apply", "report 001c"]);
}

#[test]
fn a_limit_is_reported_before_the_setpoint_moves() {
    let (mut handler, mut notifier, log) = parts();
    handler.set_max_heat_setpoint_limit(&mut notifier, 1500).unwrap();
    assert_eq!(
        *log.borrow(),
        ["max", "report 0016", "setpoint", "apply", "report 0012"]
    );
}

#[test]
fn a_repair_reports_nothing() {
    let (mut handler, _notifier, log) = parts();
    handler.hooks.inner.set_min_heat_setpoint_limit(2500).unwrap();
    handler.repair().unwrap();
    assert_eq!(*log.borrow(), ["setpoint", "apply"]);
}
