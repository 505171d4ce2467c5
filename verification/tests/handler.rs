//! The rules that the handler enforces, on a device with a configuration of the
//! test's choosing.

use thermostat::cluster::{
    AttrId, AttributeId, Cluster, ClusterId, CmdId, CommandId, ControlSequenceOfOperationEnum,
    EndptId, SetpointRaiseLowerModeEnum, SystemModeEnum, FEATURE_AUTO_MODE, FEATURE_COOLING,
    FEATURE_HEATING, FEATURE_LOCAL_TEMPERATURE_NOT_EXPOSED,
};
use thermostat::error::{Error, ErrorCode};
use thermostat::handler::{Dataver, ThermostatHandler};
use thermostat::hooks::{AttrChangeNotifier, ThermostatHooks};
use thermostat::simulation::TestThermostatDeviceLogic;

/// A notifier that nobody listens to.
struct NullNotifier;

impl AttrChangeNotifier for NullNotifier {
    fn notify_attr_changed(&mut self, _: EndptId, _: ClusterId, _: AttrId) {}
}

/// Hooks whose feature map is a parameter, so each test can pick its own
/// cluster configuration.
struct MockHooks<const F: u32> {
    local_temperature: Option<i16>,
    occupied_heating_setpoint: i16,
    min_heat_setpoint_limit: i16,
    max_heat_setpoint_limit: i16,
    system_mode: SystemModeEnum,
    applied: u32,
}

impl<const F: u32> MockHooks<F> {
    fn new() -> Self {
        Self {
            local_temperature: Some(1900),
            occupied_heating_setpoint: 2000,
            min_heat_setpoint_limit: Self::ABS_MIN_HEAT_SETPOINT,
            max_heat_setpoint_limit: Self::ABS_MAX_HEAT_SETPOINT,
            system_mode: SystemModeEnum::Off,
            applied: 0,
        }
    }
}

impl<const F: u32> ThermostatHooks for MockHooks<F> {
    fn cluster() -> Cluster {
        Cluster {
            id: 0x0201,
            revision: 11,
            feature_map: F,
            attributes: &[0x0000, 0x0003, 0x0004, 0x0012, 0x0015, 0x0016, 0x001B, 0x001C],
            commands: &[0x00],
            events: &[],
        }
    }

    fn local_temperature(&self) -> Option<i16> {
        self.local_temperature
    }

    fn occupied_heating_setpoint(&self) -> i16 {
        self.occupied_heating_setpoint
    }

    fn set_occupied_heating_setpoint(&mut self, value: i16) -> Result<(), Error> {
        self.occupied_heating_setpoint = value;
        Ok(())
    }

    fn min_heat_setpoint_limit(&self) -> i16 {
        self.min_heat_setpoint_limit
    }

    fn set_min_heat_setpoint_limit(&mut self, value: i16) -> Result<(), Error> {
        self.min_heat_setpoint_limit = value;
        Ok(())
    }

    fn max_heat_setpoint_limit(&self) -> i16 {
        self.max_heat_setpoint_limit
    }

    fn set_max_heat_setpoint_limit(&mut self, value: i16) -> Result<(), Error> {
        self.max_heat_setpoint_limit = value;
        Ok(())
    }

    fn system_mode(&self) -> SystemModeEnum {
        self.system_mode
    }

    fn set_system_mode(&mut self, value: SystemModeEnum) -> Result<(), Error> {
        self.system_mode = value;
        Ok(())
    }

    fn apply(&mut self, _system_mode: SystemModeEnum, _heating_setpoint: i16) {
        self.applied += 1;
    }
}

const HEAT: u32 = FEATURE_HEATING;
const HEAT_LTNE: u32 = HEAT | FEATURE_LOCAL_TEMPERATURE_NOT_EXPOSED;

fn handler<const F: u32>() -> ThermostatHandler<MockHooks<F>> {
    ThermostatHandler::new(Dataver::new(1), 1, MockHooks::<F>::new())
}

fn code<T>(result: Result<T, Error>) -> Result<T, ErrorCode> {
    result.map_err(|e| e.code())
}

/// Fails as a node does that is started with a misconfigured cluster.
fn insist_on_validity<H: ThermostatHooks>(handler: &ThermostatHandler<H>) {
    if let Err(error) = handler.validate() {
        panic!("{}", error.message());
    }
}

/// Catches drift between the simulated device and what the handler accepts.
#[test]
fn test_logic_passes_handler_validate() {
    let mut logic = TestThermostatDeviceLogic::new();
    let mut handler = ThermostatHandler::new(Dataver::new(1), 1, &mut logic);

    handler.validate().unwrap();
    handler.repair().unwrap();
}

/// With `LTNE` the attribute always reads as nothing, whatever the sensor says.
#[test]
fn local_temperature_is_null_with_ltne() {
    assert!(!ThermostatHandler::<MockHooks<HEAT>>::supports_feature(
        FEATURE_LOCAL_TEMPERATURE_NOT_EXPOSED
    ));
    assert!(ThermostatHandler::<MockHooks<HEAT_LTNE>>::supports_feature(
        FEATURE_LOCAL_TEMPERATURE_NOT_EXPOSED
    ));

    assert_eq!(handler::<HEAT>().hooks.local_temperature(), Some(1900));
    assert_eq!(handler::<HEAT>().local_temperature(), Ok(Some(1900)));
    assert_eq!(handler::<HEAT_LTNE>().local_temperature(), Ok(None));
}

/// With a heating sequence only `Off` and `Heat` remain of the modes.
#[test]
fn system_mode_write_rejects_unsupported_modes() {
    let mut handler = handler::<HEAT>();

    for mode in [
        SystemModeEnum::Cool,
        SystemModeEnum::Auto,
        SystemModeEnum::Precooling,
        SystemModeEnum::EmergencyHeat,
        SystemModeEnum::FanOnly,
    ] {
        assert_eq!(
            code(handler.write_system_mode(&mut NullNotifier, mode)),
            Err(ErrorCode::ConstraintError),
            "SystemMode {mode:?} should not be accepted"
        );
    }

    for mode in [SystemModeEnum::Off, SystemModeEnum::Heat] {
        handler.write_system_mode(&mut NullNotifier, mode).unwrap();
        assert_eq!(handler.hooks.system_mode(), mode);
    }
}

/// Out-of-range writes are constraint errors, in contrast to
/// `SetpointRaiseLower`, which clamps.
#[test]
fn occupied_heating_setpoint_write_out_of_range_is_constraint_error() {
    let mut handler = handler::<HEAT>();
    let ctx = &mut NullNotifier;

    handler.write_min_heat_setpoint_limit(ctx, 1500).unwrap();
    handler.write_max_heat_setpoint_limit(ctx, 2500).unwrap();

    assert_eq!(
        code(handler.write_occupied_heating_setpoint(ctx, 2501)),
        Err(ErrorCode::ConstraintError)
    );
    assert_eq!(
        code(handler.write_occupied_heating_setpoint(ctx, 1499)),
        Err(ErrorCode::ConstraintError)
    );

    // The bounds themselves are in range.
    handler.write_occupied_heating_setpoint(ctx, 2500).unwrap();
    handler.write_occupied_heating_setpoint(ctx, 1500).unwrap();
    assert_eq!(handler.hooks.occupied_heating_setpoint(), 1500);
}

/// A limit write that conflicts with the setpoint drags the setpoint along by
/// the minimum amount.
#[test]
fn setpoint_limit_writes_adjust_the_setpoint() {
    let mut handler = handler::<HEAT>();
    let ctx = &mut NullNotifier;

    // Floor above the setpoint pushes it up.
    handler.write_min_heat_setpoint_limit(ctx, 2200).unwrap();
    assert_eq!(handler.hooks.occupied_heating_setpoint(), 2200);

    // Ceiling below the setpoint pulls it down.
    handler.write_min_heat_setpoint_limit(ctx, 700).unwrap();
    handler.write_max_heat_setpoint_limit(ctx, 1800).unwrap();
    assert_eq!(handler.hooks.occupied_heating_setpoint(), 1800);
}

/// User-configurable limits stay inside the device limits and do not cross each
/// other.
#[test]
fn setpoint_limit_writes_outside_the_constraint_chain_are_rejected() {
    let mut handler = handler::<HEAT>();
    let ctx = &mut NullNotifier;

    assert_eq!(
        code(handler.write_min_heat_setpoint_limit(ctx, 699)),
        Err(ErrorCode::ConstraintError)
    );
    assert_eq!(
        code(handler.write_max_heat_setpoint_limit(ctx, 3001)),
        Err(ErrorCode::ConstraintError)
    );

    handler.write_max_heat_setpoint_limit(ctx, 2000).unwrap();
    assert_eq!(
        code(handler.write_min_heat_setpoint_limit(ctx, 2001)),
        Err(ErrorCode::ConstraintError)
    );
    assert_eq!(
        code(handler.write_max_heat_setpoint_limit(ctx, 699)),
        Err(ErrorCode::ConstraintError)
    );
}

/// A device that cannot cool answers `Cool` with an invalid command.
#[test]
fn setpoint_raise_lower_rejects_cool() {
    let mut handler = handler::<HEAT>();

    assert_eq!(
        code(handler.raise_lower_setpoint(&mut NullNotifier, SetpointRaiseLowerModeEnum::Cool, 10)),
        Err(ErrorCode::InvalidCommand)
    );
    assert_eq!(handler.hooks.occupied_heating_setpoint(), 2000);
}

/// The amount is in steps of 0.1 degrees while the setpoint is in 0.01 degrees.
/// `Both` is accepted and adjusts what the device has.
#[test]
fn setpoint_raise_lower_applies_tenths_of_a_degree() {
    for mode in [
        SetpointRaiseLowerModeEnum::Heat,
        SetpointRaiseLowerModeEnum::Both,
    ] {
        let mut handler = handler::<HEAT>();
        let ctx = &mut NullNotifier;

        handler.raise_lower_setpoint(ctx, mode, 10).unwrap();
        assert_eq!(handler.hooks.occupied_heating_setpoint(), 2100);

        handler.raise_lower_setpoint(ctx, mode, -25).unwrap();
        assert_eq!(handler.hooks.occupied_heating_setpoint(), 1850);
    }
}

/// A target outside the limits is clamped, which is no error.
#[test]
fn setpoint_raise_lower_clamps_without_erroring() {
    let mut handler = handler::<HEAT>();
    let ctx = &mut NullNotifier;

    handler.write_min_heat_setpoint_limit(ctx, 1500).unwrap();
    handler.write_max_heat_setpoint_limit(ctx, 2500).unwrap();

    handler
        .raise_lower_setpoint(ctx, SetpointRaiseLowerModeEnum::Heat, 127)
        .unwrap();
    assert_eq!(handler.hooks.occupied_heating_setpoint(), 2500);

    handler
        .raise_lower_setpoint(ctx, SetpointRaiseLowerModeEnum::Heat, -128)
        .unwrap();
    assert_eq!(handler.hooks.occupied_heating_setpoint(), 1500);
}

/// The control sequence of a heating-only thermostat is fixed.
#[test]
fn control_sequence_of_operation_is_fixed() {
    assert_eq!(
        <MockHooks<HEAT> as ThermostatHooks>::CONTROL_SEQUENCE_OF_OPERATION,
        ControlSequenceOfOperationEnum::HeatingOnly
    );
}

/// Startup pulls stored state back into the chain.
#[test]
fn repair_restores_the_constraint_chain() {
    let mut handler = handler::<HEAT>();

    // Values a narrowed firmware range or a bad restore could leave behind.
    handler.hooks.min_heat_setpoint_limit = 100;
    handler.hooks.max_heat_setpoint_limit = 9000;
    handler.hooks.occupied_heating_setpoint = 8000;
    handler.hooks.system_mode = SystemModeEnum::Cool;

    handler.repair().unwrap();

    assert_eq!(handler.hooks.min_heat_setpoint_limit, 700);
    assert_eq!(handler.hooks.max_heat_setpoint_limit, 3000);
    assert_eq!(handler.hooks.occupied_heating_setpoint, 3000);
    assert_eq!(handler.hooks.system_mode, SystemModeEnum::Off);
    assert_eq!(handler.hooks.applied, 1);
}

/// Pins the shape of the endpoint that a controller sees: the attributes and
/// commands, the feature map and the revision.
#[test]
fn serves_the_heating_only_element_set() {
    let cluster = <TestThermostatDeviceLogic as ThermostatHooks>::cluster();

    assert_eq!(cluster.id, 0x0201);
    assert_eq!(cluster.revision, 11);
    assert_eq!(cluster.feature_map, HEAT);

    let attrs: Vec<AttrId> = cluster
        .attributes
        .iter()
        .copied()
        .filter(|id| *id < 0xF000) // skip the attributes that every cluster has
        .collect();

    assert_eq!(
        attrs,
        [
            AttributeId::LocalTemperature.id(),
            AttributeId::AbsMinHeatSetpointLimit.id(),
            AttributeId::AbsMaxHeatSetpointLimit.id(),
            AttributeId::OccupiedHeatingSetpoint.id(),
            AttributeId::MinHeatSetpointLimit.id(),
            AttributeId::MaxHeatSetpointLimit.id(),
            AttributeId::ControlSequenceOfOperation.id(),
            AttributeId::SystemMode.id(),
        ]
    );

    let cmds: Vec<CmdId> = cluster.commands.to_vec();

    assert_eq!(cmds, [CommandId::SetpointRaiseLower.id()]);
}

/// A misconfigured cluster is a programming error, caught once at startup.
#[test]
#[should_panic(expected = "the HEAT feature must be enabled")]
fn validate_rejects_a_cluster_without_heat() {
    insist_on_validity(&handler::<0>());
}

#[test]
#[should_panic(expected = "unsupported features in the feature map")]
fn validate_rejects_unsupported_features() {
    const AUTO: u32 = HEAT | FEATURE_COOLING | FEATURE_AUTO_MODE;

    insist_on_validity(&handler::<AUTO>());
}
