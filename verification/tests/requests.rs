//! What requests do, call by call, on a device that records what it is asked
//! and fails when it is told to.

use thermostat::cluster::{
    AttrId, AttributeId, Cluster, ControlSequenceOfOperationEnum, SetpointRaiseLowerModeEnum,
    SystemModeEnum, FEATURE_HEATING, FEATURE_LOCAL_TEMPERATURE_NOT_EXPOSED,
};
use thermostat::error::{Error, ErrorCode};
use thermostat::handler::{Dataver, LifecycleOp, SetpointRaiseLowerRequest, ThermostatHandler};
use thermostat::hooks::{AttrChanges, AttrPath, ThermostatHooks};
use thermostat::pending::{OutOfBandMessage, PendingAttributes};

#[derive(Clone, Copy, Debug, PartialEq)]
enum Call {
    Setpoint(i16),
    Min(i16),
    Max(i16),
    Mode(SystemModeEnum),
    Apply(SystemModeEnum, i16),
}

/// A device that serves the setpoint limits or omits them.
struct Recorder<const LIMITS: bool> {
    setpoint: i16,
    min: i16,
    max: i16,
    mode: SystemModeEnum,
    calls: Vec<Call>,
    failing: Option<Call>,
    error: Error,
}

impl<const LIMITS: bool> Recorder<LIMITS> {
    fn new() -> Self {
        Self {
            setpoint: 2000,
            min: 700,
            max: 3000,
            mode: SystemModeEnum::Heat,
            calls: Vec::new(),
            failing: None,
            error: Error::new(ErrorCode::Failure),
        }
    }

    fn called(&mut self, call: Call) -> Result<(), Error> {
        self.calls.push(call);
        if self.failing == Some(call) {
            Err(self.error)
        } else {
            Ok(())
        }
    }
}

impl<const LIMITS: bool> ThermostatHooks for Recorder<LIMITS> {
    fn cluster() -> Cluster {
        Cluster {
            id: 0x0201,
            revision: 11,
            feature_map: FEATURE_HEATING,
            attributes: if LIMITS {
                &[0x0000, 0x0003, 0x0004, 0x0012, 0x0015, 0x0016, 0x001B, 0x001C]
            } else {
                &[0x0000, 0x0012, 0x001B, 0x001C]
            },
            commands: &[0x00],
            events: &[],
        }
    }

    fn local_temperature(&self) -> Option<i16> {
        None
    }

    fn occupied_heating_setpoint(&self) -> i16 {
        self.setpoint
    }

    fn set_occupied_heating_setpoint(&mut self, value: i16) -> Result<(), Error> {
        self.called(Call::Setpoint(value))?;
        self.setpoint = value;
        Ok(())
    }

    fn min_heat_setpoint_limit(&self) -> i16 {
        if LIMITS {
            self.min
        } else {
            Self::omitted_min_heat_setpoint_limit()
        }
    }

    fn set_min_heat_setpoint_limit(&mut self, value: i16) -> Result<(), Error> {
        if !LIMITS {
            return Self::refuse_omitted_limit();
        }
        self.called(Call::Min(value))?;
        self.min = value;
        Ok(())
    }

    fn max_heat_setpoint_limit(&self) -> i16 {
        if LIMITS {
            self.max
        } else {
            Self::omitted_max_heat_setpoint_limit()
        }
    }

    fn set_max_heat_setpoint_limit(&mut self, value: i16) -> Result<(), Error> {
        if !LIMITS {
            return Self::refuse_omitted_limit();
        }
        self.called(Call::Max(value))?;
        self.max = value;
        Ok(())
    }

    fn system_mode(&self) -> SystemModeEnum {
        self.mode
    }

    fn set_system_mode(&mut self, value: SystemModeEnum) -> Result<(), Error> {
        self.called(Call::Mode(value))?;
        self.mode = value;
        Ok(())
    }

    fn apply(&mut self, system_mode: SystemModeEnum, heating_setpoint: i16) {
        self.calls.push(Call::Apply(system_mode, heating_setpoint));
    }
}

fn handler<const LIMITS: bool>() -> ThermostatHandler<Recorder<LIMITS>> {
    ThermostatHandler::new(Dataver::new(7), 3, Recorder::new())
}

fn path(attribute: AttributeId) -> AttrPath {
    AttrPath {
        endpoint_id: 3,
        cluster_id: 0x0201,
        attr_id: attribute.id(),
    }
}

const REFUSED: Result<(), Error> = Err(Error {
    code: ErrorCode::ConstraintError,
});

const FAILED: Result<(), Error> = Err(Error {
    code: ErrorCode::Failure,
});

#[test]
fn setpoint_write_is_stored_applied_and_reported() {
    let mut handler = handler::<true>();
    let mut changes = AttrChanges::new();

    assert_eq!(handler.set_occupied_heating_setpoint(&mut changes, 2150), Ok(()));
    assert_eq!(
        handler.hooks.calls,
        [Call::Setpoint(2150), Call::Apply(SystemModeEnum::Heat, 2150)]
    );
    assert_eq!(changes.paths, [path(AttributeId::OccupiedHeatingSetpoint)]);
    assert_eq!(handler.occupied_heating_setpoint(), Ok(2150));
}

#[test]
fn setpoint_write_of_the_same_value_is_still_applied() {
    let mut handler = handler::<true>();
    let mut changes = AttrChanges::new();

    assert_eq!(handler.write_occupied_heating_setpoint(&mut changes, 2000), Ok(()));
    assert_eq!(
        handler.hooks.calls,
        [Call::Setpoint(2000), Call::Apply(SystemModeEnum::Heat, 2000)]
    );
    assert_eq!(changes.paths.len(), 1);
}

#[test]
fn refused_requests_touch_nothing() {
    let mut handler = handler::<true>();
    let mut changes = AttrChanges::new();

    assert_eq!(handler.set_occupied_heating_setpoint(&mut changes, 3001), REFUSED);
    assert_eq!(handler.set_min_heat_setpoint_limit(&mut changes, 3001), REFUSED);
    assert_eq!(handler.set_max_heat_setpoint_limit(&mut changes, 3001), REFUSED);
    assert_eq!(handler.set_system_mode(&mut changes, SystemModeEnum::Dry), REFUSED);
    assert_eq!(handler.set_system_mode(&mut changes, SystemModeEnum::Sleep), REFUSED);
    assert!(handler.hooks.calls.is_empty());
    assert!(changes.paths.is_empty());
}

#[test]
fn limit_write_reports_the_limit_before_the_setpoint() {
    let mut handler = handler::<true>();
    let mut changes = AttrChanges::new();

    assert_eq!(handler.set_max_heat_setpoint_limit(&mut changes, 1800), Ok(()));
    assert_eq!(
        handler.hooks.calls,
        [
            Call::Max(1800),
            Call::Setpoint(1800),
            Call::Apply(SystemModeEnum::Heat, 1800)
        ]
    );
    assert_eq!(
        changes.paths,
        [
            path(AttributeId::MaxHeatSetpointLimit),
            path(AttributeId::OccupiedHeatingSetpoint)
        ]
    );
    assert_eq!(handler.max_heat_setpoint_limit(), Ok(1800));
}

#[test]
fn limit_write_that_fits_leaves_the_setpoint_alone() {
    let mut handler = handler::<true>();
    let mut changes = AttrChanges::new();

    assert_eq!(handler.set_min_heat_setpoint_limit(&mut changes, 2000), Ok(()));
    assert_eq!(handler.hooks.calls, [Call::Min(2000)]);
    assert_eq!(changes.paths, [path(AttributeId::MinHeatSetpointLimit)]);
    assert_eq!(handler.min_heat_setpoint_limit(), Ok(2000));
}

#[test]
fn a_failing_device_stops_the_request() {
    let mut handler = handler::<true>();
    let mut changes = AttrChanges::new();

    handler.hooks.failing = Some(Call::Setpoint(2200));
    assert_eq!(handler.set_min_heat_setpoint_limit(&mut changes, 2200), FAILED);
    assert_eq!(handler.hooks.calls, [Call::Min(2200), Call::Setpoint(2200)]);
    assert_eq!(changes.paths, [path(AttributeId::MinHeatSetpointLimit)]);
    // The limit that was stored before the failure stays.
    assert_eq!(handler.hooks.min, 2200);
    assert_eq!(handler.hooks.setpoint, 2000);

    handler.hooks.calls.clear();
    handler.hooks.failing = Some(Call::Mode(SystemModeEnum::Off));
    assert_eq!(handler.set_system_mode(&mut changes, SystemModeEnum::Off), FAILED);
    assert_eq!(handler.hooks.calls, [Call::Mode(SystemModeEnum::Off)]);
    assert_eq!(changes.paths.len(), 1);
}

#[test]
fn the_error_of_the_device_is_handed_on_whatever_it_is() {
    for code in [
        ErrorCode::Failure,
        ErrorCode::ConstraintError,
        ErrorCode::AttributeNotFound,
        ErrorCode::Other(0),
        ErrorCode::Other(0x89),
        ErrorCode::Other(u32::MAX),
    ] {
        let mut handler = handler::<true>();
        let mut changes = AttrChanges::new();
        handler.hooks.error = Error::new(code);

        handler.hooks.failing = Some(Call::Setpoint(2100));
        let result = handler.set_occupied_heating_setpoint(&mut changes, 2100);
        assert_eq!(result.unwrap_err().code(), code);

        handler.hooks.failing = Some(Call::Max(2400));
        let result = handler.set_max_heat_setpoint_limit(&mut changes, 2400);
        assert_eq!(result.unwrap_err().code(), code);

        handler.hooks.min = 600;
        handler.hooks.failing = Some(Call::Min(700));
        assert_eq!(handler.lifecycle(LifecycleOp::Startup).unwrap_err().code(), code);
    }
}

#[test]
fn mode_write_is_applied_with_the_stored_setpoint() {
    let mut handler = handler::<true>();
    let mut changes = AttrChanges::new();

    assert_eq!(handler.set_system_mode(&mut changes, SystemModeEnum::Off), Ok(()));
    assert_eq!(
        handler.hooks.calls,
        [Call::Mode(SystemModeEnum::Off), Call::Apply(SystemModeEnum::Off, 2000)]
    );
    assert_eq!(changes.paths, [path(AttributeId::SystemMode)]);
    assert_eq!(handler.system_mode(), Ok(SystemModeEnum::Off));
}

#[test]
fn control_sequence_write_is_silently_ignored() {
    let handler = handler::<true>();
    let mut changes = AttrChanges::new();

    assert_eq!(
        handler.set_control_sequence_of_operation(
            &mut changes,
            ControlSequenceOfOperationEnum::CoolingOnly
        ),
        Ok(())
    );
    assert!(handler.hooks.calls.is_empty());
    assert!(changes.paths.is_empty());
    assert_eq!(
        handler.control_sequence_of_operation(),
        Ok(ControlSequenceOfOperationEnum::HeatingOnly)
    );
}

#[test]
fn raise_lower_by_nothing_does_nothing() {
    let mut handler = handler::<true>();
    let mut changes = AttrChanges::new();

    assert_eq!(
        handler.raise_lower_setpoint(&mut changes, SetpointRaiseLowerModeEnum::Both, 0),
        Ok(())
    );
    assert!(handler.hooks.calls.is_empty());

    // At the limit already.
    handler.hooks.setpoint = 3000;
    assert_eq!(
        handler.raise_lower_setpoint(&mut changes, SetpointRaiseLowerModeEnum::Heat, 5),
        Ok(())
    );
    assert!(handler.hooks.calls.is_empty());
    assert!(changes.paths.is_empty());
}

#[test]
fn raise_lower_does_not_overflow() {
    let mut handler = handler::<true>();
    let mut changes = AttrChanges::new();

    handler.hooks.max = i16::MAX;
    handler.hooks.min = i16::MIN;
    handler.hooks.setpoint = i16::MAX - 5;
    assert_eq!(
        handler.raise_lower_setpoint(&mut changes, SetpointRaiseLowerModeEnum::Heat, 127),
        Ok(())
    );
    assert_eq!(handler.hooks.setpoint, i16::MAX);

    handler.hooks.setpoint = i16::MIN + 5;
    assert_eq!(
        handler.raise_lower_setpoint(&mut changes, SetpointRaiseLowerModeEnum::Heat, -128),
        Ok(())
    );
    assert_eq!(handler.hooks.setpoint, i16::MIN);
}

#[test]
fn raise_lower_request_reports_decoding_errors() {
    let mut handler = handler::<true>();
    let mut changes = AttrChanges::new();

    let undecodable = Error::new(ErrorCode::InvalidCommand);
    let oversized = Error::new(ErrorCode::Other(0x85));
    assert_eq!(
        handler.handle_setpoint_raise_lower(
            &mut changes,
            SetpointRaiseLowerRequest { mode: Err(undecodable), amount: Err(oversized) }
        ),
        Err(undecodable)
    );
    assert_eq!(
        handler.handle_setpoint_raise_lower(
            &mut changes,
            SetpointRaiseLowerRequest {
                mode: Ok(SetpointRaiseLowerModeEnum::Heat),
                amount: Err(oversized)
            }
        ),
        Err(oversized)
    );
    assert_eq!(
        handler.handle_setpoint_raise_lower(
            &mut changes,
            SetpointRaiseLowerRequest {
                mode: Ok(SetpointRaiseLowerModeEnum::Heat),
                amount: Ok(-3)
            }
        ),
        Ok(())
    );
    assert_eq!(handler.hooks.setpoint, 1970);
}

#[test]
fn without_limits_the_absolute_ones_bound_the_setpoint() {
    let mut handler = handler::<false>();
    let mut changes = AttrChanges::new();

    // What the device holds for limits that it does not serve is of no account.
    handler.hooks.min = 1900;
    handler.hooks.max = 2100;
    assert!(!ThermostatHandler::<Recorder<false>>::has_limits());
    assert!(ThermostatHandler::<Recorder<true>>::has_limits());
    assert_eq!((handler.min_setpoint(), handler.max_setpoint()), (700, 3000));
    assert_eq!(handler.set_occupied_heating_setpoint(&mut changes, 700), Ok(()));
    assert_eq!(handler.set_occupied_heating_setpoint(&mut changes, 3000), Ok(()));
    assert_eq!(handler.set_occupied_heating_setpoint(&mut changes, 699), REFUSED);
    assert_eq!(handler.abs_min_heat_setpoint_limit(), Ok(700));
    assert_eq!(handler.abs_max_heat_setpoint_limit(), Ok(3000));
    assert_eq!(handler.min_heat_setpoint_limit(), Ok(700));
    assert_eq!(handler.max_heat_setpoint_limit(), Ok(3000));
    assert_eq!(
        handler.hooks.set_max_heat_setpoint_limit(2000),
        Err(Error::new(ErrorCode::AttributeNotFound))
    );
}

#[test]
fn repair_writes_only_what_is_wrong() {
    let mut handler = handler::<true>();

    handler.hooks.max = 600;
    assert_eq!(handler.lifecycle(LifecycleOp::Startup), Ok(()));
    assert_eq!(
        handler.hooks.calls,
        [
            Call::Max(700),
            Call::Setpoint(700),
            Call::Apply(SystemModeEnum::Heat, 700)
        ]
    );

    // A second start finds nothing to repair.
    handler.hooks.calls.clear();
    assert_eq!(handler.lifecycle(LifecycleOp::Startup), Ok(()));
    assert_eq!(handler.hooks.calls, [Call::Apply(SystemModeEnum::Heat, 700)]);

    handler.hooks.calls.clear();
    assert_eq!(handler.lifecycle(LifecycleOp::Shutdown), Ok(()));
    assert!(handler.hooks.calls.is_empty());
}

#[test]
fn repair_stops_at_the_first_failure() {
    let mut handler = handler::<true>();

    handler.hooks.min = 4000;
    handler.hooks.mode = SystemModeEnum::Cool;
    handler.hooks.failing = Some(Call::Setpoint(3000));
    assert_eq!(handler.repair(), FAILED);
    assert_eq!(handler.hooks.calls, [Call::Min(3000), Call::Setpoint(3000)]);
    assert_eq!(handler.hooks.mode, SystemModeEnum::Cool);
    // What was mended before the failure stays mended.
    assert_eq!(handler.hooks.min, 3000);
    assert_eq!(handler.hooks.setpoint, 2000);
}

#[test]
fn repair_without_limits_leaves_them_alone() {
    let mut handler = handler::<false>();

    handler.hooks.min = 9000;
    handler.hooks.setpoint = 100;
    handler.hooks.mode = SystemModeEnum::Auto;
    assert_eq!(handler.repair(), Ok(()));
    assert_eq!(
        handler.hooks.calls,
        [
            Call::Setpoint(700),
            Call::Mode(SystemModeEnum::Off),
            Call::Apply(SystemModeEnum::Off, 700)
        ]
    );
    assert_eq!(handler.hooks.min, 9000);
}

#[test]
fn a_feature_is_supported_only_as_a_whole() {
    type Handler = ThermostatHandler<Recorder<true>>;

    assert!(Handler::supports_feature(FEATURE_HEATING));
    assert!(Handler::supports_feature(0));
    assert!(!Handler::supports_feature(
        FEATURE_HEATING | FEATURE_LOCAL_TEMPERATURE_NOT_EXPOSED
    ));
}

#[test]
fn supported_modes_are_off_and_heat() {
    type Handler = ThermostatHandler<Recorder<true>>;

    assert!(Handler::is_supported_system_mode(SystemModeEnum::Off));
    assert!(Handler::is_supported_system_mode(SystemModeEnum::Heat));
    assert!(!Handler::is_supported_system_mode(SystemModeEnum::EmergencyHeat));
}

#[test]
fn setpoints_are_clamped_into_the_limits() {
    let mut handler = handler::<true>();
    handler.hooks.min = 1000;
    handler.hooks.max = 2500;

    assert_eq!(handler.clamp_setpoint(-70_000), 1000);
    assert_eq!(handler.clamp_setpoint(1999), 1999);
    assert_eq!(handler.clamp_setpoint(70_000), 2500);
}

#[test]
fn messages_accumulate_until_they_are_taken() {
    let mut handler = handler::<true>();

    assert_eq!(handler.take_pending(), None);
    handler.out_of_band_message(OutOfBandMessage::SystemMode);
    handler.out_of_band_message(OutOfBandMessage::LocalTemperature);
    handler.out_of_band_message(OutOfBandMessage::SystemMode);
    assert_eq!(handler.take_pending(), Some(0x05));
    assert_eq!(handler.take_pending(), None);
}

#[test]
fn each_message_marks_its_attributes() {
    assert_eq!(OutOfBandMessage::LocalTemperature.pending(), 0x01);
    assert_eq!(OutOfBandMessage::OccupiedHeatingSetpoint.pending(), 0x02);
    assert_eq!(OutOfBandMessage::SystemMode.pending(), 0x04);
    assert_eq!(OutOfBandMessage::SetpointLimits.pending(), 0x18);
    assert_eq!(OutOfBandMessage::Update.pending(), 0x1f);

    let mut pending = PendingAttributes::new();
    assert_eq!(pending.take(), None);
    pending.add(OutOfBandMessage::SetpointLimits);
    assert_eq!(pending.take(), Some(0x18));
}

#[test]
fn pending_attributes_are_reported_in_ascending_order() {
    let mut handler = handler::<true>();
    let mut changes = AttrChanges::new();

    handler.notify_pending(&mut changes, 0x1f);
    let reported: Vec<AttrId> = changes.paths.iter().map(|path| path.attr_id).collect();
    assert_eq!(reported, [0x0000, 0x0012, 0x0015, 0x0016, 0x001C]);

    handler.notify_pending(&mut changes, 0);
    assert_eq!(changes.paths.len(), 5);

    handler.notify_pending(&mut changes, 0x0c);
    assert_eq!(
        changes.paths[5..],
        [path(AttributeId::MinHeatSetpointLimit), path(AttributeId::SystemMode)]
    );
}

#[test]
fn a_single_attribute_is_reported_at_its_place() {
    let mut handler = handler::<true>();
    let mut changes = AttrChanges::new();

    handler.notify(&mut changes, AttributeId::LocalTemperature);
    assert_eq!(changes.paths, [path(AttributeId::LocalTemperature)]);
}

#[test]
fn commands_that_are_not_served_are_not_found() {
    let handler = handler::<true>();
    let not_found = Err(Error::new(ErrorCode::CommandNotFound));

    assert_eq!(handler.handle_set_weekly_schedule(()), not_found);
    assert_eq!(handler.handle_get_weekly_schedule((), ()), not_found);
    assert_eq!(handler.handle_clear_weekly_schedule(), not_found);
    assert_eq!(handler.handle_set_active_schedule_request(()), not_found);
    assert_eq!(handler.handle_set_active_preset_request(()), not_found);
    assert_eq!(handler.handle_add_thermostat_suggestion((), ()), not_found);
    assert_eq!(handler.handle_remove_thermostat_suggestion(()), not_found);
    assert_eq!(handler.handle_atomic_request((), ()), not_found);
}

#[test]
fn the_data_version_moves_on_and_wraps() {
    let mut handler = handler::<true>();
    assert_eq!(handler.dataver(), 7);
    handler.dataver_changed();
    assert_eq!(handler.dataver(), 8);

    let mut last = Dataver::new(u32::MAX);
    last.changed();
    assert_eq!(last.get(), 0);
}

#[test]
fn the_adaptor_holds_the_handler() {
    let adaptor = handler::<true>().adapt();
    assert_eq!(adaptor.0.endpoint_id, 3);
    assert_eq!(adaptor.0.dataver(), 7);
}
