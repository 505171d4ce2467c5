//! Which configurations are accepted, and what is said of the others.

use thermostat::cluster::{Cluster, ControlSequenceOfOperationEnum};
use thermostat::validation::{check_configuration, ConfigurationError};

const GOOD: Cluster = Cluster {
    id: 0x0201,
    revision: 11,
    feature_map: 0x01,
    attributes: &[0x0000, 0x0003, 0x0004, 0x0012, 0x0015, 0x0016, 0x001B, 0x001C],
    commands: &[0x00],
    events: &[],
};

fn check(cluster: Cluster) -> Result<(), ConfigurationError> {
    check_configuration(&cluster, 700, 3000, ControlSequenceOfOperationEnum::HeatingOnly)
}

fn message(result: Result<(), ConfigurationError>) -> String {
    result.unwrap_err().message()
}

#[test]
fn heat_and_heat_with_ltne_are_accepted() {
    assert_eq!(check(GOOD), Ok(()));
    assert_eq!(check(Cluster { feature_map: 0x41, ..GOOD }), Ok(()));
    assert_eq!(
        check_configuration(&GOOD, 700, 700, ControlSequenceOfOperationEnum::HeatingWithReheat),
        Ok(())
    );
}

#[test]
fn the_limits_may_all_be_omitted() {
    let attributes = &[0x0000, 0x0012, 0x001B, 0x001C];
    assert_eq!(check(Cluster { attributes, ..GOOD }), Ok(()));
}

#[test]
fn a_wrong_revision_is_named() {
    let result = check(Cluster { revision: 10, ..GOOD });
    assert_eq!(result, Err(ConfigurationError::Revision(10)));
    assert_eq!(
        message(result),
        "Thermostat validation: incorrect revision number: expected 11 got 10"
    );
}

#[test]
fn heating_is_required() {
    let result = check(Cluster { feature_map: 0x40, ..GOOD });
    assert_eq!(result, Err(ConfigurationError::NoHeating));
    assert_eq!(
        message(result),
        "Thermostat validation: the HEAT feature must be enabled - this handler only implements a heating thermostat"
    );
}

#[test]
fn unsupported_features_are_named() {
    let result = check(Cluster { feature_map: 0x8000_00e3, ..GOOD });
    assert_eq!(result, Err(ConfigurationError::UnsupportedFeatures(0x8000_00a2)));
    assert_eq!(
        message(result),
        "Thermostat validation: unsupported features in the feature map: 0x800000a2. Only HEAT and LTNE are implemented"
    );
}

#[test]
fn every_mandatory_attribute_is_required() {
    for missing in [0x0000, 0x0012, 0x001B, 0x001C] {
        let attributes: Vec<u32> = GOOD.attributes.iter().copied().filter(|id| *id != missing).collect();
        let attributes: &'static [u32] = attributes.leak();
        let result = check(Cluster { attributes, ..GOOD });
        assert_eq!(result, Err(ConfigurationError::MissingAttributes));
        assert_eq!(
            message(result),
            "Thermostat validation: missing required attributes: LocalTemperature, OccupiedHeatingSetpoint, ControlSequenceOfOperation or SystemMode"
        );
    }
}

#[test]
fn the_limits_come_together() {
    for missing in [0x0003, 0x0004, 0x0015, 0x0016] {
        let attributes: Vec<u32> = GOOD.attributes.iter().copied().filter(|id| *id != missing).collect();
        let attributes: &'static [u32] = attributes.leak();
        let result = check(Cluster { attributes, ..GOOD });
        assert_eq!(result, Err(ConfigurationError::PartialLimits));
        assert_eq!(
            message(result),
            "Thermostat validation: the AbsMin/AbsMax/Min/MaxHeatSetpointLimit attributes must either all be present or all be absent"
        );
    }
}

#[test]
fn no_event_may_be_served() {
    let result = check(Cluster { events: &[0x00], ..GOOD });
    assert_eq!(result, Err(ConfigurationError::Events));
    assert_eq!(
        message(result),
        "Thermostat validation: no event can be served without the TEVT feature - pass `.with_events(with!())`"
    );
}

#[test]
fn the_command_is_required() {
    let result = check(Cluster { commands: &[0x01], ..GOOD });
    assert_eq!(result, Err(ConfigurationError::MissingCommand));
    assert_eq!(
        message(result),
        "Thermostat validation: missing required command: SetpointRaiseLower"
    );
}

#[test]
fn the_absolute_limits_are_ordered() {
    let result = check_configuration(&GOOD, 700, -50, ControlSequenceOfOperationEnum::HeatingOnly);
    assert_eq!(result, Err(ConfigurationError::AbsoluteLimits(700, -50)));
    assert_eq!(
        message(result),
        "Thermostat validation: ABS_MIN_HEAT_SETPOINT (700) must not exceed ABS_MAX_HEAT_SETPOINT (-50)"
    );
}

#[test]
fn the_control_sequence_heats() {
    for sequence in [
        ControlSequenceOfOperationEnum::CoolingOnly,
        ControlSequenceOfOperationEnum::CoolingWithReheat,
        ControlSequenceOfOperationEnum::CoolingAndHeating,
        ControlSequenceOfOperationEnum::CoolingAndHeatingWithReheat,
    ] {
        let result = check_configuration(&GOOD, 700, 3000, sequence);
        assert_eq!(result, Err(ConfigurationError::ControlSequence));
        assert_eq!(
            message(result),
            "Thermostat validation: CONTROL_SEQUENCE_OF_OPERATION must be HeatingOnly or HeatingWithReheat for a heating-only thermostat"
        );
    }
}

#[test]
fn the_first_fault_is_the_one_named() {
    let result = check(Cluster { revision: 12, feature_map: 0, commands: &[], ..GOOD });
    assert_eq!(result, Err(ConfigurationError::Revision(12)));
    let result = check(Cluster { feature_map: 0x02, commands: &[], ..GOOD });
    assert_eq!(result, Err(ConfigurationError::NoHeating));
}

#[test]
fn numbers_are_written_out() {
    let mut text = String::new();
    thermostat::text::append_decimal(&mut text, i32::MIN);
    assert_eq!(text, "-2147483648");

    let mut text = String::new();
    thermostat::text::append_decimal(&mut text, 0);
    thermostat::text::append_hexadecimal(&mut text, 0x1234_5678, 4);
    assert_eq!(text, "05678");

    let mut text = String::new();
    thermostat::text::append_hexadecimal(&mut text, 0x09ab_cdef, 8);
    assert_eq!(text, "09abcdef");
}
