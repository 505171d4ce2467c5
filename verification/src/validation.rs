//! Which cluster configurations the handler can serve.

use vstd::prelude::*;
use vstd::string::StringExecFns;

use crate::cluster::{
    AttributeId, Cluster, ClusterView, CommandId, ControlSequenceOfOperationEnum, FEATURE_HEATING,
};
use crate::text;

verus! {

/// The cluster revision that the handler implements.
pub const CLUSTER_REVISION: u16 = 11;

/// The features that the handler knows how to serve: `HEAT` and `LTNE`.
pub const SUPPORTED_FEATURES: u32 = 0x41;

/// What is wrong with a cluster configuration.
#[derive(Clone, Copy, Debug, PartialEq, Eq, Structural)]
pub enum ConfigurationError {
    /// The revision is not the one that the handler implements.
    Revision(u16),
    /// The `HEAT` feature is missing.
    NoHeating,
    /// There are features that the handler does not serve.
    UnsupportedFeatures(u32),
    /// A mandatory attribute is not served.
    MissingAttributes,
    /// Some of the four setpoint limits are served and some are not.
    PartialLimits,
    /// An event is served.
    Events,
    /// The `SetpointRaiseLower` command is not accepted.
    MissingCommand,
    /// The absolute limits are the wrong way round.
    AbsoluteLimits(i16, i16),
    /// The control sequence is not one of the two heating sequences.
    ControlSequence,
}

impl ConfigurationError {
    /// The words that describe the error.
    pub open spec fn description(self) -> Seq<char> {
        "Thermostat validation: "@ + match self {
            ConfigurationError::Revision(revision) => "incorrect revision number: expected "@
                + text::decimal(CLUSTER_REVISION as int) + " got "@ + text::decimal(revision as int),
            ConfigurationError::NoHeating =>
                "the HEAT feature must be enabled - this handler only implements a heating thermostat"@,
            ConfigurationError::UnsupportedFeatures(features) =>
                "unsupported features in the feature map: 0x"@ + text::hexadecimal(features as nat, 8)
                + ". Only HEAT and LTNE are implemented"@,
            ConfigurationError::MissingAttributes =>
                "missing required attributes: LocalTemperature, OccupiedHeatingSetpoint, ControlSequenceOfOperation or SystemMode"@,
            ConfigurationError::PartialLimits =>
                "the AbsMin/AbsMax/Min/MaxHeatSetpointLimit attributes must either all be present or all be absent"@,
            ConfigurationError::Events =>
                "no event can be served without the TEVT feature - pass `.with_events(with!())`"@,
            ConfigurationError::MissingCommand =>
                "missing required command: SetpointRaiseLower"@,
            ConfigurationError::AbsoluteLimits(min, max) => "ABS_MIN_HEAT_SETPOINT ("@ + text::decimal(
                min as int,
            ) + ") must not exceed ABS_MAX_HEAT_SETPOINT ("@ + text::decimal(max as int) + ")"@,
            ConfigurationError::ControlSequence =>
                "CONTROL_SEQUENCE_OF_OPERATION must be HeatingOnly or HeatingWithReheat for a heating-only thermostat"@,
        }
    }

    /// Describes the error in words.
    pub fn message(&self) -> (message: String)
        ensures
            message@ == self.description(),
    {
        let mut message = String::new();
        message.append("Thermostat validation: ");
        match self {
            ConfigurationError::Revision(revision) => {
                message.append("incorrect revision number: expected ");
                text::append_decimal(&mut message, CLUSTER_REVISION as i32);
                message.append(" got ");
                text::append_decimal(&mut message, *revision as i32);
            },
            ConfigurationError::NoHeating => {
                message.append(
                    "the HEAT feature must be enabled - this handler only implements a heating thermostat",
                );
            },
            ConfigurationError::UnsupportedFeatures(features) => {
                message.append("unsupported features in the feature map: 0x");
                text::append_hexadecimal(&mut message, *features, 8);
                message.append(". Only HEAT and LTNE are implemented");
            },
            ConfigurationError::MissingAttributes => {
                message.append(
                    "missing required attributes: LocalTemperature, OccupiedHeatingSetpoint, ControlSequenceOfOperation or SystemMode",
                );
            },
            ConfigurationError::PartialLimits => {
                message.append(
                    "the AbsMin/AbsMax/Min/MaxHeatSetpointLimit attributes must either all be present or all be absent",
                );
            },
            ConfigurationError::Events => {
                message.append(
                    "no event can be served without the TEVT feature - pass `.with_events(with!())`",
                );
            },
            ConfigurationError::MissingCommand => {
                message.append("missing required command: SetpointRaiseLower");
            },
            ConfigurationError::AbsoluteLimits(min, max) => {
                message.append("ABS_MIN_HEAT_SETPOINT (");
                text::append_decimal(&mut message, *min as i32);
                message.append(") must not exceed ABS_MAX_HEAT_SETPOINT (");
                text::append_decimal(&mut message, *max as i32);
                message.append(")");
            },
            ConfigurationError::ControlSequence => {
                message.append(
                    "CONTROL_SEQUENCE_OF_OPERATION must be HeatingOnly or HeatingWithReheat for a heating-only thermostat",
                );
            },
        }
        assert(message@ =~= self.description());
        message
    }
}

/// What a device declares about itself.
pub struct Configuration {
    pub cluster: ClusterView,
    pub abs_min: i16,
    pub abs_max: i16,
    pub control_sequence: ControlSequenceOfOperationEnum,
}

/// Whether the feature map contains all of `features`.
pub open spec fn contains_features(feature_map: u32, features: u32) -> bool {
    feature_map & features == features
}

/// The four attributes that bound the heating setpoint.
pub open spec fn limit_attributes() -> Set<AttributeId> {
    set![
        AttributeId::AbsMinHeatSetpointLimit,
        AttributeId::AbsMaxHeatSetpointLimit,
        AttributeId::MinHeatSetpointLimit,
        AttributeId::MaxHeatSetpointLimit,
    ]
}

impl Configuration {
    /// The mandatory attributes are served.
    pub open spec fn serves_mandatory_attributes(self) -> bool {
        &&& self.cluster.serves(AttributeId::LocalTemperature)
        &&& self.cluster.serves(AttributeId::OccupiedHeatingSetpoint)
        &&& self.cluster.serves(AttributeId::ControlSequenceOfOperation)
        &&& self.cluster.serves(AttributeId::SystemMode)
    }

    /// The setpoint limits are all served or all omitted.
    pub open spec fn limits_belong_together(self) -> bool {
        ||| forall|attribute: AttributeId| #[trigger]
            limit_attributes().contains(attribute) ==> self.cluster.serves(attribute)
        ||| forall|attribute: AttributeId| #[trigger]
            limit_attributes().contains(attribute) ==> !self.cluster.serves(attribute)
    }

    /// The control sequence is one that heats and does not cool.
    pub open spec fn heats_only(self) -> bool {
        self.control_sequence is HeatingOnly || self.control_sequence is HeatingWithReheat
    }

    /// A configuration that the handler can serve.
    pub open spec fn is_valid(self) -> bool {
        &&& self.cluster.revision == CLUSTER_REVISION
        &&& contains_features(self.cluster.feature_map, FEATURE_HEATING)
        &&& self.cluster.feature_map & !SUPPORTED_FEATURES == 0
        &&& self.serves_mandatory_attributes()
        &&& self.limits_belong_together()
        &&& self.cluster.events.len() == 0
        &&& self.cluster.accepts(CommandId::SetpointRaiseLower)
        &&& self.abs_min <= self.abs_max
        &&& self.heats_only()
    }

    /// The first of the conditions that does not hold, if there is one.
    pub open spec fn fault(self) -> Option<ConfigurationError> {
        if self.cluster.revision != CLUSTER_REVISION {
            Some(ConfigurationError::Revision(self.cluster.revision))
        } else if !contains_features(self.cluster.feature_map, FEATURE_HEATING) {
            Some(ConfigurationError::NoHeating)
        } else if self.cluster.feature_map & !SUPPORTED_FEATURES != 0 {
            Some(
                ConfigurationError::UnsupportedFeatures(
                    self.cluster.feature_map & !SUPPORTED_FEATURES,
                ),
            )
        } else if !self.serves_mandatory_attributes() {
            Some(ConfigurationError::MissingAttributes)
        } else if !self.limits_belong_together() {
            Some(ConfigurationError::PartialLimits)
        } else if self.cluster.events.len() != 0 {
            Some(ConfigurationError::Events)
        } else if !self.cluster.accepts(CommandId::SetpointRaiseLower) {
            Some(ConfigurationError::MissingCommand)
        } else if self.abs_min > self.abs_max {
            Some(ConfigurationError::AbsoluteLimits(self.abs_min, self.abs_max))
        } else if !self.heats_only() {
            Some(ConfigurationError::ControlSequence)
        } else {
            None
        }
    }
}

/// Checks that a configuration is one that the handler can serve.
pub fn check_configuration(
    cluster: &Cluster,
    abs_min: i16,
    abs_max: i16,
    control_sequence: ControlSequenceOfOperationEnum,
) -> (result: Result<(), ConfigurationError>)
    ensures
        ({
            let configuration = Configuration {
                cluster: cluster@,
                abs_min,
                abs_max,
                control_sequence,
            };
            &&& result is Ok <==> configuration.is_valid()
            &&& match configuration.fault() {
                Some(error) => result == Err::<(), ConfigurationError>(error),
                None => result is Ok,
            }
        }),
{
    let ghost configuration = Configuration { cluster: cluster@, abs_min, abs_max, control_sequence };

    if cluster.revision != CLUSTER_REVISION {
        return Err(ConfigurationError::Revision(cluster.revision));
    }
    if cluster.feature_map & FEATURE_HEATING != FEATURE_HEATING {
        return Err(ConfigurationError::NoHeating);
    }
    let unsupported: u32 = cluster.feature_map & !SUPPORTED_FEATURES;
    if unsupported != 0 {
        return Err(ConfigurationError::UnsupportedFeatures(unsupported));
    }
    if !cluster.serves(AttributeId::LocalTemperature) || !cluster.serves(
        AttributeId::OccupiedHeatingSetpoint,
    ) || !cluster.serves(AttributeId::ControlSequenceOfOperation) || !cluster.serves(
        AttributeId::SystemMode,
    ) {
        return Err(ConfigurationError::MissingAttributes);
    }
    let all_limits: bool = cluster.serves(AttributeId::AbsMinHeatSetpointLimit) && cluster.serves(
        AttributeId::AbsMaxHeatSetpointLimit,
    ) && cluster.serves(AttributeId::MinHeatSetpointLimit) && cluster.serves(
        AttributeId::MaxHeatSetpointLimit,
    );
    let any_limit: bool = cluster.serves(AttributeId::AbsMinHeatSetpointLimit) || cluster.serves(
        AttributeId::AbsMaxHeatSetpointLimit,
    ) || cluster.serves(AttributeId::MinHeatSetpointLimit) || cluster.serves(
        AttributeId::MaxHeatSetpointLimit,
    );
    assert(configuration.limits_belong_together() == (all_limits || !any_limit)) by {
        assert(limit_attributes().contains(AttributeId::AbsMinHeatSetpointLimit));
        assert(limit_attributes().contains(AttributeId::AbsMaxHeatSetpointLimit));
        assert(limit_attributes().contains(AttributeId::MinHeatSetpointLimit));
        assert(limit_attributes().contains(AttributeId::MaxHeatSetpointLimit));
    }
    if any_limit && !all_limits {
        return Err(ConfigurationError::PartialLimits);
    }
    if cluster.events.len() != 0 {
        return Err(ConfigurationError::Events);
    }
    if !cluster.accepts(CommandId::SetpointRaiseLower) {
        return Err(ConfigurationError::MissingCommand);
    }
    if abs_min > abs_max {
        return Err(ConfigurationError::AbsoluteLimits(abs_min, abs_max));
    }
    match control_sequence {
        ControlSequenceOfOperationEnum::HeatingOnly => Ok(()),
        ControlSequenceOfOperationEnum::HeatingWithReheat => Ok(()),
        _ => Err(ConfigurationError::ControlSequence),
    }
}

} // verus!
