//! The elements of the Thermostat cluster (`0x0201`): its attributes, its
//! commands, its enumerations, and the metadata that selects which of them an
//! instance serves.

use vstd::prelude::*;

verus! {

/// Identifies an endpoint of the node.
pub type EndptId = u16;

/// Identifies a cluster.
pub type ClusterId = u32;

/// Identifies an attribute of a cluster.
pub type AttrId = u32;

/// Identifies a command of a cluster.
pub type CmdId = u32;

/// Identifies an event of a cluster.
pub type EventId = u32;

/// The identifier of the Thermostat cluster.
pub const THERMOSTAT_CLUSTER_ID: ClusterId = 0x0201;

/// The `HEAT` feature: the device can heat.
pub const FEATURE_HEATING: u32 = 0x01;

/// The `COOL` feature: the device can cool.
pub const FEATURE_COOLING: u32 = 0x02;

/// The `AUTO` feature: the device chooses between heating and cooling.
pub const FEATURE_AUTO_MODE: u32 = 0x20;

/// The `LTNE` feature: the local temperature is not exposed.
pub const FEATURE_LOCAL_TEMPERATURE_NOT_EXPOSED: u32 = 0x40;

/// The attributes that a heating-only thermostat serves.
#[derive(Clone, Copy, Debug, PartialEq, Eq, Structural)]
pub enum AttributeId {
    LocalTemperature,
    AbsMinHeatSetpointLimit,
    AbsMaxHeatSetpointLimit,
    OccupiedHeatingSetpoint,
    MinHeatSetpointLimit,
    MaxHeatSetpointLimit,
    ControlSequenceOfOperation,
    SystemMode,
}

impl AttributeId {
    /// The number that stands for this attribute.
    pub open spec fn number(self) -> AttrId {
        match self {
            AttributeId::LocalTemperature => 0x0000,
            AttributeId::AbsMinHeatSetpointLimit => 0x0003,
            AttributeId::AbsMaxHeatSetpointLimit => 0x0004,
            AttributeId::OccupiedHeatingSetpoint => 0x0012,
            AttributeId::MinHeatSetpointLimit => 0x0015,
            AttributeId::MaxHeatSetpointLimit => 0x0016,
            AttributeId::ControlSequenceOfOperation => 0x001B,
            AttributeId::SystemMode => 0x001C,
        }
    }

    /// The number that stands for this attribute on the wire.
    pub fn id(self) -> (id: AttrId)
        ensures
            id == self.number(),
    {
        match self {
            AttributeId::LocalTemperature => 0x0000,
            AttributeId::AbsMinHeatSetpointLimit => 0x0003,
            AttributeId::AbsMaxHeatSetpointLimit => 0x0004,
            AttributeId::OccupiedHeatingSetpoint => 0x0012,
            AttributeId::MinHeatSetpointLimit => 0x0015,
            AttributeId::MaxHeatSetpointLimit => 0x0016,
            AttributeId::ControlSequenceOfOperation => 0x001B,
            AttributeId::SystemMode => 0x001C,
        }
    }
}

/// The commands that a heating-only thermostat serves.
#[derive(Clone, Copy, Debug, PartialEq, Eq, Structural)]
pub enum CommandId {
    SetpointRaiseLower,
}

impl CommandId {
    /// The number that stands for this command.
    pub open spec fn number(self) -> CmdId {
        match self {
            CommandId::SetpointRaiseLower => 0x00,
        }
    }

    /// The number that stands for this command on the wire.
    pub fn id(self) -> (id: CmdId)
        ensures
            id == self.number(),
    {
        match self {
            CommandId::SetpointRaiseLower => 0x00,
        }
    }
}

/// What the thermostat is asked to do.
#[derive(Clone, Copy, Debug, PartialEq, Eq, Structural)]
pub enum SystemModeEnum {
    Off,
    Auto,
    Cool,
    Heat,
    EmergencyHeat,
    Precooling,
    FanOnly,
    Dry,
    Sleep,
}

impl SystemModeEnum {
    /// The number that stands for this mode.
    pub open spec fn number(self) -> u8 {
        match self {
            SystemModeEnum::Off => 0,
            SystemModeEnum::Auto => 1,
            SystemModeEnum::Cool => 3,
            SystemModeEnum::Heat => 4,
            SystemModeEnum::EmergencyHeat => 5,
            SystemModeEnum::Precooling => 6,
            SystemModeEnum::FanOnly => 7,
            SystemModeEnum::Dry => 8,
            SystemModeEnum::Sleep => 9,
        }
    }

    /// The number that stands for this mode on the wire.
    pub fn code(self) -> (code: u8)
        ensures
            code == self.number(),
    {
        match self {
            SystemModeEnum::Off => 0,
            SystemModeEnum::Auto => 1,
            SystemModeEnum::Cool => 3,
            SystemModeEnum::Heat => 4,
            SystemModeEnum::EmergencyHeat => 5,
            SystemModeEnum::Precooling => 6,
            SystemModeEnum::FanOnly => 7,
            SystemModeEnum::Dry => 8,
            SystemModeEnum::Sleep => 9,
        }
    }
}

/// Which setpoints a `SetpointRaiseLower` command adjusts.
#[derive(Clone, Copy, Debug, PartialEq, Eq, Structural)]
pub enum SetpointRaiseLowerModeEnum {
    Heat,
    Cool,
    Both,
}

/// What the equipment behind the thermostat can do.
#[derive(Clone, Copy, Debug, PartialEq, Eq, Structural)]
pub enum ControlSequenceOfOperationEnum {
    CoolingOnly,
    CoolingWithReheat,
    HeatingOnly,
    HeatingWithReheat,
    CoolingAndHeating,
    CoolingAndHeatingWithReheat,
}

/// The metadata of a cluster instance: its revision, its features and the
/// elements it serves.
///
/// The attributes that every cluster carries, such as `FeatureMap` itself, are
/// not listed: they are not the instance's to select.
#[derive(Clone, Copy, Debug)]
pub struct Cluster {
    pub id: ClusterId,
    pub revision: u16,
    pub feature_map: u32,
    pub attributes: &'static [AttrId],
    pub commands: &'static [CmdId],
    pub events: &'static [EventId],
}

/// A cluster's metadata as a mathematical value.
#[verifier::ext_equal]
pub struct ClusterView {
    pub id: ClusterId,
    pub revision: u16,
    pub feature_map: u32,
    pub attributes: Seq<AttrId>,
    pub commands: Seq<CmdId>,
    pub events: Seq<EventId>,
}

impl ClusterView {
    /// Whether the attribute is served.
    pub open spec fn serves(self, attribute: AttributeId) -> bool {
        self.attributes.contains(attribute.number())
    }

    /// Whether the command is accepted.
    pub open spec fn accepts(self, command: CommandId) -> bool {
        self.commands.contains(command.number())
    }
}

impl View for Cluster {
    type V = ClusterView;

    open spec fn view(&self) -> ClusterView {
        ClusterView {
            id: self.id,
            revision: self.revision,
            feature_map: self.feature_map,
            attributes: self.attributes@,
            commands: self.commands@,
            events: self.events@,
        }
    }
}

impl Cluster {
    /// Whether the attribute is served.
    pub fn serves(&self, attribute: AttributeId) -> (served: bool)
        ensures
            served == self@.serves(attribute),
    {
        contains(self.attributes, attribute.id())
    }

    /// Whether the command is accepted.
    pub fn accepts(&self, command: CommandId) -> (accepted: bool)
        ensures
            accepted == self@.accepts(command),
    {
        contains(self.commands, command.id())
    }
}

/// Whether `id` is one of `ids`.
fn contains(ids: &[u32], id: u32) -> (found: bool)
    ensures
        found == ids@.contains(id),
{
    let mut i: usize = 0;
    while i < ids.len()
        invariant
            i <= ids@.len(),
            forall|j: int| 0 <= j < i ==> ids@[j] != id,
        decreases ids@.len() - i,
    {
        if ids[i] == id {
            return true;
        }
        i += 1;
    }
    false
}

} // verus!
