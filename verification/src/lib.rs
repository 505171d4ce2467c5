//! The Matter Thermostat cluster (`0x0201`) for a heating-only device, with the
//! rules of the cluster stated as contracts and proved.
//!
//! The feature map that is served is `HEAT`, optionally with `LTNE`. The
//! device-specific logic is supplied through
//! [`ThermostatHooks`](hooks::ThermostatHooks); the
//! [`ThermostatHandler`](handler::ThermostatHandler) owns the rules:
//!
//! - The configuration and the selection of features are checked at startup.
//! - The constraint chain of the setpoint limits,
//!   `AbsMin <= Min <= OccupiedHeatingSetpoint <= Max <= AbsMax`, is enforced
//!   across every way to change a value. The `SetpointRaiseLower` command clamps
//!   silently, while an attribute write out of range is a constraint error.
//!
//! | ID       | Attribute                    | Served            |
//! | -------- | ---------------------------- | ----------------- |
//! | `0x0000` | `LocalTemperature`           | always            |
//! | `0x0003` | `AbsMinHeatSetpointLimit`    | all four or none  |
//! | `0x0004` | `AbsMaxHeatSetpointLimit`    | all four or none  |
//! | `0x0012` | `OccupiedHeatingSetpoint`    | always            |
//! | `0x0015` | `MinHeatSetpointLimit`       | all four or none  |
//! | `0x0016` | `MaxHeatSetpointLimit`       | all four or none  |
//! | `0x001B` | `ControlSequenceOfOperation` | always            |
//! | `0x001C` | `SystemMode`                 | always            |
//!
//! The only command served is `SetpointRaiseLower` (`0x00`). Cooling, automatic
//! mode, occupancy, schedules, presets, suggestions, events and setback are not
//! served.

pub mod cluster;
pub mod device;
pub mod error;
pub mod handler;
pub mod hooks;
pub mod journal;
pub mod laws;
pub mod model;
pub mod pending;
pub mod room;
pub mod simulation;
pub mod text;
pub mod validation;
