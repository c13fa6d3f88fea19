//! Messages exchanged with the presentation layer, and the settings they carry.

use vstd::prelude::*;
use vstd::string::*;
use vstd::std_specs::convert::TryFromSpecImpl;
use crate::text::{push_signed_decimal, signed_decimal};

verus! {

/// A configuration change requested by the user.
#[derive(Debug, Clone, Copy, PartialEq, Eq, Structural)]
pub enum UiEvent {
    /// Select the HVAC mode.
    ModeUpdate(ModeStatus),
    /// Select the display unit: `true` for Fahrenheit.
    UseFahrenheitUpdate(bool),
    /// Select the hysteresis speed.
    DiffUpdate(DiffStatus),
    /// Select the defrost tier.
    RestUpdate(RestStatus),
    /// Select the fan mode.
    FanUpdate(FanStatus),
    /// Set the target temperature, in thousandths of a degree Celsius.
    TargetTempUpdate(i32),
}

/// A report from the control core to the presentation layer.
#[derive(Debug, Clone, PartialEq, Eq)]
pub enum BackendEvent {
    /// The current temperature, in thousandths of a degree Celsius.
    CurrentTempCUpdate(i32),
    /// The status line that describes the current runtime state.
    CurrentStateMessage(String),
}

/// The HVAC mode chosen by the user.
#[derive(Debug, Clone, Copy, PartialEq, Eq, Structural)]
pub enum ModeStatus {
    Heat,
    Cool,
    Off,
}

/// How far the temperature may drift from the target before the system starts.
#[derive(Debug, Clone, Copy, PartialEq, Eq, Structural)]
pub enum DiffStatus {
    Slow,
    Normal,
    Fast,
}

/// How long the compressor may run in total before it must rest.
#[derive(Debug, Clone, Copy, PartialEq, Eq, Structural)]
pub enum RestStatus {
    Short,
    Medium,
    Long,
    Off,
}

/// Whether the fan follows the active state or runs continuously.
#[derive(Debug, Clone, Copy, PartialEq, Eq, Structural)]
pub enum FanStatus {
    Auto,
    On,
}

/// A number that names no value of the setting it was decoded for.
#[derive(Debug, Clone, Copy, PartialEq, Eq, Structural)]
pub enum StatusError {
    InvalidMode(i32),
    InvalidDiff(i32),
    InvalidRest(i32),
    InvalidFan(i32),
}

impl StatusError {
    /// The number that was rejected.
    pub open spec fn value(self) -> int {
        match self {
            StatusError::InvalidMode(v) => v as int,
            StatusError::InvalidDiff(v) => v as int,
            StatusError::InvalidRest(v) => v as int,
            StatusError::InvalidFan(v) => v as int,
        }
    }

    /// The text of the error: the setting's name, then the rejected number.
    pub open spec fn message_text(self) -> Seq<char> {
        let prefix = match self {
            StatusError::InvalidMode(_) => "Invalid mode status: "@,
            StatusError::InvalidDiff(_) => "Invalid diff status: "@,
            StatusError::InvalidRest(_) => "Invalid rest status: "@,
            StatusError::InvalidFan(_) => "Invalid fan status: "@,
        };
        prefix + signed_decimal(self.value())
    }

    /// Renders the error for display.
    pub fn message(&self) -> (text: String)
        ensures
            text@ == self.message_text(),
    {
        let (prefix, value) = match self {
            StatusError::InvalidMode(v) => ("Invalid mode status: ", *v),
            StatusError::InvalidDiff(v) => ("Invalid diff status: ", *v),
            StatusError::InvalidRest(v) => ("Invalid rest status: ", *v),
            StatusError::InvalidFan(v) => ("Invalid fan status: ", *v),
        };
        let mut text = String::from_str(prefix);
        push_signed_decimal(&mut text, value as i128);
        text
    }
}

impl TryFrom<i32> for ModeStatus {
    type Error = StatusError;

    fn try_from(value: i32) -> (r: Result<Self, Self::Error>) {
        if value == 0 {
            Ok(ModeStatus::Heat)
        } else if value == 1 {
            Ok(ModeStatus::Cool)
        } else if value == 2 {
            Ok(ModeStatus::Off)
        } else {
            Err(StatusError::InvalidMode(value))
        }
    }
}

impl TryFromSpecImpl<i32> for ModeStatus {
    open spec fn obeys_try_from_spec() -> bool {
        true
    }

    /// The setting that `value` names, counted from zero in the order of declaration.
    open spec fn try_from_spec(value: i32) -> Result<Self, Self::Error> {
        if value == 0 {
            Ok(ModeStatus::Heat)
        } else if value == 1 {
            Ok(ModeStatus::Cool)
        } else if value == 2 {
            Ok(ModeStatus::Off)
        } else {
            Err(StatusError::InvalidMode(value))
        }
    }
}

impl TryFrom<i32> for DiffStatus {
    type Error = StatusError;

    fn try_from(value: i32) -> (r: Result<Self, Self::Error>) {
        if value == 0 {
            Ok(DiffStatus::Slow)
        } else if value == 1 {
            Ok(DiffStatus::Normal)
        } else if value == 2 {
            Ok(DiffStatus::Fast)
        } else {
            Err(StatusError::InvalidDiff(value))
        }
    }
}

impl TryFromSpecImpl<i32> for DiffStatus {
    open spec fn obeys_try_from_spec() -> bool {
        true
    }

    /// The setting that `value` names, counted from zero in the order of declaration.
    open spec fn try_from_spec(value: i32) -> Result<Self, Self::Error> {
        if value == 0 {
            Ok(DiffStatus::Slow)
        } else if value == 1 {
            Ok(DiffStatus::Normal)
        } else if value == 2 {
            Ok(DiffStatus::Fast)
        } else {
            Err(StatusError::InvalidDiff(value))
        }
    }
}

impl TryFrom<i32> for RestStatus {
    type Error = StatusError;

    fn try_from(value: i32) -> (r: Result<Self, Self::Error>) {
        if value == 0 {
            Ok(RestStatus::Short)
        } else if value == 1 {
            Ok(RestStatus::Medium)
        } else if value == 2 {
            Ok(RestStatus::Long)
        } else if value == 3 {
            Ok(RestStatus::Off)
        } else {
            Err(StatusError::InvalidRest(value))
        }
    }
}

impl TryFromSpecImpl<i32> for RestStatus {
    open spec fn obeys_try_from_spec() -> bool {
        true
    }

    /// The setting that `value` names, counted from zero in the order of declaration.
    open spec fn try_from_spec(value: i32) -> Result<Self, Self::Error> {
        if value == 0 {
            Ok(RestStatus::Short)
        } else if value == 1 {
            Ok(RestStatus::Medium)
        } else if value == 2 {
            Ok(RestStatus::Long)
        } else if value == 3 {
            Ok(RestStatus::Off)
        } else {
            Err(StatusError::InvalidRest(value))
        }
    }
}

impl TryFrom<i32> for FanStatus {
    type Error = StatusError;

    fn try_from(value: i32) -> (r: Result<Self, Self::Error>) {
        if value == 0 {
            Ok(FanStatus::Auto)
        } else if value == 1 {
            Ok(FanStatus::On)
        } else {
            Err(StatusError::InvalidFan(value))
        }
    }
}

impl TryFromSpecImpl<i32> for FanStatus {
    open spec fn obeys_try_from_spec() -> bool {
        true
    }

    /// The setting that `value` names, counted from zero in the order of declaration.
    open spec fn try_from_spec(value: i32) -> Result<Self, Self::Error> {
        if value == 0 {
            Ok(FanStatus::Auto)
        } else if value == 1 {
            Ok(FanStatus::On)
        } else {
            Err(StatusError::InvalidFan(value))
        }
    }
}

} // verus!
