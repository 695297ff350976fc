use vstd::prelude::*;

use crate::time::{Span, TimeOfDay};

verus! {

/// How a control pin is driven.
#[derive(Debug, Clone, PartialEq, Eq)]
pub enum ControlConfig {
    /// Disabled control.
    Off,
    /// Cyclic activation and deactivation of the control pin.
    Cyclic {
        /// The GPIO pin used for control.
        pin: u32,
        /// How long the control pin is activated (empty means never).
        on_duration: Span,
        /// How long the control pin is deactivated (empty means never).
        off_duration: Span,
    },
    /// Activate and deactivate the control pin based on time stamps.
    TimeBased {
        /// The GPIO pin used for control.
        pin: u32,
        /// The time of the day when the control pin should be activated.
        activate_time: TimeOfDay,
        /// The time of the day when the control pin should be deactivated.
        deactivate_time: TimeOfDay,
    },
    /// Activate and deactivate the control pin based on measured values.
    Feedback {
        /// The GPIO pin used for control.
        pin: u32,
        /// The condition that activates the control pin.
        activate_condition: String,
        /// The condition that deactivates the control pin.
        deactivate_condition: String,
    },
}

impl ControlConfig {
    /// Whether any control takes place.
    pub fn is_enabled(&self) -> (r: bool)
        ensures
            r == !(*self is Off),
    {
        !matches!(self, ControlConfig::Off)
    }
}

impl Default for ControlConfig {
    fn default() -> (r: ControlConfig)
        ensures
            r is Off,
    {
        ControlConfig::Off
    }
}

} // verus!
