use vstd::prelude::*;

use crate::time::Span;

verus! {

/// How measurements are taken.
#[derive(Debug, Clone, PartialEq, Eq)]
pub enum SampleConfig {
    /// Disabled sampling.
    Off,
    /// Execute measurements in intervals with a fixed period of time in-between.
    Interval {
        /// The period between two measurements.
        period: Span,
        /// The path to the python script that takes the measurement.
        script_path: String,
    },
}

impl SampleConfig {
    /// Whether any sampling takes place.
    pub fn is_enabled(&self) -> (r: bool)
        ensures
            r == !(*self is Off),
    {
        !matches!(self, SampleConfig::Off)
    }
}

impl Default for SampleConfig {
    fn default() -> (r: SampleConfig)
        ensures
            r is Off,
    {
        SampleConfig::Off
    }
}

} // verus!
