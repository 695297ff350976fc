use std::collections::HashMap;
use vstd::prelude::*;

verus! {

/// The sampling of the light sensors.
#[derive(Debug, Clone, PartialEq, Eq)]
pub struct LightSampleConfig {
    /// The rate in which the light sensors take measurements in seconds.
    pub sample_rate_secs: u64,
    /// The light sensors in use, by label.
    pub sensors: HashMap<String, LightSensorConfig>,
}

/// A light sensor on the I2C bus.
#[derive(Debug, Clone, Copy, PartialEq, Eq, Structural)]
pub struct LightSensorConfig {
    /// The type of the light sensor.
    pub model: LightSensorModel,
    /// The address of the light sensor.
    pub address: u8,
}

/// The supported light sensors.
#[derive(Debug, Clone, Copy, PartialEq, Eq, Structural)]
pub enum LightSensorModel {
    Bh1750Fvi,
}

impl Default for LightSampleConfig {
    fn default() -> (r: LightSampleConfig)
        ensures
            r.sample_rate_secs == 0,
            r.sensors@ == Map::<String, LightSensorConfig>::empty(),
    {
        LightSampleConfig { sample_rate_secs: 0, sensors: HashMap::new() }
    }
}

} // verus!
