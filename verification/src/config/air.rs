use std::collections::HashMap;
use vstd::prelude::*;

verus! {

/// The sampling of the air sensors.
#[derive(Debug, Clone, PartialEq, Eq)]
pub struct AirSampleConfig {
    /// The rate in which the air sensors are sampled in seconds.
    pub sample_rate_secs: u64,
    /// The air sensors in use, by label.
    pub sensors: HashMap<String, AirSensorConfig>,
}

/// An air sensor on the I2C bus.
#[derive(Debug, Clone, Copy, PartialEq, Eq, Structural)]
pub struct AirSensorConfig {
    /// The type of the air sensor.
    pub model: AirSensorModel,
    /// The address of the air sensor.
    pub address: u8,
}

/// The supported air sensors.
#[derive(Debug, Clone, Copy, PartialEq, Eq, Structural)]
pub enum AirSensorModel {
    Bme680,
}

impl Default for AirSampleConfig {
    fn default() -> (r: AirSampleConfig)
        ensures
            r.sample_rate_secs == 0,
            r.sensors@ == Map::<String, AirSensorConfig>::empty(),
    {
        AirSampleConfig { sample_rate_secs: 0, sensors: HashMap::new() }
    }
}

} // verus!
