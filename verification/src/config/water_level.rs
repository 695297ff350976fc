use std::collections::HashMap;
use vstd::prelude::*;

verus! {

/// The sampling of the water level sensors.
#[derive(Debug, Clone, PartialEq, Eq)]
pub struct WaterLevelSampleConfig {
    /// The rate in which the water level sensor takes measurements in seconds.
    pub sample_rate_secs: u64,
    /// The water level sensors in use, by label.
    pub sensors: HashMap<String, WaterLevelSensorConfig>,
}

/// A water level sensor on the I2C bus.
#[derive(Debug, Clone, Copy, PartialEq, Eq, Structural)]
pub struct WaterLevelSensorConfig {
    /// The model of the water level sensor.
    pub model: WaterLevelSensorModel,
    /// The address of the water level sensor.
    pub address: u8,
}

/// The supported water level sensors.
#[derive(Debug, Clone, Copy, PartialEq, Eq, Structural)]
pub enum WaterLevelSensorModel {
    Vl53L0X,
}

impl Default for WaterLevelSampleConfig {
    fn default() -> (r: WaterLevelSampleConfig)
        ensures
            r.sample_rate_secs == 0,
            r.sensors@ == Map::<String, WaterLevelSensorConfig>::empty(),
    {
        WaterLevelSampleConfig { sample_rate_secs: 0, sensors: HashMap::new() }
    }
}

} // verus!
