use vstd::prelude::*;

pub mod air;
pub mod control;
pub mod light;
pub mod sample;
pub mod water_level;

use control::ControlConfig;
use sample::SampleConfig;

verus! {

/// Control and sampling of the air.
#[derive(Debug, Clone, PartialEq, Eq)]
pub struct AirConfig {
    pub control: ControlConfig,
    pub sample: SampleConfig,
}

/// Control of the air pump.
#[derive(Debug, Clone, PartialEq, Eq)]
pub struct AirPumpConfig {
    pub control: ControlConfig,
}

/// Control of the circulation fan.
#[derive(Debug, Clone, PartialEq, Eq)]
pub struct FanConfig {
    pub control: ControlConfig,
}

/// Control and sampling of the light.
#[derive(Debug, Clone, PartialEq, Eq)]
pub struct LightConfig {
    pub control: ControlConfig,
    pub sample: SampleConfig,
}

/// Control and sampling of the water level.
#[derive(Debug, Clone, PartialEq, Eq)]
pub struct WaterLevelConfig {
    pub control: ControlConfig,
    pub sample: SampleConfig,
}

/// The configuration of the agent.
#[derive(Debug, Clone, PartialEq, Eq)]
pub struct Config {
    pub i2c_path: String,
    pub gpio_path: String,
    pub grow_id: String,
    pub air: AirConfig,
    pub air_pump: AirPumpConfig,
    pub fan: FanConfig,
    pub light: LightConfig,
    pub water_level: WaterLevelConfig,
}

impl Default for AirConfig {
    fn default() -> (r: AirConfig)
        ensures
            r.control is Off,
            r.sample is Off,
    {
        AirConfig { control: ControlConfig::Off, sample: SampleConfig::Off }
    }
}

impl Default for AirPumpConfig {
    fn default() -> (r: AirPumpConfig)
        ensures
            r.control is Off,
    {
        AirPumpConfig { control: ControlConfig::Off }
    }
}

impl Default for FanConfig {
    fn default() -> (r: FanConfig)
        ensures
            r.control is Off,
    {
        FanConfig { control: ControlConfig::Off }
    }
}

impl Default for LightConfig {
    fn default() -> (r: LightConfig)
        ensures
            r.control is Off,
            r.sample is Off,
    {
        LightConfig { control: ControlConfig::Off, sample: SampleConfig::Off }
    }
}

impl Default for WaterLevelConfig {
    fn default() -> (r: WaterLevelConfig)
        ensures
            r.control is Off,
            r.sample is Off,
    {
        WaterLevelConfig { control: ControlConfig::Off, sample: SampleConfig::Off }
    }
}

/// Whether `c` is the configuration that an empty configuration file gives:
/// the default device paths and grow id, and everything switched off.
pub open spec fn is_default_config(c: Config) -> bool {
    &&& c.i2c_path@ == "/dev/i2c-1"@
    &&& c.gpio_path@ == "/dev/gpiochip0"@
    &&& c.grow_id@ == "grow"@
    &&& c.air.control is Off
    &&& c.air.sample is Off
    &&& c.air_pump.control is Off
    &&& c.fan.control is Off
    &&& c.light.control is Off
    &&& c.light.sample is Off
    &&& c.water_level.control is Off
    &&& c.water_level.sample is Off
}

impl Default for Config {
    fn default() -> (r: Config)
        ensures
            is_default_config(r),
    {
        Config {
            i2c_path: default_i2c_path(),
            gpio_path: default_gpio_path(),
            grow_id: default_grow_id(),
            air: AirConfig::default(),
            air_pump: AirPumpConfig::default(),
            fan: FanConfig::default(),
            light: LightConfig::default(),
            water_level: WaterLevelConfig::default(),
        }
    }
}

/// The I2C bus device used where the configuration names none.
pub fn default_i2c_path() -> (r: String)
    ensures
        r@ == "/dev/i2c-1"@,
{
    "/dev/i2c-1".to_owned()
}

/// The GPIO chip device used where the configuration names none.
pub fn default_gpio_path() -> (r: String)
    ensures
        r@ == "/dev/gpiochip0"@,
{
    "/dev/gpiochip0".to_owned()
}

/// The grow id used where the configuration names none.
pub fn default_grow_id() -> (r: String)
    ensures
        r@ == "grow"@,
{
    "grow".to_owned()
}

} // verus!
