//! Verified core of the grow agent: the decisions that drive the GPIO
//! control pins, the evaluation of measurements against thresholds, the
//! decoding of sensor calibration data and the configuration model.

pub mod gpio;
pub mod time;
pub mod control;
pub mod text;
pub mod measure;
pub mod bme680;
pub mod config;
pub mod agent;
pub mod sample;
pub mod manage;
pub mod hex;
pub mod vl53l0x;
