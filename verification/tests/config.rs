use grow_agent::config::air::AirSampleConfig;
use grow_agent::config::control::ControlConfig;
use grow_agent::config::sample::SampleConfig;
use grow_agent::config::{default_gpio_path, default_grow_id, default_i2c_path, Config};
use grow_agent::time::{Span, TimeOfDay};

#[test]
fn default_config() {
    let c = Config::default();
    assert_eq!(c.i2c_path, "/dev/i2c-1");
    assert_eq!(c.gpio_path, "/dev/gpiochip0");
    assert_eq!(c.grow_id, "grow");
    assert_eq!(c.air.control, ControlConfig::Off);
    assert_eq!(c.air.sample, SampleConfig::Off);
    assert_eq!(c.air_pump.control, ControlConfig::Off);
    assert_eq!(c.fan.control, ControlConfig::Off);
    assert_eq!(c.light.control, ControlConfig::Off);
    assert_eq!(c.light.sample, SampleConfig::Off);
    assert_eq!(c.water_level.control, ControlConfig::Off);
    assert_eq!(c.water_level.sample, SampleConfig::Off);
    assert_eq!(default_i2c_path(), "/dev/i2c-1");
    assert_eq!(default_gpio_path(), "/dev/gpiochip0");
    assert_eq!(default_grow_id(), "grow");
}

#[test]
fn enabled() {
    assert!(!ControlConfig::Off.is_enabled());
    assert!(ControlConfig::Cyclic {
        pin: 25,
        on_duration: Span::from_secs(1),
        off_duration: Span::from_secs(0),
    }
    .is_enabled());
    assert!(ControlConfig::TimeBased {
        pin: 6,
        activate_time: TimeOfDay::new(36_000, 0).unwrap(),
        deactivate_time: TimeOfDay::new(14_400, 0).unwrap(),
    }
    .is_enabled());
    assert!(ControlConfig::Feedback {
        pin: 17,
        activate_condition: "distance > 8".into(),
        deactivate_condition: "distance < 3".into(),
    }
    .is_enabled());
    assert!(!SampleConfig::Off.is_enabled());
    assert!(SampleConfig::Interval {
        period: Span::from_secs(1800),
        script_path: "/foo/bar/script.py".into(),
    }
    .is_enabled());
    assert_eq!(ControlConfig::default(), ControlConfig::Off);
    assert_eq!(SampleConfig::default(), SampleConfig::Off);
}

#[test]
fn default_sample_configs_are_empty() {
    let a = AirSampleConfig::default();
    assert_eq!(a.sample_rate_secs, 0);
    assert!(a.sensors.is_empty());
}
