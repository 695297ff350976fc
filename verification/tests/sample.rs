use grow_agent::config::sample::SampleConfig;
use grow_agent::manage::{ExhaustArgs, ExhaustControlArgs, FanControlArgs, SwitchPlan};
use grow_agent::sample::{SampleError, Sampler};
use grow_agent::time::Span;

#[test]
fn sampler_period() {
    assert_eq!(
        Sampler::new(Span::from_secs(0), "/s.py".into()).unwrap_err(),
        SampleError::ZeroPeriod
    );
    let s = Sampler::new(Span { secs: 0, nanos: 1 }, "/s.py".into()).unwrap();
    assert_eq!(s.period(), Span { secs: 0, nanos: 1 });
    assert_eq!(s.script_path(), "/s.py");
}

#[test]
fn sampler_from_config() {
    assert_eq!(Sampler::from_config(&SampleConfig::Off), Ok(None));
    let s = Sampler::from_config(&SampleConfig::Interval {
        period: Span::from_secs(9000),
        script_path: "/some_script.py".into(),
    })
    .unwrap()
    .unwrap();
    assert_eq!(s.period(), Span::from_secs(9000));
    assert_eq!(
        Sampler::from_config(&SampleConfig::Interval {
            period: Span::from_secs(0),
            script_path: "/some_script.py".into(),
        }),
        Err(SampleError::ZeroPeriod)
    );
}

#[test]
fn fan_plans() {
    let args = |disable, on, off| FanControlArgs {
        disable,
        pin_left: 23,
        pin_right: 24,
        on_duration_secs: on,
        off_duration_secs: off,
    };
    assert_eq!(args(true, 1, 0).plan(), SwitchPlan::Disabled);
    assert_eq!(args(false, 1, 0).plan(), SwitchPlan::AlwaysOn);
    assert_eq!(args(false, 0, 0).plan(), SwitchPlan::AlwaysOn);
    assert_eq!(args(false, 0, 5).plan(), SwitchPlan::AlwaysOff);
    assert_eq!(
        args(false, 3, 5).plan(),
        SwitchPlan::Cycle {
            on_secs: 3,
            off_secs: 5
        }
    );
}

#[test]
fn exhaust_plans() {
    let args = |disable, on, off| ExhaustArgs {
        disable,
        control: ExhaustControlArgs { pin_slow: 25 },
        on_duration_secs: on,
        off_duration_secs: off,
    };
    assert_eq!(args(true, 0, 0).plan(), SwitchPlan::Disabled);
    assert_eq!(args(false, 0, 5).plan(), SwitchPlan::AlwaysOff);
    assert_eq!(args(false, 0, 0).plan(), SwitchPlan::AlwaysOff);
    assert_eq!(args(false, 1, 0).plan(), SwitchPlan::AlwaysOn);
    assert_eq!(
        args(false, 3, 5).plan(),
        SwitchPlan::Cycle {
            on_secs: 3,
            off_secs: 5
        }
    );
}
