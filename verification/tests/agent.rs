use grow_agent::agent::{config_file_path, first_systemd_dir, init_controller, store_url, ControllerPlan};
use grow_agent::config::control::ControlConfig;
use grow_agent::control::{ControlError, CyclicController};
use grow_agent::time::{Span, TimeOfDay};

#[test]
fn systemd_dirs() {
    assert_eq!(first_systemd_dir("/var/lib/grow:/var/lib/other"), "/var/lib/grow");
    assert_eq!(first_systemd_dir("/var/lib/grow"), "/var/lib/grow");
    assert_eq!(first_systemd_dir(""), "");
    assert_eq!(first_systemd_dir(":a"), "");
}

#[test]
fn paths() {
    assert_eq!(config_file_path("/etc/grow"), "/etc/grow/config.json");
    assert_eq!(
        store_url("/var/lib/grow", "tomatoes"),
        "sqlite:///var/lib/grow/tomatoes.sqlite3"
    );
}

#[test]
fn controller_plans() {
    assert_eq!(init_controller(&ControlConfig::Off), Ok(None));
    assert_eq!(
        init_controller(&ControlConfig::Cyclic {
            pin: 23,
            on_duration: Span::from_secs(100),
            off_duration: Span::from_secs(864_000),
        }),
        Ok(Some(ControllerPlan::Cyclic {
            pin: 23,
            cyclic: CyclicController::new(Span::from_secs(100), Span::from_secs(864_000)),
        }))
    );
    assert_eq!(
        init_controller(&ControlConfig::Feedback {
            pin: 17,
            activate_condition: "distance > 8".into(),
            deactivate_condition: "distance < 3".into(),
        }),
        Err(ControlError::FeedbackUnsupported)
    );
    let ten = TimeOfDay::new(36_000, 0).unwrap();
    let four = TimeOfDay::new(14_400, 0).unwrap();
    assert_eq!(
        init_controller(&ControlConfig::TimeBased {
            pin: 6,
            activate_time: ten,
            deactivate_time: ten,
        }),
        Err(ControlError::EqualSwitchTimes)
    );
    match init_controller(&ControlConfig::TimeBased {
        pin: 6,
        activate_time: ten,
        deactivate_time: four,
    }) {
        Ok(Some(ControllerPlan::TimeBased { pin, .. })) => assert_eq!(pin, 6),
        other => panic!("unexpected plan {other:?}"),
    }
}
