use grow_agent::gpio::GpioState;
use grow_agent::measure::Comparator::{Gt, GtEq, Lt, LtEq};
use grow_agent::measure::{
    is_exceeded, threshold_decision, AirField, Comparator, MeasureError, ThresholdControl,
    WaterLevelCondition, WaterLevelField, WaterLevelMeasurement, WaterLevelThreshold,
};

fn cond(comparator: Comparator, value: u32) -> WaterLevelCondition {
    WaterLevelCondition {
        field: WaterLevelField::Distance,
        comparator,
        value,
    }
}

fn thres(activate: WaterLevelCondition, deactivate: WaterLevelCondition) -> WaterLevelThreshold {
    WaterLevelThreshold {
        activate_condition: activate,
        deactivate_condition: deactivate,
    }
}

/// The thresholds "distance >= 250" / "distance < 100" and so on, written
/// out as conditions.
fn water_level_thresholds() -> (
    Vec<WaterLevelThreshold>,
    Vec<WaterLevelThreshold>,
    Vec<WaterLevelThreshold>,
) {
    let activate_thres = vec![
        thres(cond(GtEq, 250), cond(Lt, 100)),
        thres(cond(Lt, 251), cond(LtEq, 200)),
        thres(cond(LtEq, 2510), cond(GtEq, 776)),
        thres(cond(Gt, 201), cond(Lt, 100)),
    ];

    let deactivate_thres = vec![
        thres(cond(GtEq, 250), cond(Lt, 300)),
        thres(cond(Lt, 100), cond(LtEq, 250)),
    ];

    let neutral_thres = vec![
        thres(cond(GtEq, 2510), cond(GtEq, 776)),
        thres(cond(Gt, 251), cond(Lt, 100)),
    ];

    (activate_thres, deactivate_thres, neutral_thres)
}

#[test]
fn desired_water_level_state_ok() {
    let meas = [
        WaterLevelMeasurement {
            measure_time: 0,
            label: String::new(),
            distance: Some(200),
        },
        WaterLevelMeasurement {
            measure_time: 0,
            label: String::new(),
            distance: Some(300),
        },
        WaterLevelMeasurement {
            measure_time: 0,
            label: String::new(),
            distance: None,
        },
    ];

    let check_thresholds = |thresholds: &[WaterLevelThreshold], expected: Option<GpioState>| {
        for t in thresholds {
            assert_eq!(
                WaterLevelMeasurement::desired_state(&meas, t).unwrap(),
                expected
            );
        }
    };

    let thresholds = water_level_thresholds();
    check_thresholds(&thresholds.0, Some(GpioState::Activated));
    check_thresholds(&thresholds.1, Some(GpioState::Deactivated));
    check_thresholds(&thresholds.2, None);
}

#[test]
fn desired_water_level_state_err() {
    let meas = [WaterLevelMeasurement {
        measure_time: 0,
        label: String::new(),
        distance: None,
    }];

    let check_thresholds = |thresholds: &[WaterLevelThreshold]| {
        for t in thresholds {
            assert!(WaterLevelMeasurement::desired_state(&meas, t).is_err());
        }
    };

    let thresholds = water_level_thresholds();
    check_thresholds(&thresholds.0);
    check_thresholds(&thresholds.1);
    check_thresholds(&thresholds.2);
}

#[test]
fn average_distance_rounds_down() {
    let meas = [
        WaterLevelMeasurement::new(1, "a".to_string()).distance(10),
        WaterLevelMeasurement::new(2, "b".to_string()),
        WaterLevelMeasurement::new(3, "c".to_string()).distance(13),
    ];
    assert_eq!(
        WaterLevelMeasurement::average_field(&meas, &WaterLevelField::Distance),
        Ok(11)
    );
}

#[test]
fn average_distance_without_values_names_the_field() {
    let meas: [WaterLevelMeasurement; 0] = [];
    assert_eq!(
        WaterLevelMeasurement::average_field(&meas, &WaterLevelField::Distance),
        Err(MeasureError::FieldNone("distance".to_string()))
    );
}

#[test]
fn deactivation_wins_over_activation() {
    let meas = [WaterLevelMeasurement::new(0, String::new()).distance(500)];
    let t = thres(cond(Comparator::Gt, 100), cond(Comparator::Gt, 400));
    assert_eq!(
        WaterLevelMeasurement::desired_state(&meas, &t),
        Ok(Some(GpioState::Deactivated))
    );
}

#[test]
fn threshold_decision_table() {
    assert_eq!(threshold_decision(true, true), Some(GpioState::Deactivated));
    assert_eq!(threshold_decision(true, false), Some(GpioState::Deactivated));
    assert_eq!(threshold_decision(false, true), Some(GpioState::Activated));
    assert_eq!(threshold_decision(false, false), None);
}

#[test]
fn comparators() {
    assert!(is_exceeded(5, &Comparator::Lt, 4));
    assert!(!is_exceeded(5, &Comparator::Lt, 5));
    assert!(is_exceeded(5, &Comparator::LtEq, 5));
    assert!(is_exceeded(5, &Comparator::Gt, 6));
    assert!(!is_exceeded(5, &Comparator::Gt, 5));
    assert!(is_exceeded(5, &Comparator::GtEq, 5));
}

#[test]
fn air_field_names() {
    for field in [
        AirField::Humidity,
        AirField::Pressure,
        AirField::Resistance,
        AirField::Temperature,
    ] {
        assert_eq!(AirField::from_str(field.as_str()), Ok(field));
    }
    assert_eq!(AirField::Resistance.as_str(), "resistance");
    assert_eq!(
        AirField::from_str("distance"),
        Err(MeasureError::UnknownField("distance".to_string()))
    );
}

#[test]
fn water_level_field_names() {
    assert_eq!(WaterLevelField::Distance.as_str(), "distance");
    assert_eq!(
        WaterLevelField::from_str("distance"),
        Ok(WaterLevelField::Distance)
    );
    assert_eq!(
        WaterLevelField::from_str("humidity"),
        Err(MeasureError::UnknownField("humidity".to_string()))
    );
}
