use grow_agent::control::{timeout_span, ControlError, CyclicController, TimeBasedController};
use grow_agent::gpio::GpioState;
use grow_agent::time::{Span, TimeOfDay};

const NANOS: i64 = 1_000_000_000;

fn hms(h: u32, m: u32, s: u32) -> TimeOfDay {
    TimeOfDay::new(h * 3600 + m * 60 + s, 0).unwrap()
}

#[test]
fn cyclic_initial_states() {
    let one = Span::from_secs(1);
    let zero = Span::from_secs(0);
    assert_eq!(
        CyclicController::new(one, zero).initial_state(),
        (GpioState::Activated, true)
    );
    assert_eq!(
        CyclicController::new(zero, one).initial_state(),
        (GpioState::Deactivated, true)
    );
    assert_eq!(
        CyclicController::new(zero, zero).initial_state(),
        (GpioState::Activated, true)
    );
    assert_eq!(
        CyclicController::new(one, one).initial_state(),
        (GpioState::Activated, false)
    );
}

#[test]
fn cyclic_alternates() {
    let c = CyclicController::new(Span::from_secs(90), Span::from_secs(7200));
    assert_eq!(c.state_after(1), (GpioState::Deactivated, Span::from_secs(7200)));
    assert_eq!(c.state_after(0), (GpioState::Activated, Span::from_secs(90)));
    assert_eq!(c.next_timout(GpioState::Activated), Span::from_secs(90));
    assert_eq!(c.next_timout(GpioState::Deactivated), Span::from_secs(7200));
}

#[test]
fn time_based_rejects_equal_times() {
    assert_eq!(
        TimeBasedController::new(hms(10, 0, 0), hms(10, 0, 0)),
        Err(ControlError::EqualSwitchTimes)
    );
}

#[test]
fn time_based_states() {
    // light on from 10:00 until 04:00 the next day
    let c = TimeBasedController::new(hms(10, 0, 0), hms(4, 0, 0)).unwrap();
    assert_eq!(
        c.next_state_and_timeout(&hms(12, 0, 0)),
        (GpioState::Activated, 16 * 3600 * NANOS)
    );
    assert_eq!(
        c.next_state_and_timeout(&hms(5, 0, 0)),
        (GpioState::Deactivated, 5 * 3600 * NANOS)
    );
    assert_eq!(
        c.next_state_and_timeout(&hms(2, 30, 0)),
        (GpioState::Activated, 90 * 60 * NANOS)
    );
    // at the switch times themselves
    assert_eq!(
        c.next_state_and_timeout(&hms(10, 0, 0)),
        (GpioState::Deactivated, 0)
    );
    assert_eq!(
        c.next_state_and_timeout(&hms(4, 0, 0)),
        (GpioState::Activated, 0)
    );
}

#[test]
fn time_based_states_same_day() {
    let c = TimeBasedController::new(hms(6, 0, 0), hms(18, 0, 0)).unwrap();
    assert_eq!(
        c.next_state_and_timeout(&hms(12, 0, 0)),
        (GpioState::Activated, 6 * 3600 * NANOS)
    );
    assert_eq!(
        c.next_state_and_timeout(&hms(20, 0, 0)),
        (GpioState::Deactivated, 10 * 3600 * NANOS)
    );
}

#[test]
fn timeouts() {
    assert_eq!(
        timeout_span(1_500_000_000),
        Ok(Span {
            secs: 1,
            nanos: 500_000_000
        })
    );
    assert_eq!(timeout_span(0), Ok(Span::from_secs(0)));
    assert_eq!(timeout_span(-1), Err(ControlError::NegativeTimeout));
}

#[test]
fn times_of_day() {
    assert!(TimeOfDay::new(86_399, 1_500_000_000).is_some());
    assert!(TimeOfDay::new(86_400, 0).is_none());
    assert!(TimeOfDay::new(100, 1_000_000_000).is_none());
    assert!(TimeOfDay::new(0, 2_000_000_000).is_none());
    let t = hms(23, 59, 59);
    assert_eq!((t.secs(), t.frac()), (86_399, 0));
}
