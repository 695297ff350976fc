use chrono::NaiveTime;
use grow_agent::time::{until, Span, TimeOfDay, NANOS_PER_DAY};

fn chrono_until(target: (u32, u32), now: (u32, u32)) -> i64 {
    let t = NaiveTime::from_num_seconds_from_midnight_opt(target.0, target.1).unwrap();
    let n = NaiveTime::from_num_seconds_from_midnight_opt(now.0, now.1).unwrap();
    let d = t.signed_duration_since(n);
    let d = if d < chrono::Duration::zero() {
        d.checked_add(&chrono::Duration::days(1)).unwrap()
    } else {
        d
    };
    d.num_nanoseconds().unwrap()
}

#[test]
fn until_agrees_with_chrono() {
    let times = [
        (0, 0),
        (1, 5),
        (59, 1_500_000_000),
        (3_600, 999_999_999),
        (36_000, 0),
        (14_400, 0),
        (43_199, 1_999_999_999),
        (86_399, 0),
        (86_399, 1_000_000_000),
        (86_399, 1_999_999_999),
    ];
    for target in times {
        for now in times {
            let t = TimeOfDay::new(target.0, target.1).unwrap();
            let n = TimeOfDay::new(now.0, now.1).unwrap();
            assert_eq!(until(&t, &n), chrono_until(target, now), "{target:?} {now:?}");
        }
    }
}

#[test]
fn until_wraps_around_midnight() {
    let ten = TimeOfDay::new(36_000, 0).unwrap();
    let noon = TimeOfDay::new(43_200, 0).unwrap();
    assert_eq!(until(&ten, &noon), NANOS_PER_DAY - 2 * 3_600 * 1_000_000_000);
    assert_eq!(until(&noon, &ten), 2 * 3_600 * 1_000_000_000);
    assert_eq!(until(&noon, &noon), 0);
}

#[test]
fn spans() {
    assert!(Span::from_secs(0).is_zero());
    assert!(!Span { secs: 0, nanos: 1 }.is_zero());
    assert_eq!(
        Span::from_signed_nanos(2_000_000_001),
        Some(Span { secs: 2, nanos: 1 })
    );
    assert_eq!(Span::from_signed_nanos(-5), None);
}
