use vstd::prelude::*;

verus! {

/// Nanoseconds in one second.
pub const NANOS_PER_SEC: u32 = 1_000_000_000;

/// Seconds in one day.
pub const SECS_PER_DAY: u32 = 86_400;

/// Nanoseconds in one day.
pub const NANOS_PER_DAY: i64 = 86_400_000_000_000;

/// Whether `secs` seconds after midnight plus `frac` nanoseconds name a time
/// of the day. A fraction of one second or more stands for a leap second and
/// is only allowed in the last second of a minute.
pub open spec fn valid_time_of_day(secs: int, frac: int) -> bool {
    &&& 0 <= secs < SECS_PER_DAY
    &&& 0 <= frac < 2 * NANOS_PER_SEC
    &&& frac >= NANOS_PER_SEC ==> secs % 60 == 59
}

/// A time of the day, as the number of seconds since midnight and the
/// nanoseconds within that second.
#[derive(Debug, Clone, Copy, PartialEq, Eq)]
pub struct TimeOfDay {
    secs: u32,
    frac: u32,
}

impl View for TimeOfDay {
    type V = (u32, u32);

    closed spec fn view(&self) -> (u32, u32) {
        (self.secs, self.frac)
    }
}

impl TimeOfDay {
    #[verifier::type_invariant]
    spec fn inv(self) -> bool {
        valid_time_of_day(self.secs as int, self.frac as int)
    }

    /// The time `secs` seconds and `frac` nanoseconds after midnight, if that
    /// names a time of the day.
    pub fn new(secs: u32, frac: u32) -> (r: Option<TimeOfDay>)
        ensures
            r is Some <==> valid_time_of_day(secs as int, frac as int),
            r matches Some(t) ==> t@ == (secs, frac),
    {
        if secs >= SECS_PER_DAY || frac >= 2 * NANOS_PER_SEC || (frac >= NANOS_PER_SEC && secs
            % 60 != 59) {
            None
        } else {
            Some(TimeOfDay { secs, frac })
        }
    }

    /// The whole seconds since midnight.
    pub fn secs(&self) -> (r: u32)
        ensures
            r == self@.0,
            valid_time_of_day(self@.0 as int, self@.1 as int),
    {
        proof {
            use_type_invariant(self);
        }
        self.secs
    }

    /// The nanoseconds within the current second (a leap second counts on).
    pub fn frac(&self) -> (r: u32)
        ensures
            r == self@.1,
            valid_time_of_day(self@.0 as int, self@.1 as int),
    {
        proof {
            use_type_invariant(self);
        }
        self.frac
    }
}

/// The signed distance in nanoseconds from `rhs` to `lhs`, both times of the
/// day given as (seconds since midnight, nanoseconds), as chrono counts it:
/// no leap second is assumed except one that either time itself stands in.
pub open spec fn signed_nanos_since(lhs: (u32, u32), rhs: (u32, u32)) -> int {
    let leap = if lhs.0 > rhs.0 && rhs.1 >= NANOS_PER_SEC {
        1int
    } else if lhs.0 < rhs.0 && lhs.1 >= NANOS_PER_SEC {
        -1int
    } else {
        0int
    };
    (lhs.0 - rhs.0 + leap) * NANOS_PER_SEC + (lhs.1 - rhs.1)
}

/// `chrono::NaiveTime::signed_duration_since`, counted in nanoseconds.
/// The contract restates the computation that chrono's source performs: the
/// difference of the seconds, corrected by one where one of the two times is
/// a leap second, then the difference of the fractions.
#[verifier::external_body]
fn chrono_signed_nanos_since(lhs: &TimeOfDay, rhs: &TimeOfDay) -> (r: i64)
    ensures
        r == signed_nanos_since(lhs@, rhs@),
{
    let l = chrono::NaiveTime::from_num_seconds_from_midnight_opt(lhs.secs, lhs.frac).unwrap();
    let r = chrono::NaiveTime::from_num_seconds_from_midnight_opt(rhs.secs, rhs.frac).unwrap();
    l.signed_duration_since(r).num_nanoseconds().unwrap()
}

/// Nanoseconds from `now` until the clock next shows `target`: the signed
/// distance, moved forward by one day where it is negative.
pub open spec fn nanos_until(target: (u32, u32), now: (u32, u32)) -> int {
    let d = signed_nanos_since(target, now);
    if d < 0 {
        d + NANOS_PER_DAY
    } else {
        d
    }
}

/// The nanoseconds from `now` until the clock next shows `target`.
pub fn until(target: &TimeOfDay, now: &TimeOfDay) -> (r: i64)
    ensures
        r == nanos_until(target@, now@),
        -NANOS_PER_DAY < r < 2 * NANOS_PER_DAY,
{
    let t_secs = target.secs();
    let n_secs = now.secs();
    let t_frac = target.frac();
    let n_frac = now.frac();
    let d = chrono_signed_nanos_since(target, now);
    assert(-NANOS_PER_DAY - 2 * NANOS_PER_SEC < d < NANOS_PER_DAY + 2 * NANOS_PER_SEC);
    if d < 0 {
        d + NANOS_PER_DAY
    } else {
        d
    }
}

/// A length of time, as whole seconds and the nanoseconds beyond them.
#[derive(Debug, Clone, Copy, PartialEq, Eq, Structural)]
pub struct Span {
    pub secs: u64,
    pub nanos: u32,
}

impl Span {
    /// The length in nanoseconds.
    pub open spec fn total_nanos(self) -> int {
        self.secs * NANOS_PER_SEC + self.nanos
    }

    /// Whether the span is empty.
    pub fn is_zero(&self) -> (r: bool)
        ensures
            r == (self.secs == 0 && self.nanos == 0),
    {
        self.secs == 0 && self.nanos == 0
    }

    /// A span of whole seconds.
    pub fn from_secs(secs: u64) -> (r: Span)
        ensures
            r == (Span { secs, nanos: 0 }),
    {
        Span { secs, nanos: 0 }
    }

    /// The span of `nanos` nanoseconds, or `None` where `nanos` is negative
    /// (a negative length has no span).
    pub fn from_signed_nanos(nanos: i64) -> (r: Option<Span>)
        ensures
            r is None <==> nanos < 0,
            r matches Some(s) ==> s.nanos < NANOS_PER_SEC && s.total_nanos() == nanos,
    {
        if nanos < 0 {
            None
        } else {
            let secs = (nanos / (NANOS_PER_SEC as i64)) as u64;
            let rest = (nanos % (NANOS_PER_SEC as i64)) as u32;
            Some(Span { secs, nanos: rest })
        }
    }
}

} // verus!
