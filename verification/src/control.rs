use vstd::prelude::*;

use crate::gpio::{spec_from_value, spec_toggle, GpioState};
use crate::time::{nanos_until, until, Span, TimeOfDay, NANOS_PER_DAY, NANOS_PER_SEC};

verus! {

/// Why a controller could not be set up or driven.
#[derive(Debug, Clone, Copy, PartialEq, Eq, Structural)]
pub enum ControlError {
    /// A time based controller whose activate and deactivate times coincide.
    EqualSwitchTimes,
    /// A timeout that lies in the past and so cannot be slept for.
    NegativeTimeout,
    /// Feedback control was requested for a subject that has none.
    FeedbackUnsupported,
}

/// Switches a control pin on and off in a fixed rhythm: it stays activated
/// for `on_duration` and deactivated for `off_duration`. An empty
/// `off_duration` keeps the pin activated for good, an empty `on_duration`
/// keeps it deactivated for good.
#[derive(Debug, Clone, Copy, PartialEq, Eq, Structural)]
pub struct CyclicController {
    pub on_duration: Span,
    pub off_duration: Span,
}

/// The state a cyclic controller starts in, and whether it stays there.
pub open spec fn spec_initial_state(on: Span, off: Span) -> (GpioState, bool) {
    if off.secs == 0 && off.nanos == 0 {
        (GpioState::Activated, true)
    } else if on.secs == 0 && on.nanos == 0 {
        (GpioState::Deactivated, true)
    } else {
        (GpioState::Activated, false)
    }
}

/// How long a cyclic controller keeps the pin in `state`.
pub open spec fn spec_next_timeout(c: CyclicController, state: GpioState) -> Span {
    match state {
        GpioState::Activated => c.on_duration,
        GpioState::Deactivated => c.off_duration,
    }
}

/// What a cyclic controller does when its timeout runs out while the pin
/// reads `value`: it switches to the other state and waits for as long as
/// that state lasts.
pub open spec fn spec_state_after(c: CyclicController, value: u8) -> (GpioState, Span) {
    let state = spec_toggle(spec_from_value(value));
    (state, spec_next_timeout(c, state))
}

impl CyclicController {
    pub fn new(on_duration: Span, off_duration: Span) -> (c: CyclicController)
        ensures
            c.on_duration == on_duration,
            c.off_duration == off_duration,
    {
        CyclicController { on_duration, off_duration }
    }

    /// How long the pin stays in `state` before it is switched.
    pub fn next_timout(&self, state: GpioState) -> (r: Span)
        ensures
            r == spec_next_timeout(*self, state),
            state == GpioState::Activated ==> r == self.on_duration,
            state == GpioState::Deactivated ==> r == self.off_duration,
    {
        match state {
            GpioState::Activated => self.on_duration,
            GpioState::Deactivated => self.off_duration,
        }
    }

    /// The state the pin is set to first, and whether it is kept there for
    /// good rather than switched in a cycle.
    pub fn initial_state(&self) -> (r: (GpioState, bool))
        ensures
            r == spec_initial_state(self.on_duration, self.off_duration),
            self.off_duration.secs == 0 && self.off_duration.nanos == 0 ==> r == (
            GpioState::Activated, true),
            !(self.off_duration.secs == 0 && self.off_duration.nanos == 0) && self.on_duration.secs
                == 0 && self.on_duration.nanos == 0 ==> r == (GpioState::Deactivated, true),
            !(self.off_duration.secs == 0 && self.off_duration.nanos == 0) && !(
            self.on_duration.secs == 0 && self.on_duration.nanos == 0) ==> r == (
            GpioState::Activated, false),
    {
        if self.off_duration.is_zero() {
            (GpioState::Activated, true)
        } else if self.on_duration.is_zero() {
            (GpioState::Deactivated, true)
        } else {
            (GpioState::Activated, false)
        }
    }

    /// The next state and the time to keep it, once the timeout has run out
    /// and the pin reads `value`.
    pub fn state_after(&self, value: u8) -> (r: (GpioState, Span))
        ensures
            r == spec_state_after(*self, value),
            value == 1 ==> r == (GpioState::Deactivated, self.off_duration),
            value != 1 ==> r == (GpioState::Activated, self.on_duration),
    {
        let state = GpioState::from_value(value).toggle();
        let timeout = self.next_timout(state);
        (state, timeout)
    }
}

/// A cyclic controller that is not kept in one state alternates: starting
/// from any state, one switch leads to the other state for that state's
/// duration, and a second switch leads back, so that a full cycle lasts
/// `on_duration` plus `off_duration`.
pub proof fn lemma_cyclic_alternates(c: CyclicController, state: GpioState)
    ensures
        spec_state_after(c, crate::gpio::spec_to_value(state)).0 == spec_toggle(state),
        spec_state_after(c, crate::gpio::spec_to_value(spec_state_after(c, crate::gpio::spec_to_value(state)).0)).0
            == state,
        spec_state_after(c, crate::gpio::spec_to_value(state)).1.total_nanos()
            + spec_state_after(c, crate::gpio::spec_to_value(spec_state_after(c, crate::gpio::spec_to_value(state)).0)).1.total_nanos()
            == c.on_duration.total_nanos() + c.off_duration.total_nanos(),
{
}

/// A cyclic controller keeps the pin activated for its on duration and
/// deactivated for its off duration: a pin that read high is switched off for
/// the off duration, any other reading is switched on for the on duration.
pub proof fn lemma_cyclic_durations(c: CyclicController, value: u8)
    ensures
        spec_next_timeout(c, GpioState::Activated) == c.on_duration,
        spec_next_timeout(c, GpioState::Deactivated) == c.off_duration,
        value == 1 ==> spec_state_after(c, value) == (GpioState::Deactivated, c.off_duration),
        value != 1 ==> spec_state_after(c, value) == (GpioState::Activated, c.on_duration),
{
}

/// A cyclic controller is kept in one state exactly when one of its durations
/// is empty; an empty off duration means always on, otherwise an empty on
/// duration means always off. A cycling controller starts activated.
pub proof fn lemma_cyclic_permanence(c: CyclicController)
    ensures
        spec_initial_state(c.on_duration, c.off_duration).1 <==> (c.off_duration.total_nanos() == 0
            || c.on_duration.total_nanos() == 0),
        c.off_duration.total_nanos() == 0 ==> spec_initial_state(c.on_duration, c.off_duration).0
            == GpioState::Activated,
        c.off_duration.total_nanos() != 0 && c.on_duration.total_nanos() == 0
            ==> spec_initial_state(c.on_duration, c.off_duration).0 == GpioState::Deactivated,
        !spec_initial_state(c.on_duration, c.off_duration).1 ==> spec_initial_state(
            c.on_duration,
            c.off_duration,
        ).0 == GpioState::Activated,
{
}

/// Switches a control pin by the clock: it is activated at `activate_time`
/// and deactivated at `deactivate_time` every day.
#[derive(Debug, Clone, Copy, PartialEq, Eq)]
pub struct TimeBasedController {
    activate_time: TimeOfDay,
    deactivate_time: TimeOfDay,
}

/// The switch times of a time based controller, as (seconds, nanoseconds)
/// after midnight.
pub struct TimeBasedView {
    pub activate: (u32, u32),
    pub deactivate: (u32, u32),
}

impl View for TimeBasedController {
    type V = TimeBasedView;

    closed spec fn view(&self) -> TimeBasedView {
        TimeBasedView { activate: self.activate_time@, deactivate: self.deactivate_time@ }
    }
}

/// The state a time based controller sets now and the nanoseconds until it
/// switches next: if the activation comes first the pin is deactivated until
/// then, otherwise it is activated until the deactivation.
pub open spec fn spec_next_state_and_timeout(
    activate: (u32, u32),
    deactivate: (u32, u32),
    now: (u32, u32),
) -> (GpioState, int) {
    let until_on = nanos_until(activate, now);
    let until_off = nanos_until(deactivate, now);
    if until_on < until_off {
        (GpioState::Deactivated, until_on)
    } else {
        (GpioState::Activated, until_off)
    }
}

impl TimeBasedController {
    #[verifier::type_invariant]
    spec fn inv(self) -> bool {
        self.activate_time@ != self.deactivate_time@
    }

    /// A controller that activates at `activate_time` and deactivates at
    /// `deactivate_time`; the two times must differ.
    pub fn new(activate_time: TimeOfDay, deactivate_time: TimeOfDay) -> (r: Result<
        TimeBasedController,
        ControlError,
    >)
        ensures
            r is Err <==> activate_time@ == deactivate_time@,
            r matches Err(e) ==> e == ControlError::EqualSwitchTimes,
            r matches Ok(c) ==> c@.activate == activate_time@ && c@.deactivate
                == deactivate_time@,
    {
        let a_secs = activate_time.secs();
        let a_frac = activate_time.frac();
        let d_secs = deactivate_time.secs();
        let d_frac = deactivate_time.frac();
        if a_secs == d_secs && a_frac == d_frac {
            return Err(ControlError::EqualSwitchTimes);
        }
        Ok(TimeBasedController { activate_time, deactivate_time })
    }

    /// The state to set at `now` and the nanoseconds until the next switch.
    pub fn next_state_and_timeout(&self, now: &TimeOfDay) -> (r: (GpioState, i64))
        ensures
            r.0 == spec_next_state_and_timeout(self@.activate, self@.deactivate, now@).0,
            r.1 == spec_next_state_and_timeout(self@.activate, self@.deactivate, now@).1,
    {
        let until_on = until(&self.activate_time, now);
        let until_off = until(&self.deactivate_time, now);
        if until_on < until_off {
            (GpioState::Deactivated, until_on)
        } else {
            (GpioState::Activated, until_off)
        }
    }
}

/// The position of a time of the day on the clock, in nanoseconds since
/// midnight.
pub open spec fn clock_nanos(t: (u32, u32)) -> int {
    t.0 * NANOS_PER_SEC + t.1
}

/// Whether the clock position `now` lies in the daily window that opens after
/// `activate` and closes with `deactivate`; the window wraps past midnight
/// where `deactivate` comes before `activate`.
pub open spec fn in_active_window(activate: int, deactivate: int, now: int) -> bool {
    if activate < deactivate {
        activate < now <= deactivate
    } else {
        now > activate || now <= deactivate
    }
}

/// Away from leap seconds, a time based controller keeps the pin activated
/// exactly in the window from its activate time (exclusive) to its deactivate
/// time (inclusive), and the timeout it returns is the time until the clock
/// reaches the end of the current phase, less than one day.
pub proof fn lemma_time_based_window(activate: (u32, u32), deactivate: (u32, u32), now: (u32, u32))
    requires
        activate != deactivate,
        activate.0 < 86_400 && activate.1 < NANOS_PER_SEC,
        deactivate.0 < 86_400 && deactivate.1 < NANOS_PER_SEC,
        now.0 < 86_400 && now.1 < NANOS_PER_SEC,
    ensures
        (spec_next_state_and_timeout(activate, deactivate, now).0 == GpioState::Activated)
            <==> in_active_window(clock_nanos(activate), clock_nanos(deactivate), clock_nanos(now)),
        0 <= spec_next_state_and_timeout(activate, deactivate, now).1 < NANOS_PER_DAY,
        spec_next_state_and_timeout(activate, deactivate, now).0 == GpioState::Activated
            ==> spec_next_state_and_timeout(activate, deactivate, now).1 == nanos_until(deactivate, now),
        spec_next_state_and_timeout(activate, deactivate, now).0 == GpioState::Deactivated
            ==> spec_next_state_and_timeout(activate, deactivate, now).1 == nanos_until(activate, now),
{
    assert(clock_nanos(activate) != clock_nanos(deactivate));
}

/// The timeout to sleep for before the next switch, or an error where it lies
/// in the past.
pub fn timeout_span(nanos: i64) -> (r: Result<Span, ControlError>)
    ensures
        r is Err <==> nanos < 0,
        r matches Err(e) ==> e == ControlError::NegativeTimeout,
        r matches Ok(s) ==> s.total_nanos() == nanos && s.nanos < NANOS_PER_SEC,
{
    match Span::from_signed_nanos(nanos) {
        Some(s) => Ok(s),
        None => Err(ControlError::NegativeTimeout),
    }
}

} // verus!
