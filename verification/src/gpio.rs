use vstd::prelude::*;

verus! {

/// The logical state of a control pin.
#[derive(Debug, Clone, Copy, PartialEq, Eq, PartialOrd, Ord, Structural)]
pub enum GpioState {
    Activated,
    Deactivated,
}

/// The line value that drives a pin into the given state.
pub open spec fn spec_to_value(state: GpioState) -> u8 {
    match state {
        GpioState::Activated => 1,
        GpioState::Deactivated => 0,
    }
}

/// The state that a read line value stands for: only `1` means activated.
pub open spec fn spec_from_value(value: u8) -> GpioState {
    if value == 1 {
        GpioState::Activated
    } else {
        GpioState::Deactivated
    }
}

/// The opposite state.
pub open spec fn spec_toggle(state: GpioState) -> GpioState {
    match state {
        GpioState::Activated => GpioState::Deactivated,
        GpioState::Deactivated => GpioState::Activated,
    }
}

impl GpioState {
    /// The verb that describes the transition into this state.
    pub fn as_str(&self) -> (s: &'static str)
        ensures
            *self == GpioState::Activated ==> s@ == "Activating"@,
            *self == GpioState::Deactivated ==> s@ == "Deactivating"@,
    {
        match self {
            GpioState::Activated => "Activating",
            GpioState::Deactivated => "Deactivating",
        }
    }

    pub fn from_value(value: u8) -> (state: Self)
        ensures
            state == spec_from_value(value),
            state == GpioState::Activated <==> value == 1,
    {
        if value == 1 {
            return GpioState::Activated;
        }
        GpioState::Deactivated
    }

    pub fn to_value(&self) -> (value: u8)
        ensures
            value == spec_to_value(*self),
            *self == GpioState::Activated ==> value == 1,
            *self == GpioState::Deactivated ==> value == 0,
    {
        match self {
            GpioState::Activated => 1,
            GpioState::Deactivated => 0,
        }
    }

    pub fn toggle(&self) -> (state: Self)
        ensures
            state == spec_toggle(*self),
            state != *self,
    {
        match self {
            GpioState::Activated => GpioState::Deactivated,
            GpioState::Deactivated => GpioState::Activated,
        }
    }
}

/// Toggling twice gives the original state back, and toggling never keeps it.
pub proof fn lemma_toggle_involution(state: GpioState)
    ensures
        spec_toggle(spec_toggle(state)) == state,
        spec_toggle(state) != state,
{
}

/// Writing a state to a line and reading the line back gives the same state,
/// and the written value is always `0` or `1`.
pub proof fn lemma_value_round_trip(state: GpioState)
    ensures
        spec_from_value(spec_to_value(state)) == state,
        spec_to_value(state) == 0 || spec_to_value(state) == 1,
{
}

} // verus!
