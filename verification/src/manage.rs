use vstd::prelude::*;

verus! {

/// The largest number of seconds that a chrono duration holds.
pub const MAX_DURATION_SECS: i64 = 9_223_372_036_854_775;

/// Settings of the circulation fan controller.
#[derive(Debug, Clone, Copy, PartialEq, Eq, Structural)]
pub struct FanControlArgs {
    /// Whether to disable the circulation fan controller.
    pub disable: bool,
    /// The gpio pin that switches the left circulation fan.
    pub pin_left: u8,
    /// The gpio pin that switches the right circulation fan.
    pub pin_right: u8,
    /// The seconds for which the fans run (0 means always stopped).
    pub on_duration_secs: i64,
    /// The seconds for which the fans are stopped (0 means always running).
    pub off_duration_secs: i64,
}

/// What a cyclic switch controller does with its pins.
#[derive(Debug, Clone, Copy, PartialEq, Eq, Structural)]
pub enum SwitchPlan {
    /// Leave the pins alone.
    Disabled,
    /// Drive both pins high for good.
    AlwaysOn,
    /// Drive both pins low for good.
    AlwaysOff,
    /// Start high and alternate, `on_secs` high and `off_secs` low.
    Cycle { on_secs: i64, off_secs: i64 },
}

/// The plan of a circulation fan controller: a disabled controller does
/// nothing, an empty off duration keeps the fans running, otherwise an empty
/// on duration keeps them stopped, otherwise they cycle.
pub open spec fn spec_fan_plan(args: FanControlArgs) -> SwitchPlan {
    if args.disable {
        SwitchPlan::Disabled
    } else if args.off_duration_secs == 0 {
        SwitchPlan::AlwaysOn
    } else if args.on_duration_secs == 0 {
        SwitchPlan::AlwaysOff
    } else {
        SwitchPlan::Cycle { on_secs: args.on_duration_secs, off_secs: args.off_duration_secs }
    }
}

impl FanControlArgs {
    /// How the controller drives the fans. Durations beyond what a chrono
    /// duration holds are not accepted.
    pub fn plan(&self) -> (r: SwitchPlan)
        requires
            self.disable || (-MAX_DURATION_SECS <= self.on_duration_secs <= MAX_DURATION_SECS
                && -MAX_DURATION_SECS <= self.off_duration_secs <= MAX_DURATION_SECS),
        ensures
            r == spec_fan_plan(*self),
            self.disable ==> r == SwitchPlan::Disabled,
            !self.disable && self.off_duration_secs == 0 ==> r == SwitchPlan::AlwaysOn,
            !self.disable && self.off_duration_secs != 0 && self.on_duration_secs == 0 ==> r
                == SwitchPlan::AlwaysOff,
            !self.disable && self.on_duration_secs != 0 && self.off_duration_secs != 0 ==> r == (
            SwitchPlan::Cycle { on_secs: self.on_duration_secs, off_secs: self.off_duration_secs }),
    {
        if self.disable {
            return SwitchPlan::Disabled;
        }
        if self.off_duration_secs == 0 {
            return SwitchPlan::AlwaysOn;
        }
        if self.on_duration_secs == 0 {
            return SwitchPlan::AlwaysOff;
        }
        SwitchPlan::Cycle { on_secs: self.on_duration_secs, off_secs: self.off_duration_secs }
    }
}

/// The pin settings of the exhaust fan controller.
#[derive(Debug, Clone, Copy, PartialEq, Eq, Structural)]
pub struct ExhaustControlArgs {
    /// The gpio pin that switches the exhaust fan.
    pub pin_slow: u8,
}

/// Settings of the exhaust fan manager.
#[derive(Debug, Clone, Copy, PartialEq, Eq, Structural)]
pub struct ExhaustArgs {
    /// Whether to disable the exhaust fan controller.
    pub disable: bool,
    pub control: ExhaustControlArgs,
    /// The seconds for which the exhaust fan runs (0 means always stopped).
    pub on_duration_secs: i64,
    /// The seconds for which the exhaust fan is stopped (0 means always
    /// running).
    pub off_duration_secs: i64,
}

/// The plan of the exhaust fan manager: a disabled manager does nothing, an
/// empty on duration keeps the fan stopped, otherwise an empty off duration
/// keeps it running, otherwise it cycles. Unlike the circulation fan, the on
/// duration is looked at first.
pub open spec fn spec_exhaust_plan(args: ExhaustArgs) -> SwitchPlan {
    if args.disable {
        SwitchPlan::Disabled
    } else if args.on_duration_secs == 0 {
        SwitchPlan::AlwaysOff
    } else if args.off_duration_secs == 0 {
        SwitchPlan::AlwaysOn
    } else {
        SwitchPlan::Cycle { on_secs: args.on_duration_secs, off_secs: args.off_duration_secs }
    }
}

impl ExhaustArgs {
    /// How the manager drives the exhaust fan. Durations beyond what a chrono
    /// duration holds are not accepted.
    pub fn plan(&self) -> (r: SwitchPlan)
        requires
            self.disable || (-MAX_DURATION_SECS <= self.on_duration_secs <= MAX_DURATION_SECS
                && -MAX_DURATION_SECS <= self.off_duration_secs <= MAX_DURATION_SECS),
        ensures
            r == spec_exhaust_plan(*self),
            self.disable ==> r == SwitchPlan::Disabled,
            !self.disable && self.on_duration_secs == 0 ==> r == SwitchPlan::AlwaysOff,
            !self.disable && self.on_duration_secs != 0 && self.off_duration_secs == 0 ==> r
                == SwitchPlan::AlwaysOn,
            !self.disable && self.on_duration_secs != 0 && self.off_duration_secs != 0 ==> r == (
            SwitchPlan::Cycle { on_secs: self.on_duration_secs, off_secs: self.off_duration_secs }),
    {
        if self.disable {
            return SwitchPlan::Disabled;
        }
        if self.on_duration_secs == 0 {
            return SwitchPlan::AlwaysOff;
        }
        if self.off_duration_secs == 0 {
            return SwitchPlan::AlwaysOn;
        }
        SwitchPlan::Cycle { on_secs: self.on_duration_secs, off_secs: self.off_duration_secs }
    }
}

/// As the settings document: a disabled exhaust fan is left alone; an enabled
/// one with an on duration of zero is always stopped, one with an off
/// duration of zero (and some on duration) always runs, and one with both
/// durations set runs for the on duration and stops for the off duration.
pub proof fn lemma_exhaust_plan_follows_docs(args: ExhaustArgs)
    ensures
        args.disable ==> spec_exhaust_plan(args) == SwitchPlan::Disabled,
        !args.disable && args.on_duration_secs == 0 ==> spec_exhaust_plan(args)
            == SwitchPlan::AlwaysOff,
        !args.disable && args.on_duration_secs != 0 && args.off_duration_secs == 0
            ==> spec_exhaust_plan(args) == SwitchPlan::AlwaysOn,
        !args.disable && args.on_duration_secs != 0 && args.off_duration_secs != 0
            ==> spec_exhaust_plan(args) == (SwitchPlan::Cycle {
            on_secs: args.on_duration_secs,
            off_secs: args.off_duration_secs,
        }),
{
}

/// As the settings document: disabled circulation fans are left alone;
/// enabled ones with an off duration of zero always run, ones with an on
/// duration of zero (and some off duration) are always stopped, and ones with
/// both durations set run for the on duration and stop for the off duration.
pub proof fn lemma_fan_plan_follows_docs(args: FanControlArgs)
    ensures
        args.disable ==> spec_fan_plan(args) == SwitchPlan::Disabled,
        !args.disable && args.off_duration_secs == 0 ==> spec_fan_plan(args)
            == SwitchPlan::AlwaysOn,
        !args.disable && args.off_duration_secs != 0 && args.on_duration_secs == 0
            ==> spec_fan_plan(args) == SwitchPlan::AlwaysOff,
        !args.disable && args.on_duration_secs != 0 && args.off_duration_secs != 0
            ==> spec_fan_plan(args) == (SwitchPlan::Cycle {
            on_secs: args.on_duration_secs,
            off_secs: args.off_duration_secs,
        }),
{
}

/// Settings of the pump controller.
#[derive(Debug, Clone, Copy, PartialEq, Eq, Structural)]
pub struct PumpControlArgs {
    /// Whether to disable the pump controller.
    pub disable: bool,
    /// The gpio pin that switches the left pump.
    pub pin_left: u8,
    /// The gpio pin that switches the right pump.
    pub pin_right: u8,
}

/// Settings of the pump manager.
#[derive(Debug, Clone, Copy, PartialEq, Eq, Structural)]
pub struct PumpArgs {
    /// Whether to disable the pump manager.
    pub disable: bool,
    /// The gpio pin that switches the left pump.
    pub pin_left: u8,
    /// The gpio pin that switches the right pump.
    pub pin_right: u8,
    /// The I2C address of the left water level sensor.
    pub sampler_addr_left: u8,
    /// The I2C address of the right water level sensor.
    pub sampler_addr_right: u8,
    /// The seconds between two water level samples.
    pub sample_interval_sec: u64,
}

/// Settings of the air pump.
#[derive(Debug, Clone, Copy, PartialEq, Eq, Structural)]
pub struct AirPumpArgs {
    /// Whether to disable the air pump.
    pub disable: bool,
    /// The gpio pin that switches the air pump.
    pub pin: u8,
}

/// Runs the air pump.
#[derive(Debug, Clone, Copy, PartialEq, Eq, Structural)]
pub struct AirPumpManager {}

} // verus!
