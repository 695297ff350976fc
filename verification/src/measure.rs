use vstd::prelude::*;

use crate::gpio::GpioState;
use crate::text::same_text;

verus! {

/// Why measurements could not be evaluated.
#[derive(Debug, Clone, PartialEq, Eq)]
pub enum MeasureError {
    /// The name of a field that no measurement has.
    UnknownField(String),
    /// None of the measurements holds a value for the named field.
    FieldNone(String),
}

/// A field of an air measurement.
#[derive(Debug, Clone, Copy, PartialEq, Eq, Structural)]
pub enum AirField {
    Humidity,
    Pressure,
    Resistance,
    Temperature,
}

/// The name of an air field.
pub open spec fn air_field_name(field: AirField) -> Seq<char> {
    match field {
        AirField::Humidity => "humidity"@,
        AirField::Pressure => "pressure"@,
        AirField::Resistance => "resistance"@,
        AirField::Temperature => "temperature"@,
    }
}

/// The air field a name stands for, if any.
pub open spec fn parse_air_field(s: Seq<char>) -> Option<AirField> {
    if s == "humidity"@ {
        Some(AirField::Humidity)
    } else if s == "pressure"@ {
        Some(AirField::Pressure)
    } else if s == "resistance"@ {
        Some(AirField::Resistance)
    } else if s == "temperature"@ {
        Some(AirField::Temperature)
    } else {
        None
    }
}

impl AirField {
    pub fn as_str(&self) -> (s: &'static str)
        ensures
            s@ == air_field_name(*self),
    {
        match self {
            AirField::Humidity => "humidity",
            AirField::Pressure => "pressure",
            AirField::Resistance => "resistance",
            AirField::Temperature => "temperature",
        }
    }

    /// The field named `s`.
    pub fn from_str(s: &str) -> (r: Result<AirField, MeasureError>)
        ensures
            r matches Ok(f) ==> parse_air_field(s@) == Some(f),
            r is Err <==> parse_air_field(s@) is None,
            r matches Err(e) ==> e matches MeasureError::UnknownField(t) && t@ == s@,
    {
        if same_text(s, "humidity") {
            Ok(AirField::Humidity)
        } else if same_text(s, "pressure") {
            Ok(AirField::Pressure)
        } else if same_text(s, "resistance") {
            Ok(AirField::Resistance)
        } else if same_text(s, "temperature") {
            Ok(AirField::Temperature)
        } else {
            Err(MeasureError::UnknownField(s.to_owned()))
        }
    }
}

/// Every air field is parsed back from its own name, and a parsed name is the
/// name of the field it gives.
pub proof fn lemma_air_field_round_trip(field: AirField, s: Seq<char>)
    ensures
        parse_air_field(air_field_name(field)) == Some(field),
        parse_air_field(s) matches Some(f) ==> air_field_name(f) == s,
{
    reveal_strlit("humidity");
    reveal_strlit("pressure");
    reveal_strlit("resistance");
    reveal_strlit("temperature");
    assert("humidity"@[0] == 'h');
    assert("pressure"@[0] == 'p');
    assert("resistance"@[0] == 'r');
    assert("temperature"@[0] == 't');
}

/// A field of a water level measurement.
#[derive(Debug, Clone, Copy, PartialEq, Eq, Structural)]
pub enum WaterLevelField {
    Distance,
}

/// The name of a water level field.
pub open spec fn water_level_field_name(field: WaterLevelField) -> Seq<char> {
    match field {
        WaterLevelField::Distance => "distance"@,
    }
}

impl WaterLevelField {
    pub fn as_str(&self) -> (s: &'static str)
        ensures
            s@ == water_level_field_name(*self),
    {
        match self {
            WaterLevelField::Distance => "distance",
        }
    }

    /// The field named `s`.
    pub fn from_str(s: &str) -> (r: Result<WaterLevelField, MeasureError>)
        ensures
            r is Ok <==> s@ == "distance"@,
            r matches Ok(f) ==> f == WaterLevelField::Distance,
            r matches Err(e) ==> e matches MeasureError::UnknownField(t) && t@ == s@,
    {
        if same_text(s, "distance") {
            Ok(WaterLevelField::Distance)
        } else {
            Err(MeasureError::UnknownField(s.to_owned()))
        }
    }
}

/// How a measured value is held against a threshold value.
#[derive(Debug, Clone, Copy, PartialEq, Eq, Structural)]
pub enum Comparator {
    Lt,
    LtEq,
    Gt,
    GtEq,
}

/// Whether `value` passes `threshold` in the sense of `comparator`.
pub open spec fn spec_is_exceeded(threshold: int, comparator: Comparator, value: int) -> bool {
    match comparator {
        Comparator::Lt => value < threshold,
        Comparator::LtEq => value <= threshold,
        Comparator::Gt => value > threshold,
        Comparator::GtEq => value >= threshold,
    }
}

/// Each comparator holds the value against the threshold as its name says:
/// below, at most, above, at least.
pub proof fn lemma_comparator_meaning(threshold: int, value: int)
    ensures
        spec_is_exceeded(threshold, Comparator::Lt, value) <==> value < threshold,
        spec_is_exceeded(threshold, Comparator::LtEq, value) <==> value <= threshold,
        spec_is_exceeded(threshold, Comparator::Gt, value) <==> value > threshold,
        spec_is_exceeded(threshold, Comparator::GtEq, value) <==> value >= threshold,
{
}

/// Whether `value` passes `threshold` in the sense of `comparator`.
pub fn is_exceeded(threshold: u32, comparator: &Comparator, value: u32) -> (r: bool)
    ensures
        r == spec_is_exceeded(threshold as int, *comparator, value as int),
        *comparator == Comparator::Lt ==> (r <==> value < threshold),
        *comparator == Comparator::LtEq ==> (r <==> value <= threshold),
        *comparator == Comparator::Gt ==> (r <==> value > threshold),
        *comparator == Comparator::GtEq ==> (r <==> value >= threshold),
{
    match comparator {
        Comparator::Lt => value < threshold,
        Comparator::LtEq => value <= threshold,
        Comparator::Gt => value > threshold,
        Comparator::GtEq => value >= threshold,
    }
}

/// The state a threshold asks for, given whether its deactivate and its
/// activate condition are passed: deactivation wins, and where neither is
/// passed the pin stays as it is.
pub fn threshold_decision(deactivate_passed: bool, activate_passed: bool) -> (r: Option<GpioState>)
    ensures
        deactivate_passed ==> r == Some(GpioState::Deactivated),
        !deactivate_passed && activate_passed ==> r == Some(GpioState::Activated),
        !deactivate_passed && !activate_passed ==> r is None,
{
    if deactivate_passed {
        return Some(GpioState::Deactivated);
    }
    if activate_passed {
        return Some(GpioState::Activated);
    }
    None
}

/// A condition on water level measurements: the average of `field` compared
/// with `value`.
#[derive(Debug, Clone, Copy, PartialEq, Eq, Structural)]
pub struct WaterLevelCondition {
    pub field: WaterLevelField,
    pub comparator: Comparator,
    pub value: u32,
}

/// The conditions that switch a pin by water level measurements.
#[derive(Debug, Clone, Copy, PartialEq, Eq, Structural)]
pub struct WaterLevelThreshold {
    pub activate_condition: WaterLevelCondition,
    pub deactivate_condition: WaterLevelCondition,
}

/// A single water level measurement.
#[derive(Debug, Clone, PartialEq, Eq)]
pub struct WaterLevelMeasurement {
    /// The number of seconds since unix epoch.
    pub measure_time: i64,
    /// The label of the sensor that took this measurement.
    pub label: String,
    /// The distance between the sensor and the water surface in mm.
    pub distance: Option<u32>,
}

impl WaterLevelMeasurement {
    /// A measurement without a distance.
    pub fn new(measure_time: i64, label: String) -> (m: WaterLevelMeasurement)
        ensures
            m.measure_time == measure_time,
            m.label == label,
            m.distance is None,
    {
        WaterLevelMeasurement { measure_time, label, distance: None }
    }

    /// The measurement with its distance set.
    pub fn distance(self, distance: u32) -> (m: WaterLevelMeasurement)
        ensures
            m.measure_time == self.measure_time,
            m.label == self.label,
            m.distance == Some(distance),
    {
        WaterLevelMeasurement { distance: Some(distance), ..self }
    }
}

/// The distances that the measurements hold, in order, skipping measurements
/// without one.
pub open spec fn distances(values: Seq<WaterLevelMeasurement>) -> Seq<u32>
    decreases values.len(),
{
    if values.len() == 0 {
        Seq::empty()
    } else {
        let rest = distances(values.drop_last());
        match values.last().distance {
            Some(d) => rest.push(d),
            None => rest,
        }
    }
}

/// The sum of a sequence of numbers.
pub open spec fn sum(s: Seq<u32>) -> int
    decreases s.len(),
{
    if s.len() == 0 {
        0
    } else {
        sum(s.drop_last()) + s.last()
    }
}

/// Whether the distances of `values` can be averaged without overflow: at
/// most `u16::MAX` of them, with a sum that fits in a `u32`.
pub open spec fn averageable(values: Seq<WaterLevelMeasurement>) -> bool {
    &&& distances(values).len() <= u16::MAX
    &&& sum(distances(values)) <= u32::MAX
}

/// The rounded down mean of the distances, where there is one.
pub open spec fn mean_distance(values: Seq<WaterLevelMeasurement>) -> Option<int> {
    if distances(values).len() == 0 {
        None
    } else {
        Some(sum(distances(values)) / (distances(values).len() as int))
    }
}

proof fn lemma_sum_prefix_bounded(s: Seq<u32>, i: int)
    requires
        0 <= i <= s.len(),
    ensures
        sum(s.take(i)) <= sum(s),
        0 <= sum(s.take(i)),
    decreases s.len() - i,
{
    if i < s.len() {
        lemma_sum_prefix_bounded(s, i + 1);
        assert(s.take(i + 1).drop_last() =~= s.take(i));
    } else {
        assert(s.take(i) =~= s);
    }
    lemma_sum_nonneg(s.take(i));
}

proof fn lemma_sum_nonneg(s: Seq<u32>)
    ensures
        sum(s) >= 0,
    decreases s.len(),
{
    if s.len() > 0 {
        lemma_sum_nonneg(s.drop_last());
    }
}

impl WaterLevelMeasurement {
    /// The rounded down mean of the values of `field` over the measurements
    /// that hold one, or an error where none does.
    pub fn average_field(values: &[WaterLevelMeasurement], field: &WaterLevelField) -> (r: Result<
        u32,
        MeasureError,
    >)
        requires
            averageable(values@),
        ensures
            r is Err <==> mean_distance(values@) is None,
            r matches Ok(v) ==> mean_distance(values@) == Some(v as int),
            r matches Err(e) ==> e matches MeasureError::FieldNone(t) && t@
                == water_level_field_name(*field),
    {
        // the count starts at one because the first value seeds the sum
        let mut len: u16 = 1;
        let mut acc: Option<u32> = None;
        let mut i: usize = 0;
        proof {
            lemma_sum_prefix_bounded(distances(values@), 0);
        }
        while i < values.len()
            invariant
                i <= values.len(),
                averageable(values@),
                distances(values@.take(i as int)).len() == 0 <==> acc is None,
                acc is None ==> len == 1,
                acc matches Some(a) ==> a == sum(distances(values@.take(i as int))) && len
                    == distances(values@.take(i as int)).len(),
                distances(values@.take(i as int)).len() <= distances(values@).len(),
                sum(distances(values@.take(i as int))) <= sum(distances(values@)),
            decreases values.len() - i,
        {
            let ghost prev = distances(values@.take(i as int));
            let ghost next = distances(values@.take(i + 1));
            proof {
                assert(values@.take(i + 1).drop_last() =~= values@.take(i as int));
                assert(values@.take(i + 1).last() == values@[i as int]);
                lemma_distances_prefix(values@, i + 1);
                lemma_sum_prefix_bounded(distances(values@), next.len() as int);
                if let Some(d) = values@[i as int].distance {
                    assert(next == prev.push(d));
                    assert(prev.push(d).drop_last() =~= prev);
                    assert(sum(next) == sum(prev) + d);
                } else {
                    assert(next == prev);
                }
            }
            match values[i].distance {
                Some(d) => {
                    match acc {
                        None => {
                            acc = Some(d);
                        },
                        Some(a) => {
                            len = len + 1;
                            acc = Some(a + d);
                        },
                    }
                },
                None => {},
            }
            i = i + 1;
        }
        assert(values@.take(values.len() as int) =~= values@);
        match acc {
            Some(a) => Ok(a / (len as u32)),
            None => Err(MeasureError::FieldNone(field.as_str().to_owned())),
        }
    }
}

/// Whether the distances of `values` can be averaged without overflow, so
/// that `average_field` and `desired_state` may be called on them.
pub fn is_averageable(values: &[WaterLevelMeasurement]) -> (r: bool)
    ensures
        r == averageable(values@),
{
    let mut count: u64 = 0;
    let mut total: u64 = 0;
    let mut i: usize = 0;
    while i < values.len()
        invariant
            i <= values.len(),
            count == distances(values@.take(i as int)).len(),
            total == sum(distances(values@.take(i as int))),
            count <= u16::MAX + 1,
            total <= u32::MAX + 1,
            distances(values@.take(i as int)).len() <= u16::MAX,
            sum(distances(values@.take(i as int))) <= u32::MAX,
        decreases values.len() - i,
    {
        let ghost prev = distances(values@.take(i as int));
        let ghost next = distances(values@.take(i + 1));
        proof {
            assert(values@.take(i + 1).drop_last() =~= values@.take(i as int));
            assert(values@.take(i + 1).last() == values@[i as int]);
            if let Some(d) = values@[i as int].distance {
                assert(next == prev.push(d));
                assert(prev.push(d).drop_last() =~= prev);
                assert(sum(next) == sum(prev) + d);
            } else {
                assert(next == prev);
            }
            lemma_distances_prefix(values@, i + 1);
            lemma_sum_prefix_bounded(distances(values@), next.len() as int);
            lemma_sum_nonneg(next);
        }
        if let Some(d) = values[i].distance {
            count = count + 1;
            total = total + (d as u64);
            if count > 65535 || total > 4294967295 {
                proof {
                    lemma_distances_prefix(values@, i + 1);
                    lemma_sum_prefix_bounded(distances(values@), next.len() as int);
                }
                return false;
            }
        }
        i = i + 1;
    }
    assert(values@.take(values.len() as int) =~= values@);
    true
}

/// The distances of a prefix of the measurements are a prefix of their
/// distances.
proof fn lemma_distances_prefix(values: Seq<WaterLevelMeasurement>, i: int)
    requires
        0 <= i <= values.len(),
    ensures
        distances(values.take(i)) == distances(values).take(distances(values.take(i)).len() as int),
        distances(values.take(i)).len() <= distances(values).len(),
    decreases values.len() - i,
{
    if i < values.len() {
        lemma_distances_prefix(values, i + 1);
        assert(values.take(i + 1).drop_last() =~= values.take(i));
        let a = distances(values.take(i));
        let b = distances(values.take(i + 1));
        assert(a =~= b.take(a.len() as int));
    } else {
        assert(values.take(i) =~= values);
        assert(distances(values).take(distances(values).len() as int) =~= distances(values));
    }
}

} // verus!

verus! {

/// Measurements that can switch a control pin by comparing averaged values
/// against a threshold.
pub trait ThresholdControl: Sized {
    type Threshold;

    /// Whether `values` lie within the range that the evaluation handles.
    spec fn evaluable(values: Seq<Self>) -> bool;

    /// The state the pin should take after `values` were measured, `None`
    /// where it should stay as it is.
    fn desired_state(values: &[Self], threshold: &Self::Threshold) -> Result<
        Option<GpioState>,
        MeasureError,
    >
        requires
            Self::evaluable(values@),
    ;
}

/// The outcome of evaluating water level measurements against a threshold:
/// `None` where no measurement holds a distance, otherwise the state to set
/// (if any). A passed deactivate condition wins over a passed activate
/// condition.
pub open spec fn spec_desired_water_level_state(
    values: Seq<WaterLevelMeasurement>,
    threshold: WaterLevelThreshold,
) -> Option<Option<GpioState>> {
    match mean_distance(values) {
        None => None,
        Some(mean) => {
            let ac = threshold.activate_condition;
            let dc = threshold.deactivate_condition;
            if spec_is_exceeded(dc.value as int, dc.comparator, mean) {
                Some(Some(GpioState::Deactivated))
            } else if spec_is_exceeded(ac.value as int, ac.comparator, mean) {
                Some(Some(GpioState::Activated))
            } else {
                Some(None)
            }
        },
    }
}

impl ThresholdControl for WaterLevelMeasurement {
    type Threshold = WaterLevelThreshold;

    open spec fn evaluable(values: Seq<WaterLevelMeasurement>) -> bool {
        averageable(values)
    }

    fn desired_state(values: &[WaterLevelMeasurement], threshold: &WaterLevelThreshold) -> (r:
        Result<Option<GpioState>, MeasureError>)
        ensures
            r is Err <==> spec_desired_water_level_state(values@, *threshold) is None,
            r matches Ok(s) ==> spec_desired_water_level_state(values@, *threshold) == Some(s),
            r matches Err(e) ==> e matches MeasureError::FieldNone(t) && t@ == "distance"@,
            r is Err <==> mean_distance(values@) is None,
            mean_distance(values@) matches Some(m) ==> (spec_is_exceeded(
                threshold.deactivate_condition.value as int,
                threshold.deactivate_condition.comparator,
                m,
            ) ==> r == Ok::<Option<GpioState>, MeasureError>(Some(GpioState::Deactivated))),
            mean_distance(values@) matches Some(m) ==> (!spec_is_exceeded(
                threshold.deactivate_condition.value as int,
                threshold.deactivate_condition.comparator,
                m,
            ) && spec_is_exceeded(
                threshold.activate_condition.value as int,
                threshold.activate_condition.comparator,
                m,
            ) ==> r == Ok::<Option<GpioState>, MeasureError>(Some(GpioState::Activated))),
            mean_distance(values@) matches Some(m) ==> (!spec_is_exceeded(
                threshold.deactivate_condition.value as int,
                threshold.deactivate_condition.comparator,
                m,
            ) && !spec_is_exceeded(
                threshold.activate_condition.value as int,
                threshold.activate_condition.comparator,
                m,
            ) ==> r == Ok::<Option<GpioState>, MeasureError>(None)),
    {
        let ac = &threshold.activate_condition;
        let dc = &threshold.deactivate_condition;
        let activate_value = WaterLevelMeasurement::average_field(values, &ac.field)?;
        let deactivate_value = WaterLevelMeasurement::average_field(values, &dc.field)?;
        let deactivate_passed = is_exceeded(dc.value, &dc.comparator, deactivate_value);
        let activate_passed = is_exceeded(ac.value, &ac.comparator, activate_value);
        Ok(threshold_decision(deactivate_passed, activate_passed))
    }
}

/// When the averaged distance passes both conditions, the deactivate
/// condition decides: the pin is deactivated.
pub proof fn lemma_deactivation_wins(values: Seq<WaterLevelMeasurement>, threshold: WaterLevelThreshold)
    requires
        mean_distance(values) is Some,
        spec_is_exceeded(
            threshold.deactivate_condition.value as int,
            threshold.deactivate_condition.comparator,
            mean_distance(values)->0,
        ),
    ensures
        spec_desired_water_level_state(values, threshold) == Some(Some(GpioState::Deactivated)),
{
}

/// The whole decision on water level measurements, over the rounded down
/// mean of all their distances: none without a distance; otherwise a passed
/// deactivate condition deactivates, else a passed activate condition
/// activates, else the pin is left as it is.
pub proof fn lemma_water_level_decision_table(
    values: Seq<WaterLevelMeasurement>,
    threshold: WaterLevelThreshold,
)
    ensures
        distances(values).len() == 0 ==> spec_desired_water_level_state(values, threshold) is None,
        distances(values).len() > 0 ==> ({
            let mean = sum(distances(values)) / (distances(values).len() as int);
            let dc = threshold.deactivate_condition;
            let ac = threshold.activate_condition;
            &&& spec_is_exceeded(dc.value as int, dc.comparator, mean) ==> spec_desired_water_level_state(values, threshold)
                == Some(Some(GpioState::Deactivated))
            &&& !spec_is_exceeded(dc.value as int, dc.comparator, mean) && spec_is_exceeded(
                ac.value as int,
                ac.comparator,
                mean,
            ) ==> spec_desired_water_level_state(values, threshold) == Some(
                Some(GpioState::Activated),
            )
            &&& !spec_is_exceeded(dc.value as int, dc.comparator, mean) && !spec_is_exceeded(
                ac.value as int,
                ac.comparator,
                mean,
            ) ==> spec_desired_water_level_state(values, threshold) == Some(None::<GpioState>)
        }),
{
}

/// The mean distance is the rounded down mean of all distances: the largest
/// number whose multiple by their count does not exceed their sum.
pub proof fn lemma_mean_distance_bounds(values: Seq<WaterLevelMeasurement>)
    ensures
        mean_distance(values) is None <==> distances(values).len() == 0,
        mean_distance(values) matches Some(m) ==> m * distances(values).len() <= sum(
            distances(values),
        ) < (m + 1) * distances(values).len(),
{
    let n = distances(values).len() as int;
    if n > 0 {
        let t = sum(distances(values));
        vstd::arithmetic::div_mod::lemma_fundamental_div_mod(t, n);
        vstd::arithmetic::mul::lemma_mul_is_commutative(n, t / n);
        vstd::arithmetic::mul::lemma_mul_is_distributive_add_other_way(n, t / n, 1);
        vstd::arithmetic::mul::lemma_mul_is_commutative(n, t / n + 1);
    }
}

/// Measurements without any distance cannot be evaluated, whatever the
/// threshold.
pub proof fn lemma_no_distance_no_decision(values: Seq<WaterLevelMeasurement>, threshold: WaterLevelThreshold)
    requires
        forall|i: int| 0 <= i < values.len() ==> (#[trigger] values[i]).distance is None,
    ensures
        spec_desired_water_level_state(values, threshold) is None,
{
    lemma_no_distance_empty(values);
}

proof fn lemma_no_distance_empty(values: Seq<WaterLevelMeasurement>)
    requires
        forall|i: int| 0 <= i < values.len() ==> (#[trigger] values[i]).distance is None,
    ensures
        distances(values).len() == 0,
    decreases values.len(),
{
    if values.len() > 0 {
        let rest = values.drop_last();
        assert forall|i: int| 0 <= i < rest.len() implies (#[trigger] rest[i]).distance is None by {
            assert(rest[i] == values[i]);
        }
        lemma_no_distance_empty(rest);
        assert(values.last() == values[values.len() - 1]);
    }
}

} // verus!
