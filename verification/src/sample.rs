use vstd::prelude::*;

use crate::config::sample::SampleConfig;
use crate::time::Span;

verus! {

/// Why a sampler could not be set up.
#[derive(Debug, Clone, Copy, PartialEq, Eq, Structural)]
pub enum SampleError {
    /// Measurements cannot be taken without a pause in between.
    ZeroPeriod,
}

/// When and how measurements are triggered: every `period`, by the python
/// script at `script_path`.
#[derive(Debug, PartialEq, Eq)]
pub struct Sampler {
    period: Span,
    script_path: String,
}

impl Sampler {
    #[verifier::type_invariant]
    spec fn inv(self) -> bool {
        self.period.total_nanos() > 0
    }

    /// The period between two measurements.
    pub closed spec fn spec_period(self) -> Span {
        self.period
    }

    /// The path of the measuring script.
    pub closed spec fn spec_script_path(self) -> Seq<char> {
        self.script_path@
    }

    /// A sampler that measures every `period`; an empty period is refused.
    pub fn new(period: Span, script_path: String) -> (r: Result<Sampler, SampleError>)
        ensures
            r is Err <==> period.secs == 0 && period.nanos == 0,
            r matches Err(e) ==> e == SampleError::ZeroPeriod,
            r matches Ok(s) ==> s.spec_period() == period && s.spec_script_path() == script_path@,
    {
        if period.is_zero() {
            return Err(SampleError::ZeroPeriod);
        }
        Ok(Sampler { period, script_path })
    }

    pub fn period(&self) -> (r: Span)
        ensures
            r == self.spec_period(),
            r.total_nanos() > 0,
    {
        proof {
            use_type_invariant(self);
        }
        self.period
    }

    pub fn script_path(&self) -> (r: &String)
        ensures
            r@ == self.spec_script_path(),
    {
        &self.script_path
    }

    /// The sampler a sample configuration asks for: none where sampling is
    /// off.
    pub fn from_config(config: &SampleConfig) -> (r: Result<Option<Sampler>, SampleError>)
        ensures
            *config is Off ==> r matches Ok(None),
            *config matches SampleConfig::Interval { period, script_path } ==> {
                &&& r is Err <==> period.secs == 0 && period.nanos == 0
                &&& r matches Ok(o) ==> o matches Some(s) && s.spec_period() == period
                    && s.spec_script_path() == script_path@
            },
    {
        match config {
            SampleConfig::Off => Ok(None),
            SampleConfig::Interval { period, script_path } => {
                let sampler = Sampler::new(*period, script_path.clone())?;
                Ok(Some(sampler))
            },
        }
    }
}

} // verus!
