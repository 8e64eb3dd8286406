//! The configuration record of one simulation run.
use vstd::prelude::*;
use crate::time::Time;

verus! {

/// Why a configuration source could not be turned into a run.
#[derive(Clone, Copy, Debug, PartialEq, Eq, Structural)]
pub enum SetupError {
    /// `initial_time` is not strictly before `final_time`.
    InvalidTimeSpan,
    /// No run name can be derived from the source's file name.
    MissingName,
}

impl SetupError {
    /// The message reported for this error.
    pub fn message(&self) -> (r: String)
        ensures
            r@ == self.spec_message(),
    {
        match self {
            SetupError::InvalidTimeSpan => "Simulation final_time must be greater than initial_time.".to_owned(),
            SetupError::MissingName => "unable to create output config".to_owned(),
        }
    }

    pub open spec fn spec_message(&self) -> Seq<char> {
        match self {
            SetupError::InvalidTimeSpan => "Simulation final_time must be greater than initial_time."@,
            SetupError::MissingName => "unable to create output config"@,
        }
    }
}

/// The definition of one simulation run, as read from a configuration source.
///
/// `I` names the integration scheme and `U` the domain state ("universe");
/// both are carried through untouched.
#[derive(Debug)]
pub struct InputConfig<U, I> {
    /// Whether the run continues the state of an earlier run.
    pub resume: bool,
    pub initial_time: Time,
    pub final_time: Time,
    /// The integration scheme to run.
    pub integrator: I,
    /// All data available to the integrator's derivation function.
    pub universe: U,
}

impl<U, I> InputConfig<U, I> {
    /// The record is valid when its time span is not empty.
    pub open spec fn spec_valid(&self) -> bool {
        self.initial_time.spec_lt(self.final_time)
    }

    /// Checks that `initial_time < final_time`.
    pub fn validate(&self) -> (r: Result<(), SetupError>)
        ensures
            r is Ok <==> self.spec_valid(),
            r is Err ==> r == Err::<(), SetupError>(SetupError::InvalidTimeSpan),
    {
        if self.initial_time.is_before(&self.final_time) {
            Ok(())
        } else {
            Err(SetupError::InvalidTimeSpan)
        }
    }
}

} // verus!
