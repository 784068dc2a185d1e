use vstd::prelude::*;
use vstd::string::*;

use crate::plan::{Trace, Wheel};

verus! {

/// The hardware operation during which a rover command failed.
#[derive(Clone, Copy, Debug, PartialEq, Eq, Structural)]
pub enum Stage {
    Create(Wheel),
    Export(Wheel),
    Period(Wheel),
    Enable(Wheel),
    Disable(Wheel),
    Duty(Wheel),
    Unexport(Wheel),
}

/// The message that reports a failure at `stage`.
pub open spec fn stage_message(stage: Stage) -> Seq<char> {
    match stage {
        Stage::Create(Wheel::Left) => "failed to create left wheel"@,
        Stage::Create(Wheel::Right) => "failed to create right wheel"@,
        Stage::Export(Wheel::Left) => "failed to export the left wheel pwm channel"@,
        Stage::Export(Wheel::Right) => "failed to export the right wheel pwm channel"@,
        Stage::Period(Wheel::Left) => "failed to set period on left wheel"@,
        Stage::Period(Wheel::Right) => "failed to set period on right wheel"@,
        Stage::Enable(Wheel::Left) => "failed to enable left wheel"@,
        Stage::Enable(Wheel::Right) => "failed to enable right wheel"@,
        Stage::Disable(Wheel::Left) => "failed to disable left wheel"@,
        Stage::Disable(Wheel::Right) => "failed to disable right wheel"@,
        Stage::Duty(Wheel::Left) => "failed to set duty on left wheel"@,
        Stage::Duty(Wheel::Right) => "failed to set duty on right wheel"@,
        Stage::Unexport(Wheel::Left) => "failed to unexport left wheel"@,
        Stage::Unexport(Wheel::Right) => "failed to unexport right wheel"@,
    }
}

impl Stage {
    /// The message that reports a failure at this stage.
    pub fn message(&self) -> (r: String)
        ensures
            r@ == stage_message(*self),
    {
        let text: &str = match *self {
            Stage::Create(Wheel::Left) => "failed to create left wheel",
            Stage::Create(Wheel::Right) => "failed to create right wheel",
            Stage::Export(Wheel::Left) => "failed to export the left wheel pwm channel",
            Stage::Export(Wheel::Right) => "failed to export the right wheel pwm channel",
            Stage::Period(Wheel::Left) => "failed to set period on left wheel",
            Stage::Period(Wheel::Right) => "failed to set period on right wheel",
            Stage::Enable(Wheel::Left) => "failed to enable left wheel",
            Stage::Enable(Wheel::Right) => "failed to enable right wheel",
            Stage::Disable(Wheel::Left) => "failed to disable left wheel",
            Stage::Disable(Wheel::Right) => "failed to disable right wheel",
            Stage::Duty(Wheel::Left) => "failed to set duty on left wheel",
            Stage::Duty(Wheel::Right) => "failed to set duty on right wheel",
            Stage::Unexport(Wheel::Left) => "failed to unexport left wheel",
            Stage::Unexport(Wheel::Right) => "failed to unexport right wheel",
        };
        String::from_str(text)
    }
}

/// A failed hardware operation: the stage that failed, the channel driver's
/// own description of the cause and, for a failed construction, the steps
/// that construction handed to the channels.
#[derive(Clone)]
pub struct RoverError {
    pub stage: Stage,
    pub cause: String,
    pub attempts: Attempts,
}

/// The steps that a failed construction made, with their outcomes. Only the
/// library writes one.
#[derive(Clone, Copy)]
pub struct Attempts {
    record: Ghost<Trace>,
}

impl Attempts {
    /// The recorded steps.
    pub closed spec fn steps(&self) -> Trace {
        self.record@
    }

    pub(crate) fn record(record: Ghost<Trace>) -> (r: Attempts)
        ensures
            r.steps() == record@,
    {
        Attempts { record }
    }

    /// No recorded step.
    pub fn none() -> (r: Attempts)
        ensures
            r.steps().len() == 0,
    {
        Attempts { record: Ghost(Seq::empty()) }
    }
}

impl RoverError {
    /// The message that names the failing stage.
    pub fn message(&self) -> (r: String)
        ensures
            r@ == stage_message(self.stage),
    {
        self.stage.message()
    }

    /// For a failed construction, the steps it made, with their outcomes.
    pub open spec fn attempts(&self) -> Trace {
        self.attempts.steps()
    }

    /// A failure at `stage` with the given cause and no recorded steps.
    pub fn new(stage: Stage, cause: String) -> (r: RoverError)
        ensures
            r.stage == stage,
            r.cause == cause,
            r.attempts().len() == 0,
    {
        RoverError { stage, cause, attempts: Attempts::none() }
    }

    /// This failure, carrying the steps that a construction made.
    pub(crate) fn with_attempts(self, attempts: Ghost<Trace>) -> (r: RoverError)
        ensures
            r.stage == self.stage,
            r.attempts() == attempts@,
    {
        RoverError { stage: self.stage, cause: self.cause, attempts: Attempts::record(attempts) }
    }

    /// Wraps a channel driver's error as a failure at `stage`.
    pub(crate) fn from_channel(stage: Stage, e: sysfs_pwm::Error) -> (r: RoverError)
        ensures
            r.stage == stage,
            r.attempts().len() == 0,
    {
        RoverError::new(stage, e.to_string())
    }
}

} // verus!
