//! The decisions of the retrying command runner: after each attempt of an
//! external command, whether to stop, wait and retry on its own, ask the user,
//! or give up; and how the user's reply to that question is read.
use vstd::prelude::*;
use crate::classify::{is_network_or_download_error, is_network_text, lower_of, lowercase};
use crate::text::{trim, trim_of};

verus! {

/// The number of attempts after which a network failure is no longer retried.
pub const MAX_ATTEMPTS: u64 = 3;

/// The seconds of waiting per attempt made, before an automatic retry.
pub const BACKOFF_UNIT_SECS: u64 = 5;

/// What came of one attempt to run a command.
pub enum Outcome {
    /// The command ran and exited successfully.
    Succeeded,
    /// The command ran and failed; its error output is kept for classification.
    Failed { error_output: String },
    /// The command could not be started at all.
    NotStarted,
}

/// What the runner does next.
#[derive(PartialEq, Eq, Structural, Debug, Clone, Copy)]
pub enum Step {
    /// The command succeeded: stop.
    Done,
    /// A network or download failure: wait this many seconds, then run again.
    RetryAfter { seconds: u64 },
    /// Any other failure: ask the user whether to run the command again.
    AskRetry,
    /// Stop with a failure.
    GiveUp,
}

/// The step after attempt number `attempt` (counting from one), given whether
/// it succeeded and, if it failed, whether the failure was a network one.
pub open spec fn step_for(attempt: u64, succeeded: bool, network: bool) -> Step {
    if succeeded {
        Step::Done
    } else if network {
        if attempt < MAX_ATTEMPTS {
            Step::RetryAfter { seconds: (attempt * BACKOFF_UNIT_SECS) as u64 }
        } else {
            Step::GiveUp
        }
    } else {
        Step::AskRetry
    }
}

/// The step for an outcome of attempt number `attempt`.
pub open spec fn step_for_outcome(attempt: u64, outcome: Outcome) -> Step {
    match outcome {
        Outcome::Succeeded => Step::Done,
        Outcome::Failed { error_output } => step_for(
            attempt,
            false,
            is_network_text(lower_of(error_output@)),
        ),
        Outcome::NotStarted => Step::GiveUp,
    }
}

/// The step after attempt number `attempt`, once its failure, if any, has
/// been classified.
pub fn next_step(attempt: u64, succeeded: bool, network: bool) -> (s: Step)
    ensures
        s == step_for(attempt, succeeded, network),
{
    if succeeded {
        Step::Done
    } else if network {
        if attempt < MAX_ATTEMPTS {
            Step::RetryAfter { seconds: attempt * BACKOFF_UNIT_SECS }
        } else {
            Step::GiveUp
        }
    } else {
        Step::AskRetry
    }
}

/// The state of one command invocation across its attempts.
pub struct Runner {
    attempts: u64,
}

impl Runner {
    /// The number of attempts recorded so far.
    pub closed spec fn spec_attempts(&self) -> u64 {
        self.attempts
    }

    /// A runner that has made no attempt yet.
    pub fn new() -> (r: Runner)
        ensures
            r.spec_attempts() == 0,
    {
        Runner { attempts: 0 }
    }

    /// The number of attempts recorded so far.
    pub fn attempts(&self) -> (n: u64)
        ensures
            n == self.spec_attempts(),
    {
        self.attempts
    }

    /// Records the outcome of one more attempt and says what to do next.
    pub fn record(&mut self, outcome: &Outcome) -> (s: Step)
        requires
            old(self).spec_attempts() < u64::MAX,
        ensures
            final(self).spec_attempts() == old(self).spec_attempts() + 1,
            s == step_for_outcome(final(self).spec_attempts(), *outcome),
    {
        self.attempts = self.attempts + 1;
        match outcome {
            Outcome::Succeeded => Step::Done,
            Outcome::Failed { error_output } => {
                let network = is_network_or_download_error(error_output.as_str());
                next_step(self.attempts, false, network)
            },
            Outcome::NotStarted => Step::GiveUp,
        }
    }
}

/// A reply, already trimmed and lower-cased, that agrees to go on: `y`, a
/// single space, or nothing at all.
pub open spec fn is_yes(normalized: Seq<char>) -> bool {
    normalized == "y"@ || normalized == " "@ || normalized == ""@
}

/// Whether a reply, already trimmed and lower-cased, agrees to go on.
pub fn is_affirmative(normalized: &str) -> (r: bool)
    ensures
        r == is_yes(normalized@),
{
    let n = normalized.to_owned();
    let yes = "y".to_owned();
    let space = " ".to_owned();
    let empty = "".to_owned();
    n == yes || n == space || n == empty
}

/// Whether a raw reply to a yes/no question agrees to go on; the default,
/// an empty reply, does.
pub fn confirms(reply: &str) -> (r: bool)
    ensures
        r == is_yes(lower_of(trim_of(reply@))),
{
    let lowered = lowercase(trim(reply));
    is_affirmative(lowered.as_str())
}

} // verus!
