use vstd::prelude::*;
use vstd::string::StringExecFns;
use crate::errors::WorkError;

verus! {

/// Seconds a requeued message stays invisible before it is delivered again.
pub const DEFAULT_REQUEUE_DELAY: i64 = 10;

/// What a worker made of one message.
pub type Outcome = Result<(), WorkError>;

/// How a processed message is acknowledged to the queue.
#[derive(Debug, Clone, Copy, PartialEq, Eq, Structural)]
pub enum AckAction {
    /// Remove the message for good.
    Delete,
    /// Send the body again, visible after the given number of seconds.
    Requeue(i64),
}

/// Success and permanent failures delete; transient failures requeue.
pub open spec fn ack_for(outcome: Outcome) -> AckAction {
    match outcome {
        Ok(()) => AckAction::Delete,
        Err(WorkError::UnRecoverableError(_)) => AckAction::Delete,
        Err(WorkError::RecoverableError(_)) => AckAction::Requeue(DEFAULT_REQUEUE_DELAY),
    }
}

/// Picks the acknowledgment for an outcome. Total: it never fails.
pub fn decide(outcome: &Outcome) -> (r: AckAction)
    ensures
        r == ack_for(*outcome),
{
    match outcome {
        Ok(()) => AckAction::Delete,
        Err(WorkError::UnRecoverableError(_)) => AckAction::Delete,
        Err(WorkError::RecoverableError(_)) => AckAction::Requeue(DEFAULT_REQUEUE_DELAY),
    }
}

/// How a call into a worker ended: with an outcome, or with a fault (a
/// panic) whose message, where one could be read, is kept.
#[derive(Debug, PartialEq, Eq)]
pub enum Handled {
    Returned(Outcome),
    Faulted(String),
}

pub open spec fn fault_reason(detail: Seq<char>) -> Seq<char> {
    "The worker failed unexpectedly: "@ + detail
}

/// A fault counts as a permanent failure, so that the message is not left
/// in flight.
pub open spec fn handled_ack(h: Handled) -> AckAction {
    match h {
        Handled::Returned(o) => ack_for(o),
        Handled::Faulted(_) => AckAction::Delete,
    }
}

/// Turns a handled call into the outcome the policy decides on.
pub fn outcome(h: Handled) -> (r: Outcome)
    ensures
        match h {
            Handled::Returned(o) => r == o,
            Handled::Faulted(d) => r matches Err(WorkError::UnRecoverableError(m)) && m@ == fault_reason(d@),
        },
{
    match h {
        Handled::Returned(o) => o,
        Handled::Faulted(d) => {
            let mut s = String::from_str("The worker failed unexpectedly: ");
            s.append(d.as_str());
            Err(WorkError::UnRecoverableError(s))
        },
    }
}

} // verus!
