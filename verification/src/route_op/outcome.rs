use crate::error::{OsError, OsErrorKind, OsErrorView, RouteOpError};
use crate::route_op::entry::FailurePolicy;
use crate::text::{contains_text, str_contains};
use vstd::prelude::*;

verus! {

/// Why an operation changed nothing and still counts as done.
#[derive(Clone, Copy, Debug, PartialEq, Eq, Hash, Structural)]
pub enum IgnoreReason {
    /// The route to add was in the table already.
    AlreadyExists,
    /// The route to remove was not in the table.
    NotFound,
}

/// How the operation on one prefix ended.
#[derive(Debug, PartialEq, Eq)]
pub enum Outcome {
    /// The table was changed as asked.
    Applied,
    /// The table was as asked before the call.
    Ignored(IgnoreReason),
    /// The operating system refused, for the cause given.
    Failed(OsError),
}

/// An `Outcome` with the cause's message as a sequence of characters.
pub enum OutcomeView {
    Applied,
    Ignored(IgnoreReason),
    Failed(OsErrorView),
}

impl View for Outcome {
    type V = OutcomeView;

    open spec fn view(&self) -> OutcomeView {
        match self {
            Outcome::Applied => OutcomeView::Applied,
            Outcome::Ignored(reason) => OutcomeView::Ignored(*reason),
            Outcome::Failed(cause) => OutcomeView::Failed(cause@),
        }
    }
}

impl Clone for Outcome {
    fn clone(&self) -> (copy: Outcome)
        ensures
            copy == *self,
    {
        match self {
            Outcome::Applied => Outcome::Applied,
            Outcome::Ignored(reason) => Outcome::Ignored(*reason),
            Outcome::Failed(cause) => Outcome::Failed(cause.clone()),
        }
    }
}

impl Outcome {
    /// Whether the table was changed as asked.
    pub fn is_applied(&self) -> (b: bool)
        ensures
            b == (self@ is Applied),
    {
        match self {
            Outcome::Applied => true,
            _ => false,
        }
    }

    /// Whether the table was as asked before the call.
    pub fn is_ignored(&self) -> (b: bool)
        ensures
            b == (self@ is Ignored),
    {
        match self {
            Outcome::Ignored(_) => true,
            _ => false,
        }
    }

    /// Whether the operating system refused.
    pub fn is_failed(&self) -> (b: bool)
        ensures
            b == (self@ is Failed),
    {
        match self {
            Outcome::Failed(_) => true,
            _ => false,
        }
    }
}

/// Whether a failed addition says that the route was there already. The
/// platforms say so in two ways: by the class of the failure, or, where the
/// failure has no class of its own, by the word "exists" in its message.
pub open spec fn signals_already_exists(cause: OsErrorView) -> bool {
    cause.kind == OsErrorKind::AlreadyExists || (cause.kind == OsErrorKind::Other && contains_text(
        cause.message,
        "exists"@,
    ))
}

/// Whether a failed removal says that the route was not there.
pub open spec fn signals_not_found(cause: OsErrorView) -> bool {
    cause.kind == OsErrorKind::NotFound
}

/// The outcome of an addition that the operating system answered with
/// `result`.
pub open spec fn addition_outcome(result: Result<(), OsError>) -> Outcome {
    match result {
        Ok(_) => Outcome::Applied,
        Err(cause) => if signals_already_exists(cause@) {
            Outcome::Ignored(IgnoreReason::AlreadyExists)
        } else {
            Outcome::Failed(cause)
        },
    }
}

/// The outcome of a removal that the operating system answered with
/// `result`.
pub open spec fn removal_outcome(result: Result<(), OsError>) -> Outcome {
    match result {
        Ok(_) => Outcome::Applied,
        Err(cause) => if signals_not_found(cause@) {
            Outcome::Ignored(IgnoreReason::NotFound)
        } else {
            Outcome::Failed(cause)
        },
    }
}

/// Sorts the operating system's answer to an addition into an outcome. A
/// cause that is not recognised is handed on as it came.
pub fn classify_add(result: Result<(), OsError>) -> (outcome: Outcome)
    ensures
        outcome == addition_outcome(result),
{
    match result {
        Ok(_) => Outcome::Applied,
        Err(cause) => {
            let exists = match cause.kind {
                OsErrorKind::AlreadyExists => true,
                OsErrorKind::Other => str_contains(cause.message.as_str(), "exists"),
                _ => false,
            };
            if exists {
                Outcome::Ignored(IgnoreReason::AlreadyExists)
            } else {
                Outcome::Failed(cause)
            }
        },
    }
}

/// Sorts the operating system's answer to a removal into an outcome. A
/// cause that is not recognised is handed on as it came.
pub fn classify_delete(result: Result<(), OsError>) -> (outcome: Outcome)
    ensures
        outcome == removal_outcome(result),
{
    match result {
        Ok(_) => Outcome::Applied,
        Err(cause) => {
            match cause.kind {
                OsErrorKind::NotFound => Outcome::Ignored(IgnoreReason::NotFound),
                _ => Outcome::Failed(cause),
            }
        },
    }
}

/// What becomes of an outcome under a policy: a failure ends a batch that
/// is to stop at a refusal, and is its error; every other outcome stands.
pub open spec fn settled(outcome: Outcome, policy: FailurePolicy) -> Result<Outcome, RouteOpError> {
    match outcome {
        Outcome::Failed(cause) if policy is Stop => Err(RouteOpError::OpError(cause)),
        _ => Ok(outcome),
    }
}

/// Decides what becomes of an outcome under a policy.
pub fn settle(outcome: Outcome, policy: FailurePolicy) -> (r: Result<Outcome, RouteOpError>)
    ensures
        r == settled(outcome, policy),
{
    match policy {
        FailurePolicy::Continue => Ok(outcome),
        FailurePolicy::Stop => match outcome {
            Outcome::Failed(cause) => Err(RouteOpError::OpError(cause)),
            other => Ok(other),
        },
    }
}

} // verus!
