//! One unit of submitted work.

use crate::priority::Priority;
use crate::stop_token::StopToken;
use vstd::prelude::*;

verus! {

/// A callable together with the priority it is queued under and, for a
/// cancelable job, the token through which it can be asked to stop.
///
/// A job is made at submission, queued, taken out by exactly one worker and
/// consumed by [`Job::run`]; nothing puts it back.
pub struct Job<F> {
    pub priority: Priority,
    pub stop_token: Option<StopToken>,
    pub fun: F,
}

impl<F> Job<F> {
    pub fn new(priority: Priority, stop_token: Option<StopToken>, fun: F) -> (job: Job<F>)
        ensures
            job.priority == priority,
            job.stop_token == stop_token,
            job.fun == fun,
    {
        Job { priority, stop_token, fun }
    }

    /// The urgency this job is ordered by.
    pub open spec fn rank(&self) -> int {
        self.priority@
    }

    pub fn priority(&self) -> (p: Priority)
        ensures
            p == self.priority,
    {
        self.priority
    }

    /// Whether the job carries a token of its own.
    pub fn is_cancelable(&self) -> (b: bool)
        ensures
            b == self.stop_token is Some,
    {
        self.stop_token.is_some()
    }

    /// Whether `self` is served strictly before `other`.
    pub fn outranks(&self, other: &Job<F>) -> (b: bool)
        ensures
            b == (self.rank() > other.rank()),
    {
        self.priority.0 > other.priority.0
    }

    /// Consumes the job: calls its body once, handing it the job's token, and
    /// returns what the body returned.
    pub fn run<R>(self) -> (result: R) where F: FnOnce(Option<StopToken>) -> R
        requires
            self.fun.requires((self.stop_token,)),
        ensures
            self.fun.ensures((self.stop_token,), result),
    {
        let Job { priority: _, stop_token, fun } = self;
        fun(stop_token)
    }
}

} // verus!
