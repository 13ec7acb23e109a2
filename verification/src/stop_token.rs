//! Cooperative cancellation: shared flags, the joint view a running job
//! polls, and the per-worker record of what is currently cancelable.

use std::sync::atomic::AtomicBool;
use std::sync::Arc;
use vstd::prelude::*;

verus! {

/// A shared "canceled?" flag. Every clone observes the same flag, and no lock
/// is taken to read or set it.
///
/// The flag lives in an atomic that other threads may set at any moment, so a
/// read promises nothing about its result; what is decided from a read is
/// stated by [`joint_verdict`] and [`negate`].
#[derive(Debug)]
pub struct StopToken {
    flag: Arc<AtomicBool>,
}

/// Another handle on the same flag.
///
/// Trusted: this is `Arc::clone`, which std documents as making another
/// pointer to the same allocation; the two handles are the same shared value.
#[verifier::external_body]
fn share_flag(flag: &Arc<AtomicBool>) -> (shared: Arc<AtomicBool>)
    ensures
        shared == *flag,
{
    Arc::clone(flag)
}

impl Clone for StopToken {
    /// A token on the same flag: what is set through either is seen through both.
    fn clone(&self) -> (token: StopToken)
        ensures
            token == *self,
    {
        StopToken { flag: share_flag(&self.flag) }
    }
}

/// Whether a job that may be canceled through either of two flags is to stop,
/// given what was read from each.
pub open spec fn spec_joint_verdict(pool_canceled: bool, job_canceled: Option<bool>) -> bool {
    pool_canceled || job_canceled == Some(true)
}

/// Combines one reading of the pool's flag with one reading of the job's own
/// flag, if the job has one: the job is to stop as soon as either is set.
pub fn joint_verdict(pool_canceled: bool, job_canceled: Option<bool>) -> (stop: bool)
    ensures
        stop == spec_joint_verdict(pool_canceled, job_canceled),
{
    match job_canceled {
        Some(flag) => pool_canceled || flag,
        None => pool_canceled,
    }
}

/// Turns a "should cancel" reading into the "should continue" answer.
pub fn negate(should_cancel: bool) -> (should_continue: bool)
    ensures
        should_continue == !should_cancel,
{
    !should_cancel
}

impl StopToken {
    /// A fresh flag that no other token shares.
    pub fn new() -> StopToken {
        StopToken { flag: Arc::new(AtomicBool::new(false)) }
    }

    /// Sets the flag. Setting it again changes nothing; the call never blocks.
    pub fn cancel(&self) {
        self.flag.store(true, std::sync::atomic::Ordering::Release);
    }

    /// Reads the flag.
    pub fn should_cancel(&self) -> bool {
        self.flag.load(std::sync::atomic::Ordering::Acquire)
    }

    /// The negation of one reading of the flag.
    pub fn should_continue(&self) -> bool {
        negate(self.should_cancel())
    }
}

impl Default for StopToken {
    fn default() -> StopToken {
        StopToken::new()
    }
}

/// Whether the job that owns `job` (if it is cancelable at all) is to stop:
/// true as soon as the pool's flag or the job's own flag is seen set. The
/// job's flag is not read once the pool's flag was seen set.
pub fn job_should_cancel(pool: &StopToken, job: Option<&StopToken>) -> bool {
    if pool.should_cancel() {
        joint_verdict(true, None)
    } else {
        match job {
            Some(token) => joint_verdict(false, Some(token.should_cancel())),
            None => joint_verdict(false, None),
        }
    }
}

/// The negation of [`job_should_cancel`], from one reading of the flags.
pub fn job_should_continue(pool: &StopToken, job: Option<&StopToken>) -> bool {
    negate(job_should_cancel(pool, job))
}

/// A read-only view over the pool's token and one job's token. It holds no
/// state of its own and is made anew for each execution of a job.
pub struct JointStopToken<'a> {
    pool: &'a StopToken,
    job: &'a StopToken,
}

impl<'a> JointStopToken<'a> {
    /// The view over `pool` and `job`.
    pub fn new(pool: &'a StopToken, job: &'a StopToken) -> (joint: JointStopToken<'a>)
        ensures
            joint.pool_token() == pool,
            joint.job_token() == job,
    {
        JointStopToken { pool, job }
    }

    /// The pool-level token this view reads.
    pub closed spec fn pool_token(&self) -> &StopToken {
        self.pool
    }

    /// The job-level token this view reads.
    pub closed spec fn job_token(&self) -> &StopToken {
        self.job
    }

    /// True as soon as either underlying flag is seen set.
    pub fn should_cancel(&self) -> bool {
        job_should_cancel(self.pool, Some(self.job))
    }

    /// The negation of one reading of [`JointStopToken::should_cancel`].
    pub fn should_continue(&self) -> bool {
        negate(self.should_cancel())
    }
}

/// What a cancelable job hands back: either it observed cancellation and gave
/// up, or it ran to the end and produced a value.
#[derive(Debug, PartialEq, Eq, PartialOrd, Ord, Hash, Clone, Copy)]
pub enum ExecutionResult<T> {
    Canceled,
    Returned(T),
}

impl<T> ExecutionResult<T> {
    /// Whether the job gave up.
    pub fn is_canceled(&self) -> (b: bool)
        ensures
            b == (*self is Canceled),
    {
        match self {
            ExecutionResult::Canceled => true,
            ExecutionResult::Returned(_) => false,
        }
    }

    /// The value the job produced, if it ran to the end.
    pub fn returned(self) -> (value: Option<T>)
        ensures
            value == match self {
                ExecutionResult::Canceled => None::<T>,
                ExecutionResult::Returned(v) => Some(v),
            },
    {
        match self {
            ExecutionResult::Canceled => None,
            ExecutionResult::Returned(v) => Some(v),
        }
    }
}

/// What one worker is doing, as far as cancellation is concerned.
#[derive(Debug)]
pub enum RunningCancelable {
    /// The worker runs a cancelable job; this is the job's token.
    Yes(StopToken),
    /// The worker is idle or runs a job that cannot be canceled.
    No,
    /// The worker was told to stop. This is final.
    Canceled,
}

impl RunningCancelable {
    /// The record after `token` was installed in a worker that was not told to stop.
    pub open spec fn installed(token: Option<StopToken>) -> RunningCancelable {
        match token {
            Some(t) => RunningCancelable::Yes(t),
            None => RunningCancelable::No,
        }
    }

    pub fn is_canceled(&self) -> (b: bool)
        ensures
            b == (*self is Canceled),
    {
        match self {
            RunningCancelable::Canceled => true,
            _ => false,
        }
    }

    pub fn is_not_canceled(&self) -> (b: bool)
        ensures
            b == !(*self is Canceled),
    {
        !self.is_canceled()
    }

    /// Records that the worker starts a job with the given token. Refused,
    /// with the record unchanged, once the worker was told to stop.
    pub fn set(&mut self, token: Option<StopToken>) -> (r: Result<(), ()>)
        ensures
            *old(self) is Canceled ==> r is Err && *final(self) == *old(self),
            !(*old(self) is Canceled) ==> r is Ok && *final(self) == Self::installed(token),
    {
        if self.is_canceled() {
            Err(())
        } else {
            *self = match token {
                Some(token) => RunningCancelable::Yes(token),
                None => RunningCancelable::No,
            };
            Ok(())
        }
    }

    /// Records that the worker finished its job. Refused, with the record
    /// unchanged, once the worker was told to stop.
    pub fn clear(&mut self) -> (r: Result<(), ()>)
        ensures
            *old(self) is Canceled ==> r is Err && *final(self) == *old(self),
            !(*old(self) is Canceled) ==> r is Ok && *final(self) is No,
    {
        if self.is_canceled() {
            Err(())
        } else {
            *self = RunningCancelable::No;
            Ok(())
        }
    }

    /// Tells the worker to stop, and sets the token of the job it runs, if
    /// that job is cancelable.
    pub fn cancel(&mut self)
        ensures
            *final(self) is Canceled,
    {
        let mut previous = RunningCancelable::Canceled;
        core::mem::swap(self, &mut previous);
        if let RunningCancelable::Yes(token) = previous {
            token.cancel();
        }
    }
}

} // verus!
