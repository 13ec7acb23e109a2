//! Describing a job before it is queued.

use crate::job::Job;
use crate::policy::{Cancelable, CancelationPolicy, Uncacelable};
use crate::priority::Priority;
use crate::promise::Promise;
use crate::stop_token::StopToken;
use vstd::prelude::*;
use vstd::std_specs::convert::IntoSpec;

verus! {

/// A submission in the making: the priority and the cancellation marker the
/// job will get, and the pool it is meant for.
pub struct JobBuilder<'t, S, P> {
    priority: Priority,
    cancelable: S,
    pool: &'t P,
}

impl<'t, P> JobBuilder<'t, Uncacelable, P> {
    /// A builder for `pool` with the default priority and no token.
    pub fn new(pool: &'t P) -> (b: JobBuilder<'t, Uncacelable, P>)
        ensures
            b.priority()@ == 0,
            b.pool() == pool,
    {
        JobBuilder { priority: Priority(0), cancelable: Uncacelable, pool }
    }
}

impl<'t, S: CancelationPolicy, P> JobBuilder<'t, S, P> {
    pub closed spec fn priority(&self) -> Priority {
        self.priority
    }

    pub closed spec fn marker(&self) -> S {
        self.cancelable
    }

    pub closed spec fn pool(&self) -> &'t P {
        self.pool
    }

    /// The pool this submission is meant for.
    pub fn target(&self) -> (pool: &'t P)
        ensures
            pool == self.pool(),
    {
        self.pool
    }

    /// The priority the job will be queued under.
    pub fn chosen_priority(&self) -> (p: Priority)
        ensures
            p == self.priority(),
    {
        self.priority
    }

    /// The same submission, now with a fresh token of its own.
    pub fn cancelable(self) -> (b: JobBuilder<'t, Cancelable, P>)
        ensures
            b.priority() == self.priority(),
            b.pool() == self.pool(),
    {
        JobBuilder { priority: self.priority, cancelable: Cancelable::default(), pool: self.pool }
    }

    /// The same submission under another priority.
    pub fn with_priority<I: Into<Priority>>(self, priority: I) -> (b: Self)
        ensures
            I::obeys_into_spec() ==> b.priority() == priority.into_spec(),
            b.marker() == self.marker(),
            b.pool() == self.pool(),
    {
        JobBuilder { priority: priority.into(), cancelable: self.cancelable, pool: self.pool }
    }

    /// Builds the job that runs `f` and reports how it ended, together with
    /// the handle that receives the report and the pool to queue the job on.
    ///
    /// `f` returns `Err` with a payload where it failed; whoever calls this
    /// decides what counts as failure. Once the job has run, the handle
    /// yields what `f` returned; when the job is dropped without having run,
    /// the handle yields no result.
    pub fn output<F, R, E>(self, f: F) -> (out: (
        Job<impl FnOnce(Option<StopToken>) -> bool>,
        Promise<R, S, E>,
        &'t P,
    )) where F: FnOnce(Option<StopToken>) -> Result<R, E>
        ensures
            out.0.priority == self.priority(),
            out.0.stop_token == self.marker().spec_token(),
            out.1.marker() == self.marker(),
            out.2 == self.pool(),
            forall|token: Option<StopToken>|
                f.requires((token,)) ==> #[trigger] out.0.fun.requires((token,)),
            forall|token: Option<StopToken>, delivered: bool| #[trigger]
                out.0.fun.ensures((token,), delivered) ==> exists|outcome: Result<R, E>|
                    f.ensures((token,), outcome),
    {
        let token = self.cancelable.token();
        let (reporter, promise) = Promise::channel(self.cancelable);
        let body = move |token: Option<StopToken>| -> (delivered: bool)
            requires
                f.requires((token,)),
            ensures
                exists|outcome: Result<R, E>| f.ensures((token,), outcome),
            {
                let outcome = f(token);
                reporter.report(outcome)
            };
        (Job::new(self.priority, token, body), promise, self.pool)
    }

    /// Splits the finished description into the job to queue, the pool to
    /// queue it on and the marker that the result handle keeps.
    pub fn into_job<F>(self, fun: F) -> (parts: (Job<F>, S, &'t P))
        ensures
            parts.0.priority == self.priority(),
            parts.0.stop_token == self.marker().spec_token(),
            parts.0.fun == fun,
            parts.1 == self.marker(),
            parts.2 == self.pool(),
    {
        let token = self.cancelable.token();
        (Job::new(self.priority, token, fun), self.cancelable, self.pool)
    }
}

} // verus!
