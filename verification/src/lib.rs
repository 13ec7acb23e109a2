//! A bounded, priority-ordered job pool: the queue, the cancellation
//! protocol, the worker state machine and the result handles, each with a
//! machine-checked contract.
//!
//! The crate holds what is decided, not what is waited for: threads, the
//! lock and the condition variable belong to the program that embeds it. That
//! program keeps a [`ThreadPoolState`] behind its lock, gives every thread a
//! [`Worker`], and does what [`Worker::advance`] tells it to. What then holds
//! of every run, however the threads interleave, is proved in [`history`].
//!
//! Beside the pool there is a small toolkit of point-free combinators
//! ([`cp`], [`haskell`], [`iso`]).

pub mod builder;
pub mod cp;
pub mod haskell;
pub mod history;
pub mod iso;
pub mod job;
pub mod policy;
pub mod pool;
pub mod priority;
pub mod promise;
pub mod queue;
pub mod stop_token;

pub use builder::JobBuilder;
pub use job::Job;
pub use policy::{Cancelable, CancelationPolicy, Uncacelable};
pub use pool::{ThreadPoolState, Worker, WorkerAction, WorkerState};
pub use priority::Priority;
pub use promise::{Completion, Promise, Reporter};
pub use queue::JobQueue;
pub use stop_token::{
    job_should_cancel, job_should_continue, ExecutionResult, JointStopToken, RunningCancelable,
    StopToken,
};
