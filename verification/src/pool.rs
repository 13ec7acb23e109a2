//! What the workers share, and what a worker does next.
//!
//! The queue and the drain flag change only while one lock is held, so a
//! worker sees a submission or a change of the flag, never a state between
//! the two. The functions here are what happens under that lock: they read
//! and change the shared state and say what the worker is to do once the
//! lock is released.

use crate::job::Job;
use crate::queue::{
    lemma_served_by_priority, lemma_serving_conserves_jobs, serves, takes, JobQueue,
};
use vstd::multiset::Multiset;
use vstd::prelude::*;

verus! {

/// The shared state as contracts see it.
pub ghost struct PoolView<F> {
    /// The jobs that were submitted and not yet taken by a worker.
    pub queue: Multiset<Job<F>>,
    /// Whether the pool was asked to finish what is queued and then stop.
    pub shutting_down: bool,
}

/// The pending jobs and the drain flag.
pub struct ThreadPoolState<F> {
    queue: JobQueue<F>,
    shutting_down: bool,
}

impl<F> View for ThreadPoolState<F> {
    type V = PoolView<F>;

    closed spec fn view(&self) -> PoolView<F> {
        PoolView { queue: self.queue@, shutting_down: self.shutting_down }
    }
}

/// What a worker does after it looked at the shared state.
pub enum WorkerAction<F> {
    /// Release the lock and run this job, which is no longer queued.
    Run(Job<F>),
    /// Nothing to do yet: wait to be signaled, then look again.
    Sleep,
    /// Leave the loop; the thread ends.
    Exit,
}

/// The rule a waiting worker follows, given whether it saw the pool's token
/// set: a canceled pool makes it leave without touching the queue; otherwise
/// it takes a most urgent job if there is one; otherwise it leaves if the
/// pool is draining and sleeps if not.
pub open spec fn step_allowed<F>(
    pool_canceled: bool,
    pre: PoolView<F>,
    action: WorkerAction<F>,
    post: PoolView<F>,
) -> bool {
    if pool_canceled {
        action is Exit && post == pre
    } else if pre.queue.len() > 0 {
        &&& action matches WorkerAction::Run(job)
        &&& takes(pre.queue, job, post.queue)
        &&& post.shutting_down == pre.shutting_down
    } else if pre.shutting_down {
        action is Exit && post == pre
    } else {
        action is Sleep && post == pre
    }
}

/// The shared state after `job` was taken from it.
pub open spec fn without<F>(pre: PoolView<F>, job: Job<F>) -> PoolView<F> {
    PoolView { queue: pre.queue.remove(job), shutting_down: pre.shutting_down }
}

/// A worker that finds the shared state at `pre`, with nobody else touching
/// it, is told to run the jobs of `served` one after the other, then gets
/// `last`, which is not another job, and leaves the state at `post`.
/// `pool_canceled` is what it reads from the pool's token at every look.
pub open spec fn worker_run<F>(
    pool_canceled: bool,
    pre: PoolView<F>,
    served: Seq<Job<F>>,
    last: WorkerAction<F>,
    post: PoolView<F>,
) -> bool
    decreases served.len(),
{
    if served.len() == 0 {
        !(last is Run) && step_allowed(pool_canceled, pre, last, post)
    } else {
        &&& step_allowed(pool_canceled, pre, WorkerAction::Run(served[0]), without(pre, served[0]))
        &&& worker_run(pool_canceled, without(pre, served[0]), served.drop_first(), last, post)
    }
}

/// What a worker runs is served from the queue in the order of
/// [`serves`], and the drain flag is not touched on the way.
pub proof fn lemma_run_serves_queue<F>(
    pool_canceled: bool,
    pre: PoolView<F>,
    served: Seq<Job<F>>,
    last: WorkerAction<F>,
    post: PoolView<F>,
)
    requires
        worker_run(pool_canceled, pre, served, last, post),
    ensures
        serves(pre.queue, served, post.queue),
        post.shutting_down == pre.shutting_down,
    decreases served.len(),
{
    if served.len() > 0 {
        lemma_run_serves_queue(
            pool_canceled,
            without(pre, served[0]),
            served.drop_first(),
            last,
            post,
        );
    }
}

/// Most urgent first: of two jobs that a worker runs with no submission in
/// between, the earlier one is not outranked by the later one. Jobs of equal
/// priority may run in either order.
pub proof fn lemma_run_by_priority<F>(
    pool_canceled: bool,
    pre: PoolView<F>,
    served: Seq<Job<F>>,
    last: WorkerAction<F>,
    post: PoolView<F>,
)
    requires
        worker_run(pool_canceled, pre, served, last, post),
    ensures
        forall|i: int, j: int|
            #![trigger served[i], served[j]]
            0 <= i < j < served.len() ==> served[i].rank() >= served[j].rank(),
{
    lemma_run_serves_queue(pool_canceled, pre, served, last, post);
    lemma_served_by_priority(pre.queue, served, post.queue);
}

/// Draining drops no job: a worker that never sees the pool's token set
/// leaves only when the queue is empty and the pool is draining, and by then
/// it has run exactly the jobs that were queued.
pub proof fn lemma_drain_runs_every_job<F>(
    pre: PoolView<F>,
    served: Seq<Job<F>>,
    post: PoolView<F>,
)
    requires
        worker_run(false, pre, served, WorkerAction::Exit, post),
    ensures
        pre.shutting_down,
        post.queue.len() == 0,
        served.to_multiset() == pre.queue,
    decreases served.len(),
{
    lemma_run_serves_queue(false, pre, served, WorkerAction::Exit, post);
    lemma_serving_conserves_jobs(pre.queue, served, post.queue);
    lemma_exit_means_drained(pre, served, post);
}

/// A worker that never sees the pool's token set leaves only when the queue
/// is empty.
proof fn lemma_exit_means_drained<F>(pre: PoolView<F>, served: Seq<Job<F>>, post: PoolView<F>)
    requires
        worker_run(false, pre, served, WorkerAction::Exit, post),
    ensures
        post.queue.len() == 0,
        pre.shutting_down,
    decreases served.len(),
{
    if served.len() > 0 {
        lemma_exit_means_drained(without(pre, served[0]), served.drop_first(), post);
    }
}

/// A hard stop runs nothing more: a worker that sees the pool's token set
/// takes no job, leaves at once, and what was queued stays queued, to be
/// thrown away with the pool.
pub proof fn lemma_stop_runs_nothing<F>(
    pre: PoolView<F>,
    served: Seq<Job<F>>,
    last: WorkerAction<F>,
    post: PoolView<F>,
)
    requires
        worker_run(true, pre, served, last, post),
    ensures
        served.len() == 0,
        last is Exit,
        post == pre,
{
}

/// While work is queued and the pool's token is not set, a worker neither
/// sleeps nor leaves: it takes a job, and the queue gets shorter by one.
pub proof fn lemma_pending_work_is_taken<F>(
    pre: PoolView<F>,
    action: WorkerAction<F>,
    post: PoolView<F>,
)
    requires
        step_allowed(false, pre, action, post),
        pre.queue.len() > 0,
    ensures
        action is Run,
        post.queue.len() == pre.queue.len() - 1,
{
    broadcast use vstd::multiset::group_multiset_axioms;

}

impl<F> ThreadPoolState<F> {
    /// Nothing queued, not draining.
    pub fn new() -> (state: ThreadPoolState<F>)
        ensures
            state@.queue == Multiset::<Job<F>>::empty(),
            !state@.shutting_down,
    {
        ThreadPoolState { queue: JobQueue::new(), shutting_down: false }
    }

    /// How many jobs wait for a worker.
    pub fn pending(&self) -> (n: usize)
        ensures
            n == self@.queue.len(),
    {
        self.queue.len()
    }

    /// Whether the pool was asked to drain.
    pub fn is_shutting_down(&self) -> (b: bool)
        ensures
            b == self@.shutting_down,
    {
        self.shutting_down
    }

    /// Queues `job`. The caller signals one waiting worker afterwards.
    pub fn submit(&mut self, job: Job<F>)
        ensures
            final(self)@.queue == old(self)@.queue.insert(job),
            final(self)@.shutting_down == old(self)@.shutting_down,
    {
        self.queue.push(job);
    }

    /// Asks the workers to finish what is queued and then stop. Nothing is
    /// taken from the queue and no token is set.
    pub fn begin_drain(&mut self)
        ensures
            final(self)@.queue == old(self)@.queue,
            final(self)@.shutting_down,
    {
        self.shutting_down = true;
    }

    /// Throws away every job that no worker has taken. Their result handles
    /// lose their sending ends with them.
    pub fn discard_pending(&mut self) -> (discarded: usize)
        ensures
            discarded == old(self)@.queue.len(),
            final(self)@.queue == Multiset::<Job<F>>::empty(),
            final(self)@.shutting_down == old(self)@.shutting_down,
    {
        let n = self.queue.len();
        self.queue.clear();
        n
    }

    /// What a waiting worker does next, decided and carried out while the
    /// lock is held. `pool_canceled` is what the worker just read from the
    /// pool's token.
    pub fn next_action(&mut self, pool_canceled: bool) -> (action: WorkerAction<F>)
        ensures
            step_allowed(pool_canceled, old(self)@, action, final(self)@),
    {
        if pool_canceled {
            return WorkerAction::Exit;
        }
        match self.queue.pop_max() {
            Some(job) => WorkerAction::Run(job),
            None => {
                if self.shutting_down {
                    WorkerAction::Exit
                } else {
                    WorkerAction::Sleep
                }
            },
        }
    }
}

impl<F> Default for ThreadPoolState<F> {
    fn default() -> (state: ThreadPoolState<F>)
        ensures
            state@.queue == Multiset::<Job<F>>::empty(),
            !state@.shutting_down,
    {
        ThreadPoolState::new()
    }
}

/// Where a worker stands in its loop.
#[derive(Debug, PartialEq, Eq, Structural, Clone, Copy)]
pub enum WorkerState {
    /// Looking for a job, or asleep until there is one.
    WaitingForJob,
    /// Running a job it took from the queue.
    Running,
    /// Out of the loop for good.
    Stopped,
}

/// The state a waiting worker is in after it was told to do `action`.
pub open spec fn state_after<F>(action: WorkerAction<F>) -> WorkerState {
    match action {
        WorkerAction::Run(_) => WorkerState::Running,
        WorkerAction::Sleep => WorkerState::WaitingForJob,
        WorkerAction::Exit => WorkerState::Stopped,
    }
}

/// One worker of the pool: its index, fixed when it is spawned, and its state.
pub struct Worker {
    id: usize,
    state: WorkerState,
}

impl Worker {
    /// The worker with index `id`, waiting for its first job.
    pub fn new(id: usize) -> (w: Worker)
        ensures
            w.id() == id,
            w.state() == WorkerState::WaitingForJob,
    {
        Worker { id, state: WorkerState::WaitingForJob }
    }

    pub closed spec fn id(&self) -> usize {
        self.id
    }

    pub closed spec fn state(&self) -> WorkerState {
        self.state
    }

    /// The index this worker was spawned with.
    pub fn index(&self) -> (id: usize)
        ensures
            id == self.id(),
    {
        self.id
    }

    /// The state this worker is in.
    pub fn current_state(&self) -> (s: WorkerState)
        ensures
            s == self.state(),
    {
        self.state
    }

    /// Whether the worker holds a job it has not reported as done.
    pub fn is_running(&self) -> (b: bool)
        ensures
            b == (self.state() == WorkerState::Running),
    {
        match self.state {
            WorkerState::Running => true,
            _ => false,
        }
    }

    /// One look at the shared state, under the lock. A stopped worker stays
    /// stopped and touches nothing. A waiting worker follows
    /// [`step_allowed`] and moves to the state that its action calls for: it
    /// takes at most one job per look.
    ///
    /// A worker that runs a job does not look for another one: it reports the
    /// job as done first.
    pub fn advance<F>(&mut self, pool: &mut ThreadPoolState<F>, pool_canceled: bool) -> (action:
        WorkerAction<F>)
        requires
            old(self).state() != WorkerState::Running,
        ensures
            final(self).id() == old(self).id(),
            old(self).state() == WorkerState::Stopped ==> action is Exit && final(pool)@ == old(
                pool,
            )@,
            old(self).state() == WorkerState::WaitingForJob ==> step_allowed(
                pool_canceled,
                old(pool)@,
                action,
                final(pool)@,
            ),
            final(self).state() == state_after(action),
    {
        match self.state {
            WorkerState::Stopped => WorkerAction::Exit,
            _ => {
                let action = pool.next_action(pool_canceled);
                self.state =
                match &action {
                    WorkerAction::Run(_) => WorkerState::Running,
                    WorkerAction::Sleep => WorkerState::WaitingForJob,
                    WorkerAction::Exit => WorkerState::Stopped,
                };
                action
            },
        }
    }

    /// Reports that the job this worker ran has ended, however it ended: the
    /// worker goes back to waiting. In any other state nothing changes.
    pub fn job_done(&mut self)
        ensures
            final(self).id() == old(self).id(),
            final(self).state() == if old(self).state() == WorkerState::Running {
                WorkerState::WaitingForJob
            } else {
                old(self).state()
            },
    {
        match self.state {
            WorkerState::Running => {
                self.state = WorkerState::WaitingForJob;
            },
            _ => {},
        }
    }
}

} // verus!
