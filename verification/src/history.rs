//! What holds of every run of the pool, told as the sequence of things that
//! happened to its queue.
//!
//! Submissions and workers touch the queue one at a time, under the lock, so
//! whatever the threads do, the queue sees one sequence of events: a job is
//! queued ([`crate::pool::ThreadPoolState::submit`]) or a worker takes one
//! ([`crate::pool::ThreadPoolState::next_action`]).

use crate::job::Job;
use crate::queue::is_most_urgent;
use vstd::multiset::Multiset;
use vstd::prelude::*;

verus! {

/// One thing that happened to the queue.
pub ghost enum Event<F> {
    /// This job was queued.
    Submit(Job<F>),
    /// A worker took this job, to run it.
    Take(Job<F>),
}

/// The queue can go from `start` to `end` through `events`: every job that
/// was taken was queued at that moment, and none that was queued then
/// outranked it.
pub open spec fn replays<F>(
    start: Multiset<Job<F>>,
    events: Seq<Event<F>>,
    end: Multiset<Job<F>>,
) -> bool
    decreases events.len(),
{
    if events.len() == 0 {
        end == start
    } else {
        match events[0] {
            Event::Submit(job) => replays(start.insert(job), events.drop_first(), end),
            Event::Take(job) => is_most_urgent(job, start) && replays(
                start.remove(job),
                events.drop_first(),
                end,
            ),
        }
    }
}

/// The jobs that were queued in the course of `events`.
pub open spec fn submitted<F>(events: Seq<Event<F>>) -> Multiset<Job<F>>
    decreases events.len(),
{
    if events.len() == 0 {
        Multiset::empty()
    } else {
        match events[0] {
            Event::Submit(job) => submitted(events.drop_first()).insert(job),
            Event::Take(_) => submitted(events.drop_first()),
        }
    }
}

/// The jobs that workers took in the course of `events`.
pub open spec fn taken<F>(events: Seq<Event<F>>) -> Multiset<Job<F>>
    decreases events.len(),
{
    if events.len() == 0 {
        Multiset::empty()
    } else {
        match events[0] {
            Event::Submit(_) => taken(events.drop_first()),
            Event::Take(job) => taken(events.drop_first()).insert(job),
        }
    }
}

/// No job is queued with a priority above that of a job queued before it.
pub open spec fn submissions_descend<F>(events: Seq<Event<F>>) -> bool {
    forall|i: int, j: int|
        #![trigger events[i], events[j]]
        0 <= i < j < events.len() && events[i] is Submit && events[j] is Submit
            ==> events[i]->Submit_0.rank() >= events[j]->Submit_0.rank()
}

/// Nothing that is queued at the start is outranked by a job that `events`
/// queues later.
pub open spec fn start_outranks_submissions<F>(
    start: Multiset<Job<F>>,
    events: Seq<Event<F>>,
) -> bool {
    forall|queued: Job<F>, k: int|
        #![trigger start.contains(queued), events[k]]
        start.contains(queued) && 0 <= k < events.len() && events[k] is Submit
            ==> queued.rank() >= events[k]->Submit_0.rank()
}

/// No job is silently dropped and none is made up: the jobs queued at the
/// start together with those submitted since are the jobs that were taken
/// together with those still queued. So once a pool that started empty is
/// empty again, every submitted job has been taken by a worker, once.
pub proof fn lemma_history_conserves_jobs<F>(
    start: Multiset<Job<F>>,
    events: Seq<Event<F>>,
    end: Multiset<Job<F>>,
)
    requires
        replays(start, events, end),
    ensures
        start.add(submitted(events)) == taken(events).add(end),
        start.len() == 0 && end.len() == 0 ==> submitted(events) == taken(events),
    decreases events.len(),
{
    broadcast use vstd::multiset::group_multiset_axioms;

    if events.len() == 0 {
        assert(start.add(submitted(events)) =~= taken(events).add(end));
    } else {
        let rest = events.drop_first();
        match events[0] {
            Event::Submit(job) => {
                lemma_history_conserves_jobs(start.insert(job), rest, end);
                assert(start.add(submitted(events)) =~= start.insert(job).add(submitted(rest)));
            },
            Event::Take(job) => {
                lemma_history_conserves_jobs(start.remove(job), rest, end);
                assert(start =~= start.remove(job).insert(job));
                assert(start.add(submitted(events)) =~= start.remove(job).add(
                    submitted(rest),
                ).insert(job));
                assert(taken(events).add(end) =~= taken(rest).add(end).insert(job));
            },
        }
    }
    if start.len() == 0 && end.len() == 0 {
        assert(start =~= Multiset::<Job<F>>::empty());
        assert(end =~= Multiset::<Job<F>>::empty());
        assert(submitted(events) =~= start.add(submitted(events)));
        assert(taken(events) =~= taken(events).add(end));
    }
}

/// A job that is taken was queued at the start or submitted before it was
/// taken.
proof fn lemma_taken_was_queued<F>(
    start: Multiset<Job<F>>,
    events: Seq<Event<F>>,
    end: Multiset<Job<F>>,
    j: int,
)
    requires
        replays(start, events, end),
        0 <= j < events.len(),
        events[j] is Take,
    ensures
        start.contains(events[j]->Take_0) || exists|k: int|
            0 <= k < j && #[trigger] events[k] == Event::Submit(events[j]->Take_0),
    decreases events.len(),
{
    broadcast use vstd::multiset::group_multiset_axioms;

    if j > 0 {
        let rest = events.drop_first();
        let job = events[j]->Take_0;
        assert(rest[j - 1] == events[j]);
        match events[0] {
            Event::Submit(first) => {
                lemma_taken_was_queued(start.insert(first), rest, end, j - 1);
                if start.insert(first).contains(job) {
                    if !start.contains(job) {
                        assert(first == job);
                        assert(events[0] == Event::Submit(job));
                    }
                } else {
                    let k = choose|k: int|
                        0 <= k < j - 1 && #[trigger] rest[k] == Event::Submit(job);
                    assert(events[k + 1] == Event::Submit(job));
                }
            },
            Event::Take(first) => {
                lemma_taken_was_queued(start.remove(first), rest, end, j - 1);
                if start.remove(first).contains(job) {
                    assert(start.contains(job));
                } else {
                    let k = choose|k: int|
                        0 <= k < j - 1 && #[trigger] rest[k] == Event::Submit(job);
                    assert(events[k + 1] == Event::Submit(job));
                }
            },
        }
    }
}

/// Jobs are started by priority: when jobs are submitted with priorities that
/// never rise, then of two jobs that workers take, the one taken first is
/// not outranked by the one taken later, however submissions and workers
/// interleave. Jobs of equal priority may start in either order.
pub proof fn lemma_history_by_priority<F>(
    start: Multiset<Job<F>>,
    events: Seq<Event<F>>,
    end: Multiset<Job<F>>,
)
    requires
        replays(start, events, end),
        submissions_descend(events),
        start_outranks_submissions(start, events),
    ensures
        forall|i: int, j: int|
            #![trigger events[i], events[j]]
            0 <= i < j < events.len() && events[i] is Take && events[j] is Take
                ==> events[i]->Take_0.rank() >= events[j]->Take_0.rank(),
    decreases events.len(),
{
    broadcast use vstd::multiset::group_multiset_axioms;

    if events.len() > 0 {
        let rest = events.drop_first();
        let next = match events[0] {
            Event::Submit(job) => start.insert(job),
            Event::Take(job) => start.remove(job),
        };
        assert(replays(next, rest, end));
        assert(submissions_descend(rest)) by {
            assert forall|i: int, j: int|
                #![trigger rest[i], rest[j]]
                0 <= i < j < rest.len() && rest[i] is Submit && rest[j] is Submit implies
                rest[i]->Submit_0.rank() >= rest[j]->Submit_0.rank() by {
                assert(rest[i] == events[i + 1]);
                assert(rest[j] == events[j + 1]);
            }
        }
        assert(start_outranks_submissions(next, rest)) by {
            assert forall|queued: Job<F>, k: int|
                #![trigger next.contains(queued), rest[k]]
                next.contains(queued) && 0 <= k < rest.len() && rest[k] is Submit implies
                queued.rank() >= rest[k]->Submit_0.rank() by {
                assert(rest[k] == events[k + 1]);
                if start.contains(queued) {
                } else {
                    assert(events[0] == Event::Submit(queued));
                }
            }
        }
        lemma_history_by_priority(next, rest, end);
        assert forall|i: int, j: int|
            #![trigger events[i], events[j]]
            0 <= i < j < events.len() && events[i] is Take && events[j] is Take implies
            events[i]->Take_0.rank() >= events[j]->Take_0.rank() by {
            assert(rest[j - 1] == events[j]);
            if i == 0 {
                let first = events[0]->Take_0;
                let later = events[j]->Take_0;
                lemma_taken_was_queued(next, rest, end, j - 1);
                if next.contains(later) {
                    assert(start.contains(later));
                } else {
                    let k = choose|k: int|
                        0 <= k < j - 1 && #[trigger] rest[k] == Event::Submit(later);
                    assert(events[k + 1] == Event::Submit(later));
                    assert(start.contains(first));
                }
            } else {
                assert(rest[i - 1] == events[i]);
            }
        }
    }
}

} // verus!
