//! The pending jobs, most urgent first.

use crate::job::Job;
use vstd::multiset::Multiset;
use vstd::prelude::*;

verus! {

/// An entry of `m` that no entry of `m` outranks.
pub open spec fn is_most_urgent<F>(job: Job<F>, m: Multiset<Job<F>>) -> bool {
    &&& m.contains(job)
    &&& forall|other: Job<F>| #[trigger] m.contains(other) ==> other.rank() <= job.rank()
}

/// Taking `job` out of `pre` leaves `post`, and no entry of `pre` outranks `job`.
pub open spec fn takes<F>(pre: Multiset<Job<F>>, job: Job<F>, post: Multiset<Job<F>>) -> bool {
    is_most_urgent(job, pre) && post == pre.remove(job)
}

/// Starting from `start`, the jobs of `served` can be taken out one after the
/// other in that order, each being most urgent when its turn comes, and
/// `rest` is what is then still queued.
pub open spec fn serves<F>(
    start: Multiset<Job<F>>,
    served: Seq<Job<F>>,
    rest: Multiset<Job<F>>,
) -> bool
    decreases served.len(),
{
    if served.len() == 0 {
        rest == start
    } else {
        is_most_urgent(served[0], start) && serves(
            start.remove(served[0]),
            served.drop_first(),
            rest,
        )
    }
}

/// No job is lost or made up while jobs are served: what was queued at the
/// start is exactly what was served together with what is still queued. In
/// particular, once nothing is left, every queued job has been served.
pub proof fn lemma_serving_conserves_jobs<F>(
    start: Multiset<Job<F>>,
    served: Seq<Job<F>>,
    rest: Multiset<Job<F>>,
)
    requires
        serves(start, served, rest),
    ensures
        start == served.to_multiset().add(rest),
        rest.len() == 0 ==> served.to_multiset() == start,
    decreases served.len(),
{
    broadcast use vstd::multiset::group_multiset_axioms;
    broadcast use vstd::seq_lib::group_to_multiset_ensures;

    if served.len() == 0 {
        assert(served.to_multiset() =~= Multiset::<Job<F>>::empty());
        assert(start =~= served.to_multiset().add(rest));
    } else {
        let first = served[0];
        let tail = served.drop_first();
        lemma_serving_conserves_jobs(start.remove(first), tail, rest);
        assert(served =~= tail.insert(0, first));
        vstd::seq_lib::to_multiset_insert(tail, 0, first);
        assert(start.contains(first));
        assert(start =~= start.remove(first).insert(first));
        assert(start =~= served.to_multiset().add(rest));
    }
    if rest.len() == 0 {
        assert(rest =~= Multiset::<Job<F>>::empty());
        assert(served.to_multiset() =~= start);
    }
}

/// Jobs are served most urgent first: of two served jobs, the earlier one is
/// not outranked by the later one. Jobs of equal priority may come in either
/// order.
pub proof fn lemma_served_by_priority<F>(
    start: Multiset<Job<F>>,
    served: Seq<Job<F>>,
    rest: Multiset<Job<F>>,
)
    requires
        serves(start, served, rest),
    ensures
        forall|i: int, j: int|
            #![trigger served[i], served[j]]
            0 <= i < j < served.len() ==> served[i].rank() >= served[j].rank(),
        forall|i: int, left: Job<F>|
            #![trigger served[i], rest.contains(left)]
            0 <= i < served.len() && rest.contains(left) ==> served[i].rank() >= left.rank(),
    decreases served.len(),
{
    broadcast use vstd::multiset::group_multiset_axioms;

    if served.len() > 0 {
        let first = served[0];
        let tail = served.drop_first();
        let after = start.remove(first);
        lemma_served_by_priority(after, tail, rest);
        lemma_serving_conserves_jobs(after, tail, rest);
        assert forall|i: int, j: int|
            #![trigger served[i], served[j]]
            0 <= i < j < served.len() implies served[i].rank() >= served[j].rank() by {
            if i == 0 {
                let later = served[j];
                assert(later == tail[j - 1]);
                vstd::seq_lib::to_multiset_contains(tail, later);
                assert(tail.contains(later));
                assert(after.contains(later));
                assert(start.contains(later));
            } else {
                assert(served[i] == tail[i - 1]);
                assert(served[j] == tail[j - 1]);
            }
        }
        assert forall|i: int, left: Job<F>|
            #![trigger served[i], rest.contains(left)]
            0 <= i < served.len() && rest.contains(left) implies served[i].rank()
            >= left.rank() by {
            if i == 0 {
                assert(after.contains(left));
                assert(start.contains(left));
            } else {
                assert(served[i] == tail[i - 1]);
            }
        }
    }
}

/// The array form of a binary max-heap: no entry outranks its parent.
spec fn heap_ordered<F>(s: Seq<Job<F>>) -> bool {
    forall|p: int, c: int|
        #![trigger s[p], s[c]]
        0 <= p < c < s.len() && p == (c - 1) / 2 ==> s[p].rank() >= s[c].rank()
}

/// Heap order everywhere but between `hole` and its parent.
spec fn ordered_above<F>(s: Seq<Job<F>>, hole: int) -> bool {
    &&& forall|p: int, c: int|
        #![trigger s[p], s[c]]
        0 <= p < c < s.len() && p == (c - 1) / 2 && c != hole ==> s[p].rank() >= s[c].rank()
    &&& forall|g: int, c: int|
        #![trigger s[g], s[c]]
        0 < hole && 0 <= g < c < s.len() && g == (hole - 1) / 2 && hole == (c - 1) / 2
            ==> s[g].rank() >= s[c].rank()
}

/// Heap order everywhere but between `hole` and its children.
spec fn ordered_below<F>(s: Seq<Job<F>>, hole: int) -> bool {
    &&& forall|p: int, c: int|
        #![trigger s[p], s[c]]
        0 <= p < c < s.len() && p == (c - 1) / 2 && p != hole ==> s[p].rank() >= s[c].rank()
    &&& forall|g: int, c: int|
        #![trigger s[g], s[c]]
        0 < hole && 0 <= g < c < s.len() && g == (hole - 1) / 2 && hole == (c - 1) / 2
            ==> s[g].rank() >= s[c].rank()
}

/// `s` with the entries at `i` and `j` exchanged.
spec fn exchanged<T>(s: Seq<T>, i: int, j: int) -> Seq<T> {
    s.update(i, s[j]).update(j, s[i])
}

/// Exchanging two entries keeps what the sequence holds.
proof fn lemma_exchange_keeps_contents<T>(s: Seq<T>, i: int, j: int)
    requires
        0 <= i < s.len(),
        0 <= j < s.len(),
    ensures
        exchanged(s, i, j).to_multiset() == s.to_multiset(),
{
    broadcast use vstd::multiset::group_multiset_axioms;

    let s1 = s.update(i, s[j]);
    vstd::seq_lib::to_multiset_update(s, i, s[j]);
    vstd::seq_lib::to_multiset_update(s1, j, s[i]);
    vstd::seq_lib::to_multiset_contains(s, s[i]);
    vstd::seq_lib::to_multiset_contains(s, s[j]);
    assert(s.contains(s[i]));
    assert(s.contains(s[j]));
    assert(exchanged(s, i, j).to_multiset() =~= s.to_multiset());
}

/// In a heap the first entry is outranked by none.
proof fn lemma_root_is_most_urgent<F>(s: Seq<Job<F>>, i: int)
    requires
        heap_ordered(s),
        0 <= i < s.len(),
    ensures
        s[0].rank() >= s[i].rank(),
    decreases i,
{
    if i > 0 {
        let p = (i - 1) / 2;
        assert(s[p].rank() >= s[i].rank());
        lemma_root_is_most_urgent(s, p);
    }
}

/// Exchanges two entries of a vector.
fn swap_entries<T>(v: &mut Vec<T>, i: usize, j: usize)
    requires
        i < old(v)@.len(),
        j < old(v)@.len(),
    ensures
        final(v)@ == exchanged(old(v)@, i as int, j as int),
{
    if i == j {
        assert(v@ =~= exchanged(v@, i as int, j as int));
        return ;
    }
    let lo: usize = if i < j { i } else { j };
    let hi: usize = if i < j { j } else { i };
    let (left, right) = v.as_mut_slice().split_at_mut(hi);
    core::mem::swap(&mut left[lo], &mut right[0]);
    assert(v@ =~= exchanged(old(v)@, i as int, j as int));
}

/// Moves the entry at `start` towards the root until its parent no longer
/// ranks below it.
fn sift_up<F>(v: &mut Vec<Job<F>>, start: usize)
    requires
        start < old(v)@.len(),
        ordered_above(old(v)@, start as int),
    ensures
        heap_ordered(final(v)@),
        final(v)@.to_multiset() == old(v)@.to_multiset(),
        final(v)@.len() == old(v)@.len(),
{
    let mut i: usize = start;
    while i > 0
        invariant
            i < v@.len(),
            v@.len() == old(v)@.len(),
            v@.to_multiset() == old(v)@.to_multiset(),
            ordered_above(v@, i as int),
        ensures
            heap_ordered(v@),
            v@.len() == old(v)@.len(),
            v@.to_multiset() == old(v)@.to_multiset(),
        decreases i,
    {
        let p: usize = (i - 1) / 2;
        if !v[i].outranks(&v[p]) {
            break;
        }
        proof {
            lemma_exchange_keeps_contents(v@, i as int, p as int);
        }
        swap_entries(v, i, p);
        i = p;
    }
}

/// Moves the entry at `start` away from the root until neither child
/// outranks it.
fn sift_down<F>(v: &mut Vec<Job<F>>, start: usize)
    requires
        start < old(v)@.len(),
        ordered_below(old(v)@, start as int),
    ensures
        heap_ordered(final(v)@),
        final(v)@.to_multiset() == old(v)@.to_multiset(),
        final(v)@.len() == old(v)@.len(),
{
    let n: usize = v.len();
    let mut i: usize = start;
    loop
        invariant
            n == v@.len(),
            i < n,
            v@.len() == old(v)@.len(),
            v@.to_multiset() == old(v)@.to_multiset(),
            ordered_below(v@, i as int),
        ensures
            heap_ordered(v@),
            v@.len() == old(v)@.len(),
            v@.to_multiset() == old(v)@.to_multiset(),
        decreases n - i,
    {
        if i >= n - 1 - i {
            break;
        }
        let left: usize = 2 * i + 1;
        let right: usize = left + 1;
        let mut child: usize = left;
        if right < n && v[right].outranks(&v[left]) {
            child = right;
        }
        if !v[child].outranks(&v[i]) {
            break;
        }
        proof {
            lemma_exchange_keeps_contents(v@, i as int, child as int);
        }
        swap_entries(v, i, child);
        i = child;
    }
}

/// A max-heap of jobs keyed by priority.
///
/// Its view is the multiset of the queued jobs: which of several jobs of
/// equal priority leaves first is left open.
pub struct JobQueue<F> {
    heap: Vec<Job<F>>,
}

impl<F> View for JobQueue<F> {
    type V = Multiset<Job<F>>;

    closed spec fn view(&self) -> Multiset<Job<F>> {
        self.heap@.to_multiset()
    }
}

impl<F> JobQueue<F> {
    #[verifier::type_invariant]
    spec fn ordered(&self) -> bool {
        heap_ordered(self.heap@)
    }

    /// The empty queue.
    pub fn new() -> (q: JobQueue<F>)
        ensures
            q@ == Multiset::<Job<F>>::empty(),
    {
        let q = JobQueue { heap: Vec::new() };
        proof {
            broadcast use vstd::seq_lib::group_to_multiset_ensures;
            assert(q.heap@.to_multiset() =~= Multiset::<Job<F>>::empty());
        }
        q
    }

    /// How many jobs are queued.
    pub fn len(&self) -> (n: usize)
        ensures
            n == self@.len(),
    {
        proof {
            vstd::seq_lib::to_multiset_len(self.heap@);
        }
        self.heap.len()
    }

    pub fn is_empty(&self) -> (b: bool)
        ensures
            b == (self@.len() == 0),
    {
        self.len() == 0
    }

    /// Queues `job`.
    pub fn push(&mut self, job: Job<F>)
        ensures
            final(self)@ == old(self)@.insert(job),
    {
        proof {
            use_type_invariant(&*self);
            vstd::seq_lib::to_multiset_build(self.heap@, job);
        }
        let mut heap: Vec<Job<F>> = Vec::new();
        core::mem::swap(&mut self.heap, &mut heap);
        push_entry(&mut heap, job);
        self.heap = heap;
    }

    /// Takes out a job that no queued job outranks, or reports that the
    /// queue is empty.
    pub fn pop_max(&mut self) -> (r: Option<Job<F>>)
        ensures
            match r {
                None => old(self)@.len() == 0 && final(self)@ == old(self)@,
                Some(job) => takes(old(self)@, job, final(self)@),
            },
    {
        proof {
            use_type_invariant(&*self);
            vstd::seq_lib::to_multiset_len(self.heap@);
        }
        let mut heap: Vec<Job<F>> = Vec::new();
        core::mem::swap(&mut self.heap, &mut heap);
        let top = pop_entry(&mut heap);
        self.heap = heap;
        top
    }

    /// Discards every queued job.
    pub fn clear(&mut self)
        ensures
            final(self)@ == Multiset::<Job<F>>::empty(),
    {
        self.heap = Vec::new();
        proof {
            assert(self.heap@.to_multiset() =~= Multiset::<Job<F>>::empty()) by {
                broadcast use vstd::seq_lib::group_to_multiset_ensures;
            }
        }
    }
}

/// Appends `job` and restores heap order.
fn push_entry<F>(v: &mut Vec<Job<F>>, job: Job<F>)
    requires
        heap_ordered(old(v)@),
    ensures
        heap_ordered(final(v)@),
        final(v)@.to_multiset() == old(v)@.push(job).to_multiset(),
{
    v.push(job);
    let last: usize = v.len() - 1;
    sift_up(v, last);
}

/// Removes the first entry of a heap and restores heap order.
fn pop_entry<F>(v: &mut Vec<Job<F>>) -> (r: Option<Job<F>>)
    requires
        heap_ordered(old(v)@),
    ensures
        heap_ordered(final(v)@),
        match r {
            None => old(v)@.len() == 0 && final(v)@ == old(v)@,
            Some(job) => is_most_urgent(job, old(v)@.to_multiset()) && final(v)@.to_multiset()
                == old(v)@.to_multiset().remove(job),
        },
{
    let n: usize = v.len();
    if n == 0 {
        return None;
    }
    proof {
        lemma_exchange_keeps_contents(v@, 0, n - 1);
    }
    swap_entries(v, 0, n - 1);
    let ghost swapped = v@;
    let top = v.pop();
    match top {
        None => None,
        Some(job) => {
            proof {
                let s = old(v)@;
                assert(job == s[0]);
                assert(swapped == v@.push(job));
                vstd::seq_lib::to_multiset_build(v@, job);
                assert(s.to_multiset().contains(job)) by {
                    vstd::seq_lib::to_multiset_contains(s, job);
                    assert(s.contains(job));
                }
                assert forall|other: Job<F>| #[trigger]
                    s.to_multiset().contains(other) implies other.rank() <= job.rank() by {
                    vstd::seq_lib::to_multiset_contains(s, other);
                    let k = choose|k: int| 0 <= k < s.len() && s[k] == other;
                    lemma_root_is_most_urgent(s, k);
                }
                assert(v@.to_multiset() =~= s.to_multiset().remove(job)) by {
                    broadcast use vstd::multiset::group_multiset_axioms;
                }
            }
            if v.len() > 0 {
                sift_down(v, 0);
            }
            Some(job)
        },
    }
}

} // verus!
