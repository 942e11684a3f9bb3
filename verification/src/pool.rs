//! The dispatch logic of the fixed-size worker pool: a FIFO queue of
//! submitted jobs, a bounded set of workers, and the accounting that shows
//! each submitted job is executed by exactly one worker, exactly once.
//! The threads themselves live outside this crate; they drive this state
//! machine through `execute`, `take_job` and `finish_job`.
use vstd::prelude::*;
use vstd::multiset::Multiset;
use vstd::seq_lib::group_to_multiset_ensures;
use vstd::multiset::group_multiset_axioms;

verus! {

/// The multiset of jobs currently held by busy workers.
pub open spec fn running_jobs(w: Seq<Option<u64>>) -> Multiset<u64>
    decreases w.len(),
{
    if w.len() == 0 {
        Multiset::<u64>::empty()
    } else {
        match w[0] {
            Some(j) => running_jobs(w.drop_first()).insert(j),
            None => running_jobs(w.drop_first()),
        }
    }
}

pub proof fn lemma_running_len(w: Seq<Option<u64>>)
    ensures
        running_jobs(w).len() <= w.len(),
    decreases w.len(),
{
    broadcast use group_multiset_axioms;

    if w.len() > 0 {
        lemma_running_len(w.drop_first());
    }
}

pub proof fn lemma_running_all_idle(w: Seq<Option<u64>>)
    requires
        forall|i: int| 0 <= i < w.len() ==> w[i] is None,
    ensures
        running_jobs(w) == Multiset::<u64>::empty(),
    decreases w.len(),
{
    if w.len() > 0 {
        lemma_running_all_idle(w.drop_first());
    }
}

pub proof fn lemma_running_assign(w: Seq<Option<u64>>, i: int, j: u64)
    requires
        0 <= i < w.len(),
        w[i] is None,
    ensures
        running_jobs(w.update(i, Some(j))) =~= running_jobs(w).insert(j),
    decreases w.len(),
{
    broadcast use group_multiset_axioms;

    if i == 0 {
        assert(w.update(0, Some(j)).drop_first() =~= w.drop_first());
    } else {
        lemma_running_assign(w.drop_first(), i - 1, j);
        assert(w.update(i, Some(j)).drop_first() =~= w.drop_first().update(i - 1, Some(j)));
        assert(w.update(i, Some(j))[0] == w[0]);
    }
}

pub proof fn lemma_running_clear(w: Seq<Option<u64>>, i: int, j: u64)
    requires
        0 <= i < w.len(),
        w[i] == Some(j),
    ensures
        running_jobs(w) =~= running_jobs(w.update(i, None)).insert(j),
    decreases w.len(),
{
    broadcast use group_multiset_axioms;

    if i == 0 {
        assert(w.update(0, None::<u64>).drop_first() =~= w.drop_first());
    } else {
        lemma_running_clear(w.drop_first(), i - 1, j);
        assert(w.update(i, None::<u64>).drop_first() =~= w.drop_first().update(
            i - 1,
            None::<u64>,
        ));
        assert(w.update(i, None::<u64>)[0] == w[0]);
    }
}

/// A fixed set of workers and one shared FIFO job queue. Jobs are named by
/// identifiers; the work they stand for is owned by the caller. A worker
/// slot holds the job it is executing, or nothing when idle.
pub struct Pool {
    pub workers: Vec<Option<u64>>,
    pub queue: Vec<u64>,
    pub completed: Vec<u64>,
    pub submitted: Ghost<Seq<u64>>,
}

impl Pool {
    /// The fixed number of workers.
    pub open spec fn size(self) -> nat {
        self.workers@.len()
    }

    /// The jobs waiting in the queue, oldest first.
    pub open spec fn pending(self) -> Seq<u64> {
        self.queue@
    }

    /// The jobs being executed right now.
    pub open spec fn running(self) -> Multiset<u64> {
        running_jobs(self.workers@)
    }

    /// Every submitted job, in submission order.
    pub open spec fn submitted_jobs(self) -> Seq<u64> {
        self.submitted@
    }

    /// Every job the pool has accepted and not lost: waiting, running, or
    /// completed.
    pub open spec fn in_flight(self) -> Multiset<u64> {
        self.pending().to_multiset().add(self.running()).add(self.completed@.to_multiset())
    }

    /// The pool invariant: at least one worker, no job submitted twice,
    /// and every submitted job accounted for exactly once.
    pub open spec fn wf(self) -> bool {
        &&& self.size() >= 1
        &&& self.submitted@.no_duplicates()
        &&& self.in_flight() == self.submitted@.to_multiset()
    }

    /// Create a pool of exactly `size` idle workers and an empty queue.
    /// A pool of zero workers is invalid.
    pub fn new(size: usize) -> (p: Pool)
        requires
            size >= 1,
        ensures
            p.wf(),
            p.size() == size,
            p.pending() == Seq::<u64>::empty(),
            p.running() == Multiset::<u64>::empty(),
            p.completed@ == Seq::<u64>::empty(),
            p.submitted_jobs() == Seq::<u64>::empty(),
    {
        broadcast use group_to_multiset_ensures, group_multiset_axioms;

        let mut workers: Vec<Option<u64>> = Vec::new();
        let mut i: usize = 0;
        while i < size
            invariant
                i <= size,
                workers@.len() == i,
                forall|k: int| 0 <= k < i ==> workers@[k] is None,
            decreases size - i,
        {
            workers.push(None);
            i = i + 1;
        }
        let p = Pool {
            workers,
            queue: Vec::new(),
            completed: Vec::new(),
            submitted: Ghost(Seq::empty()),
        };
        proof {
            lemma_running_all_idle(p.workers@);
            assert(p.in_flight() =~= Seq::<u64>::empty().to_multiset());
        }
        p
    }

    /// Enqueue a job. The submitter never waits: the queue is the buffer,
    /// and the job runs once some worker becomes free.
    pub fn execute(&mut self, job: u64)
        requires
            old(self).wf(),
            !old(self).submitted_jobs().contains(job),
        ensures
            final(self).wf(),
            final(self).submitted_jobs() == old(self).submitted_jobs().push(job),
            final(self).pending() == old(self).pending().push(job),
            final(self).workers@ == old(self).workers@,
            final(self).completed@ == old(self).completed@,
    {
        broadcast use group_to_multiset_ensures, group_multiset_axioms;

        self.queue.push(job);
        proof {
            self.submitted@ = self.submitted@.push(job);
            assert forall|i: int, k: int|
                0 <= i < self.submitted@.len() && 0 <= k < self.submitted@.len() && i
                    != k implies self.submitted@[i] != self.submitted@[k] by {
                if i < self.submitted@.len() - 1 && k < self.submitted@.len() - 1 {
                } else {
                    assert(old(self).submitted@.contains(job) ==> exists|m: int|
                        0 <= m < old(self).submitted@.len() && old(self).submitted@[m] == job);
                }
            }
            assert(self.in_flight() =~= self.submitted@.to_multiset());
        }
    }

    /// Hand the oldest queued job to the idle worker `w`. The queue is
    /// FIFO: the job handed out is the one submitted earliest of those
    /// waiting.
    pub fn take_job(&mut self, w: usize) -> (job: u64)
        requires
            old(self).wf(),
            w < old(self).size(),
            old(self).workers@[w as int] is None,
            old(self).pending().len() > 0,
        ensures
            final(self).wf(),
            job == old(self).pending()[0],
            final(self).pending() == old(self).pending().drop_first(),
            final(self).workers@ == old(self).workers@.update(w as int, Some(job)),
            final(self).completed@ == old(self).completed@,
            final(self).submitted_jobs() == old(self).submitted_jobs(),
    {
        broadcast use group_to_multiset_ensures, group_multiset_axioms;

        let job = self.queue.remove(0);
        self.workers.set(w, Some(job));
        proof {
            lemma_running_assign(old(self).workers@, w as int, job);
            assert(self.queue@ =~= old(self).queue@.drop_first());
            assert(old(self).queue@.contains(job));
            assert(self.queue@.to_multiset() == old(self).queue@.to_multiset().remove(job));
            assert(self.in_flight() =~= old(self).in_flight());
        }
        job
    }

    /// Record that worker `w` finished its job and is idle again.
    pub fn finish_job(&mut self, w: usize)
        requires
            old(self).wf(),
            w < old(self).size(),
            old(self).workers@[w as int] is Some,
        ensures
            final(self).wf(),
            final(self).workers@ == old(self).workers@.update(w as int, None),
            final(self).completed@ == old(self).completed@.push(old(self).workers@[w as int].unwrap()),
            final(self).pending() == old(self).pending(),
            final(self).submitted_jobs() == old(self).submitted_jobs(),
    {
        broadcast use group_to_multiset_ensures, group_multiset_axioms;

        let job: u64 = match self.workers[w] {
            Some(j) => j,
            None => {
                proof {
                    assert(false);
                }
                0
            },
        };
        self.workers.set(w, None);
        self.completed.push(job);
        proof {
            lemma_running_clear(old(self).workers@, w as int, job);
            assert(self.in_flight() =~= old(self).in_flight());
        }
    }
}

/// Law: however the pool is driven, no more jobs run concurrently than the
/// pool has workers.
pub proof fn lemma_bounded_concurrency(p: Pool)
    requires
        p.wf(),
    ensures
        p.running().len() <= p.size(),
{
    lemma_running_len(p.workers@);
}

/// Law: every submitted job is accounted for exactly once — waiting,
/// running, or completed — and no unsubmitted job ever appears.
pub proof fn lemma_jobs_exactly_once(p: Pool)
    requires
        p.wf(),
    ensures
        forall|j: u64| p.submitted_jobs().contains(j) ==> p.in_flight().count(j) == 1,
        forall|j: u64| !p.submitted_jobs().contains(j) ==> p.in_flight().count(j) == 0,
{
    broadcast use group_to_multiset_ensures, group_multiset_axioms;

    p.submitted@.lemma_multiset_has_no_duplicates();
}

/// Law: when the queue has drained and every worker is idle, the completed
/// jobs are exactly the submitted ones, each executed once.
pub proof fn lemma_all_executed(p: Pool)
    requires
        p.wf(),
        p.pending().len() == 0,
        forall|i: int| 0 <= i < p.size() ==> p.workers@[i] is None,
    ensures
        p.completed@.to_multiset() == p.submitted_jobs().to_multiset(),
        p.completed@.no_duplicates(),
{
    broadcast use group_to_multiset_ensures, group_multiset_axioms;

    lemma_running_all_idle(p.workers@);
    assert(p.pending() =~= Seq::<u64>::empty());
    assert(p.completed@.to_multiset() =~= p.in_flight());
    p.submitted@.lemma_multiset_has_no_duplicates();
    p.completed@.lemma_multiset_has_no_duplicates_conv();
}

} // verus!
