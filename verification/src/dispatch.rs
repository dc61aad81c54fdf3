use vstd::prelude::*;
use crate::enumerate::job_paths;
use crate::job::Job;

verus! {

/// The worker-pool dispatch protocol, tracked as plain state.
///
/// The real sweep runs this protocol concurrently: the dispatching
/// thread spawns `worker_count` workers, publishes one job per
/// enumerated subdirectory into a shared channel, and closes the
/// channel; each worker repeatedly takes one pending job out of the
/// channel until it observes the channel closed and empty, and then
/// terminates.  Here `queue` holds the channel's pending jobs and
/// `processed` the delivery log.  The transitions below are the
/// protocol's steps and may be taken in any order the threads could
/// take them, so what holds of every transition sequence holds of every
/// interleaving.
pub struct Dispatcher {
    /// The enumerated jobs, fixed at creation, published in order.
    pub jobs: Vec<Job>,
    /// The size of the worker pool, fixed at creation.
    pub worker_count: usize,
    /// Workers spawned so far; all are up before publishing begins.
    pub spawned: usize,
    /// How many of `jobs` have been published into the channel.
    pub published: usize,
    /// Whether the producer has signalled that no further job comes.
    pub closed: bool,
    /// Jobs published and not yet delivered: the channel's pending queue.
    pub queue: Vec<Job>,
    /// Jobs delivered so far, in delivery order.  Each delivery hands
    /// the job to exactly one worker, which invokes the cleanup
    /// operation on it; a delivered job has no further lifecycle.
    pub processed: Vec<Job>,
    /// Workers that have terminated, each after observing the channel
    /// closed and empty.
    pub terminated: usize,
}

impl Dispatcher {
    /// What every reachable dispatch state satisfies.  The last clause
    /// is the channel's accounting: every published job is pending or
    /// delivered, and nothing else ever is.
    pub open spec fn inv(self) -> bool {
        &&& self.worker_count >= 1
        &&& self.spawned <= self.worker_count
        &&& self.published <= self.jobs@.len()
        &&& self.published > 0 ==> self.spawned == self.worker_count
        &&& self.closed ==> self.published == self.jobs@.len()
        &&& self.terminated <= self.spawned
        &&& self.terminated > 0 ==> self.closed && self.queue@.len() == 0
        &&& job_paths(self.processed@).to_multiset().add(job_paths(self.queue@).to_multiset())
            == job_paths(self.jobs@.take(self.published as int)).to_multiset()
    }

    /// The channel is closed and drained: what a worker observes
    /// immediately before terminating.
    pub open spec fn drained(self) -> bool {
        self.closed && self.queue@.len() == 0
    }

    /// Every spawned worker has terminated: the join is complete.
    pub open spec fn joined(self) -> bool {
        self.terminated == self.spawned
    }

    /// A fresh dispatch over the given jobs: nothing spawned, published,
    /// delivered or closed yet.
    pub fn new(jobs: Vec<Job>, worker_count: usize) -> (d: Dispatcher)
        requires
            worker_count >= 1,
        ensures
            d.inv(),
            d.jobs@ == jobs@,
            d.worker_count == worker_count,
            d.spawned == 0,
            d.published == 0,
            !d.closed,
            d.queue@.len() == 0,
            d.processed@.len() == 0,
            d.terminated == 0,
    {
        let d = Dispatcher {
            jobs,
            worker_count,
            spawned: 0,
            published: 0,
            closed: false,
            queue: Vec::new(),
            processed: Vec::new(),
            terminated: 0,
        };
        proof {
            broadcast use vstd::seq_lib::group_to_multiset_ensures;
            broadcast use vstd::multiset::group_multiset_axioms;

            assert(d.jobs@.take(0) =~= Seq::<Job>::empty());
            assert(job_paths(Seq::<Job>::empty()) =~= Seq::<Seq<char>>::empty());
            assert(job_paths(d.processed@).to_multiset().add(
                job_paths(d.queue@).to_multiset(),
            ) =~= job_paths(d.jobs@.take(0)).to_multiset());
        }
        d
    }

    /// One worker comes up.  The pool is fully spawned before the first
    /// job is published; readiness, not correctness, since the channel
    /// buffers pending jobs regardless.
    pub fn spawn_worker(&mut self)
        requires
            old(self).inv(),
            old(self).spawned < old(self).worker_count,
            old(self).published == 0,
        ensures
            final(self).inv(),
            final(self).spawned == old(self).spawned + 1,
            final(self).jobs@ == old(self).jobs@,
            final(self).worker_count == old(self).worker_count,
            final(self).published == old(self).published,
            final(self).closed == old(self).closed,
            final(self).queue@ == old(self).queue@,
            final(self).processed@ == old(self).processed@,
            final(self).terminated == old(self).terminated,
    {
        self.spawned = self.spawned + 1;
    }

    /// The producer publishes the next enumerated job into the channel,
    /// where it stays pending until some worker takes it.
    pub fn publish_next(&mut self)
        requires
            old(self).inv(),
            old(self).spawned == old(self).worker_count,
            !old(self).closed,
            old(self).published < old(self).jobs@.len(),
        ensures
            final(self).inv(),
            final(self).published == old(self).published + 1,
            final(self).queue@.len() == old(self).queue@.len() + 1,
            job_paths(final(self).queue@) == job_paths(old(self).queue@).push(
                old(self).jobs@[old(self).published as int].path@,
            ),
            final(self).jobs@ == old(self).jobs@,
            final(self).worker_count == old(self).worker_count,
            final(self).spawned == old(self).spawned,
            final(self).closed == old(self).closed,
            final(self).processed@ == old(self).processed@,
            final(self).terminated == old(self).terminated,
    {
        let ghost q0 = self.queue@;
        let n = self.jobs.len();
        assert(self.published < n);
        let job = self.jobs[self.published].duplicate();
        self.queue.push(job);
        self.published = self.published + 1;
        proof {
            broadcast use vstd::seq_lib::group_to_multiset_ensures;
            broadcast use vstd::multiset::group_multiset_axioms;

            let p = (self.published - 1) as int;
            let x = self.jobs@[p].path@;
            assert(job_paths(self.queue@) =~= job_paths(q0).push(x));
            assert(self.jobs@.take(p + 1) =~= self.jobs@.take(p).push(self.jobs@[p]));
            assert(job_paths(self.jobs@.take(p + 1)) =~= job_paths(self.jobs@.take(p)).push(x));
            assert(job_paths(self.processed@).to_multiset().add(
                job_paths(self.queue@).to_multiset(),
            ) =~= job_paths(self.jobs@.take(p + 1)).to_multiset());
        }
    }

    /// The producer signals that every job has been published and no
    /// further one will arrive.  This happens exactly once, and only
    /// after publishing completes, so no worker can observe closure
    /// while a job is still unpublished.
    pub fn close(&mut self)
        requires
            old(self).inv(),
            !old(self).closed,
            old(self).published == old(self).jobs@.len(),
        ensures
            final(self).inv(),
            final(self).closed,
            final(self).jobs@ == old(self).jobs@,
            final(self).worker_count == old(self).worker_count,
            final(self).spawned == old(self).spawned,
            final(self).published == old(self).published,
            final(self).queue@ == old(self).queue@,
            final(self).processed@ == old(self).processed@,
            final(self).terminated == old(self).terminated,
    {
        self.closed = true;
    }

    /// Some worker takes the channel's oldest pending job.  The job
    /// leaves the channel for good — it is delivered to that worker
    /// alone — and is logged as processed; the worker invokes the
    /// cleanup operation on the returned copy.
    pub fn deliver_next(&mut self) -> (job: Job)
        requires
            old(self).inv(),
            old(self).queue@.len() > 0,
        ensures
            final(self).inv(),
            final(self).queue@ == old(self).queue@.remove(0),
            final(self).processed@ == old(self).processed@.push(old(self).queue@[0]),
            job.path@ == old(self).queue@[0].path@,
            final(self).jobs@ == old(self).jobs@,
            final(self).worker_count == old(self).worker_count,
            final(self).spawned == old(self).spawned,
            final(self).published == old(self).published,
            final(self).closed == old(self).closed,
            final(self).terminated == old(self).terminated,
    {
        let ghost q0 = self.queue@;
        let ghost p0 = self.processed@;
        let next = self.queue.remove(0);
        let job = next.duplicate();
        self.processed.push(next);
        proof {
            broadcast use vstd::seq_lib::group_to_multiset_ensures;
            broadcast use vstd::multiset::group_multiset_axioms;

            let x = q0[0].path@;
            assert(job_paths(self.processed@) =~= job_paths(p0).push(x));
            assert(job_paths(self.queue@) =~= job_paths(q0).remove(0));
            assert(job_paths(q0).contains(x)) by {
                assert(job_paths(q0)[0] == x);
            }
            assert(job_paths(q0).remove(0).to_multiset() =~= job_paths(q0).to_multiset().remove(
                x,
            ));
            assert(job_paths(self.processed@).to_multiset().add(
                job_paths(self.queue@).to_multiset(),
            ) =~= job_paths(self.jobs@.take(self.published as int)).to_multiset());
        }
        job
    }

    /// A worker observes the channel closed and empty and terminates.
    /// It cannot do so earlier: closing requires every job published,
    /// and an empty queue then means every job was delivered.
    pub fn worker_exit(&mut self)
        requires
            old(self).inv(),
            old(self).drained(),
            old(self).terminated < old(self).spawned,
        ensures
            final(self).inv(),
            final(self).terminated == old(self).terminated + 1,
            final(self).jobs@ == old(self).jobs@,
            final(self).worker_count == old(self).worker_count,
            final(self).spawned == old(self).spawned,
            final(self).published == old(self).published,
            final(self).closed == old(self).closed,
            final(self).queue@ == old(self).queue@,
            final(self).processed@ == old(self).processed@,
    {
        self.terminated = self.terminated + 1;
    }
}

/// Completion law: once the channel is closed and drained, the multiset
/// of processed job paths equals the multiset of enumerated job paths —
/// every enumerated job was delivered exactly once, none lost, none
/// duplicated — and exactly as many deliveries happened as there are
/// jobs.  Nothing here depends on the worker count or on the order in
/// which deliveries happened.
pub proof fn lemma_drained_processes_all(d: Dispatcher)
    requires
        d.inv(),
        d.drained(),
    ensures
        job_paths(d.processed@).to_multiset() == job_paths(d.jobs@).to_multiset(),
        d.processed@.len() == d.jobs@.len(),
{
    broadcast use vstd::seq_lib::group_to_multiset_ensures;
    broadcast use vstd::multiset::group_multiset_axioms;

    assert(d.jobs@.take(d.published as int) =~= d.jobs@);
    assert(job_paths(d.queue@) =~= Seq::<Seq<char>>::empty());
    assert(job_paths(d.processed@).to_multiset() =~= job_paths(d.jobs@).to_multiset());
    assert(job_paths(d.processed@).to_multiset().len() == job_paths(d.processed@).len());
    assert(job_paths(d.jobs@).to_multiset().len() == job_paths(d.jobs@).len());
}

/// A single worker gives the same completion guarantee: with a pool of
/// one, a drained dispatch has still processed every enumerated job.
pub proof fn lemma_single_worker_processes_all(d: Dispatcher)
    requires
        d.inv(),
        d.worker_count == 1,
        d.drained(),
    ensures
        job_paths(d.processed@).to_multiset() == job_paths(d.jobs@).to_multiset(),
        d.processed@.len() == d.jobs@.len(),
{
    lemma_drained_processes_all(d);
}

/// No job is processed more than once: when the enumerated paths are
/// distinct — as the immediate subdirectories of one root are — the
/// processed paths are distinct too.
pub proof fn lemma_no_duplicate_processing(d: Dispatcher)
    requires
        d.inv(),
        d.drained(),
        job_paths(d.jobs@).no_duplicates(),
    ensures
        job_paths(d.processed@).no_duplicates(),
{
    lemma_drained_processes_all(d);
    job_paths(d.jobs@).lemma_multiset_has_no_duplicates();
    job_paths(d.processed@).lemma_multiset_has_no_duplicates_conv();
}

/// An empty root keeps the pool idle: with nothing enumerated, a
/// drained dispatch has published nothing and processed nothing.
pub proof fn lemma_empty_root_idle(d: Dispatcher)
    requires
        d.inv(),
        d.drained(),
        d.jobs@.len() == 0,
    ensures
        d.published == 0,
        d.processed@.len() == 0,
{
    lemma_drained_processes_all(d);
}

} // verus!
