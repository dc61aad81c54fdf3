use vstd::prelude::*;
use crate::cleanup::CleanupOp;
use crate::cleanup::DiagnosticSink;
use crate::dispatch::Dispatcher;
use crate::dispatch::lemma_drained_processes_all;
use crate::dispatch::lemma_no_duplicate_processing;
use crate::enumerate::RootEntry;
use crate::enumerate::enumerate_jobs;
use crate::enumerate::job_paths;
use crate::enumerate::subdir_paths;
use crate::job::Job;
use crate::outcome::SweepError;

verus! {

/// What a finished sweep did: every delivered job, in delivery order,
/// and among them the jobs whose cleanup operation gave a failing
/// outcome.  One diagnostic report went out for each entry of `failed`;
/// the sweep as a whole succeeded regardless of how many there are.
pub struct SweepSummary {
    pub processed: Vec<Job>,
    pub failed: Vec<Job>,
}

/// The whole sweep over one root listing, driven to completion: one job
/// per subdirectory is published to the channel and delivered to the
/// pool of `worker_count` workers, the cleanup operation runs once per
/// delivered job, every failing outcome is reported to the sink, and
/// every worker terminates once the channel is closed and drained.
///
/// The overall result does not depend on the outcomes: it is an error
/// exactly when the root listing itself was unavailable, and the
/// summary then accounts for every enumerated subdirectory, processed
/// exactly once each.
pub fn run_with<C: CleanupOp, S: DiagnosticSink>(
    listing: Option<Vec<RootEntry>>,
    worker_count: usize,
    op: &mut C,
    sink: &mut S,
) -> (r: Result<SweepSummary, SweepError>)
    requires
        worker_count >= 1,
    ensures
        r is Ok <==> listing is Some,
        r matches Err(e) ==> e == SweepError::RootUnreadable,
        r matches Ok(s) ==> job_paths(s.processed@).to_multiset() == subdir_paths(
            listing->Some_0@,
        ).to_multiset(),
        r matches Ok(s) ==> s.processed@.len() == subdir_paths(listing->Some_0@).len(),
        r matches Ok(s) ==> s.failed@.len() <= s.processed@.len(),
        r matches Ok(s) ==> forall|i: int|
            0 <= i < s.failed@.len() ==> job_paths(s.processed@).contains(
                #[trigger] s.failed@[i].path@,
            ),
        r matches Ok(s) ==> (subdir_paths(listing->Some_0@).no_duplicates() ==> job_paths(
            s.processed@,
        ).no_duplicates()),
        r is Err ==> final(op).invoked_paths() == old(op).invoked_paths(),
        r is Err ==> final(sink).progress_log() == old(sink).progress_log(),
        r is Err ==> final(sink).report_log() == old(sink).report_log(),
        r matches Ok(s) ==> final(op).invoked_paths() == old(op).invoked_paths() + job_paths(
            s.processed@,
        ),
        r matches Ok(s) ==> final(sink).progress_log() == old(sink).progress_log() + job_paths(
            s.processed@,
        ),
        r matches Ok(s) ==> final(sink).report_log().len() == old(sink).report_log().len()
            + s.failed@.len(),
        r matches Ok(s) ==> forall|i: int|
            0 <= i < s.failed@.len() ==> final(sink).report_log()[old(sink).report_log().len() + i].0
                == #[trigger] s.failed@[i].path@,
{
    let ghost op0 = *op;
    let ghost sink0 = *sink;
    let jobs = match enumerate_jobs(listing) {
        Err(e) => {
            return Err(e);
        },
        Ok(jobs) => jobs,
    };
    let ghost jobs_view = jobs@;
    let mut d = Dispatcher::new(jobs, worker_count);
    while d.spawned < d.worker_count
        invariant
            d.inv(),
            d.jobs@ == jobs_view,
            d.published == 0,
            !d.closed,
            d.queue@.len() == 0,
            d.processed@.len() == 0,
            d.terminated == 0,
        decreases d.worker_count - d.spawned,
    {
        d.spawn_worker();
    }
    while d.published < d.jobs.len()
        invariant
            d.inv(),
            d.jobs@ == jobs_view,
            d.spawned == d.worker_count,
            !d.closed,
            d.processed@.len() == 0,
            d.terminated == 0,
        decreases d.jobs@.len() - d.published,
    {
        d.publish_next();
    }
    d.close();
    let mut failed: Vec<Job> = Vec::new();
    proof {
        assert(job_paths(d.processed@) =~= Seq::<Seq<char>>::empty());
        assert(op0.invoked_paths() + job_paths(d.processed@) =~= op0.invoked_paths());
        assert(sink0.progress_log() + job_paths(d.processed@) =~= sink0.progress_log());
    }
    while d.queue.len() > 0
        invariant
            d.inv(),
            d.jobs@ == jobs_view,
            d.closed,
            d.terminated == 0,
            failed@.len() <= d.processed@.len(),
            forall|i: int|
                0 <= i < failed@.len() ==> job_paths(d.processed@).contains(
                    #[trigger] failed@[i].path@,
                ),
            op.invoked_paths() == op0.invoked_paths() + job_paths(d.processed@),
            sink.progress_log() == sink0.progress_log() + job_paths(d.processed@),
            sink.report_log().len() == sink0.report_log().len() + failed@.len(),
            forall|i: int|
                0 <= i < failed@.len() ==> sink.report_log()[sink0.report_log().len() + i].0
                    == #[trigger] failed@[i].path@,
        decreases d.queue@.len(),
    {
        let ghost processed0 = d.processed@;
        let ghost failed0 = failed@;
        let ghost head = d.queue@[0];
        let job = d.deliver_next();
        sink.progress(&job.path);
        let outcome = op.clean(&job.path);
        if outcome.is_failure() {
            match outcome.diagnostic() {
                Some(text) => {
                    sink.report(&job.path, text);
                },
                None => {
                    proof {
                        assert(false);
                    }
                },
            }
            failed.push(job);
        }
        proof {
            assert(job_paths(d.processed@) =~= job_paths(processed0).push(head.path@));
            assert forall|i: int| 0 <= i < failed@.len() implies job_paths(d.processed@).contains(
                #[trigger] failed@[i].path@,
            ) by {
                if i < failed0.len() {
                    let w = choose|w: int|
                        0 <= w < job_paths(processed0).len() && job_paths(processed0)[w]
                            == failed0[i].path@;
                    assert(job_paths(d.processed@)[w] == failed@[i].path@);
                } else {
                    assert(job_paths(d.processed@)[processed0.len() as int] == failed@[i].path@);
                }
            }
            assert(op.invoked_paths() =~= op0.invoked_paths() + job_paths(d.processed@));
            assert(sink.progress_log() =~= sink0.progress_log() + job_paths(d.processed@));
            if failed@.len() > failed0.len() {
                assert(sink.report_log()[sink0.report_log().len() + failed0.len() as int].0
                    == head.path@);
            }
        }
    }
    while d.terminated < d.spawned
        invariant
            d.inv(),
            d.jobs@ == jobs_view,
            d.drained(),
            failed@.len() <= d.processed@.len(),
            forall|i: int|
                0 <= i < failed@.len() ==> job_paths(d.processed@).contains(
                    #[trigger] failed@[i].path@,
                ),
            op.invoked_paths() == op0.invoked_paths() + job_paths(d.processed@),
            sink.progress_log() == sink0.progress_log() + job_paths(d.processed@),
            sink.report_log().len() == sink0.report_log().len() + failed@.len(),
            forall|i: int|
                0 <= i < failed@.len() ==> sink.report_log()[sink0.report_log().len() + i].0
                    == #[trigger] failed@[i].path@,
        decreases d.spawned - d.terminated,
    {
        d.worker_exit();
    }
    proof {
        lemma_drained_processes_all(d);
        if job_paths(jobs_view).no_duplicates() {
            lemma_no_duplicate_processing(d);
        }
    }
    Ok(SweepSummary { processed: d.processed, failed })
}

} // verus!
