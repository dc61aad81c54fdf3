use vstd::prelude::*;
use crate::job::Job;
use crate::outcome::SweepError;

verus! {

/// One entry of the root's listing, as app-level directory-reading code
/// hands it over: the entry's path and whether the entry is itself a
/// directory.  An entry that could not be inspected is handed over with
/// `is_dir` false, so it is silently skipped rather than reported.
pub struct RootEntry {
    pub path: String,
    pub is_dir: bool,
}

/// The paths of the entries that are directories, in listing order.
pub open spec fn subdir_paths(entries: Seq<RootEntry>) -> Seq<Seq<char>>
    decreases entries.len(),
{
    if entries.len() == 0 {
        Seq::empty()
    } else if entries.last().is_dir {
        subdir_paths(entries.drop_last()).push(entries.last().path@)
    } else {
        subdir_paths(entries.drop_last())
    }
}

/// The paths a sequence of jobs holds, in order.
pub open spec fn job_paths(jobs: Seq<Job>) -> Seq<Seq<char>> {
    Seq::new(jobs.len(), |i: int| jobs[i].path@)
}

pub proof fn lemma_job_paths_push(jobs: Seq<Job>, j: Job)
    ensures
        job_paths(jobs.push(j)) == job_paths(jobs).push(j.path@),
{
    assert(job_paths(jobs.push(j)) =~= job_paths(jobs).push(j.path@));
}

/// A listing without a single directory entry yields no job at all:
/// non-directory entries are skipped, not turned into work.
pub proof fn lemma_no_directories_no_jobs(entries: Seq<RootEntry>)
    requires
        forall|i: int| 0 <= i < entries.len() ==> !entries[i].is_dir,
    ensures
        subdir_paths(entries).len() == 0,
    decreases entries.len(),
{
    if entries.len() > 0 {
        lemma_no_directories_no_jobs(entries.drop_last());
    }
}

/// Turns a root listing into the job sequence: one job per entry that is
/// a directory, in listing order, skipping everything else.  `None`
/// stands for a root that could not be listed at all, the sweep's one
/// fatal error.
pub fn enumerate_jobs(listing: Option<Vec<RootEntry>>) -> (r: Result<Vec<Job>, SweepError>)
    ensures
        r is Ok <==> listing is Some,
        r matches Ok(jobs) ==> job_paths(jobs@) == subdir_paths(listing->Some_0@),
        r matches Err(e) ==> e == SweepError::RootUnreadable,
{
    match listing {
        None => Err(SweepError::RootUnreadable),
        Some(entries) => {
            let n = entries.len();
            let mut jobs: Vec<Job> = Vec::new();
            let mut i: usize = 0;
            while i < n
                invariant
                    i <= n,
                    n == entries@.len(),
                    job_paths(jobs@) == subdir_paths(entries@.take(i as int)),
                decreases n - i,
            {
                let ghost prefix = entries@.take(i as int);
                let ghost jobs_before = jobs@;
                if entries[i].is_dir {
                    let path = entries[i].path.clone();
                    jobs.push(Job::new(path));
                    proof {
                        lemma_job_paths_push(jobs_before, jobs@.last());
                    }
                }
                proof {
                    assert(entries@.take(i + 1 as int).drop_last() =~= prefix);
                    assert(job_paths(jobs@) =~= subdir_paths(entries@.take(i + 1 as int)));
                }
                i = i + 1;
            }
            proof {
                assert(entries@.take(n as int) =~= entries@);
            }
            Ok(jobs)
        },
    }
}

} // verus!
