//! A verified model of a best-effort directory sweep: every immediate
//! subdirectory of a root becomes one job, jobs are fed through a single
//! work queue to a fixed pool of workers, and each worker runs an opaque
//! cleanup operation on its job's directory.  Per-job failures are reported
//! and discarded; only an unreadable root fails the sweep as a whole.

use vstd::prelude::*;

mod cleanup;
mod cli;
mod dispatch;
mod enumerate;
mod job;
mod outcome;
mod sweep;

verus! {

pub use cleanup::CleanupOp;
pub use cleanup::DiagnosticSink;
pub use cleanup::RecordingSink;
pub use cleanup::ScriptedCleanup;
pub use cleanup::contains_path;
pub use cli::CliRequest;
pub use cli::DEFAULT_WORKER_COUNT;
pub use cli::effective_worker_count;
pub use cli::parse_args;
pub use dispatch::Dispatcher;
pub use dispatch::lemma_drained_processes_all;
pub use dispatch::lemma_empty_root_idle;
pub use dispatch::lemma_no_duplicate_processing;
pub use dispatch::lemma_single_worker_processes_all;
pub use enumerate::RootEntry;
pub use enumerate::enumerate_jobs;
pub use enumerate::job_paths;
pub use enumerate::lemma_no_directories_no_jobs;
pub use enumerate::subdir_paths;
pub use job::Job;
pub use outcome::CommandCapture;
pub use outcome::Outcome;
pub use outcome::SweepError;
pub use outcome::classify_outcome;
pub use sweep::SweepSummary;
pub use sweep::run_with;

} // verus!
