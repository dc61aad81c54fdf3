use dirsweep::CliRequest;
use dirsweep::CommandCapture;
use dirsweep::Job;
use dirsweep::Outcome;
use dirsweep::RecordingSink;
use dirsweep::RootEntry;
use dirsweep::ScriptedCleanup;
use dirsweep::SweepError;
use dirsweep::classify_outcome;
use dirsweep::contains_path;
use dirsweep::effective_worker_count;
use dirsweep::enumerate_jobs;
use dirsweep::parse_args;
use dirsweep::run_with;

fn entry(path: &str, is_dir: bool) -> RootEntry {
    RootEntry { path: path.to_string(), is_dir }
}

fn sorted_paths(jobs: &[Job]) -> Vec<String> {
    let mut paths: Vec<String> = jobs.iter().map(|j| j.path.clone()).collect();
    paths.sort();
    paths
}

fn abc_listing() -> Vec<RootEntry> {
    vec![
        entry("a", true),
        entry("notes.txt", false),
        entry("b", true),
        entry("c", true),
    ]
}

#[test]
fn every_subdir_processed_once_regardless_of_worker_count() {
    for worker_count in [1usize, 2, 3, 5, 16] {
        let mut op = ScriptedCleanup::new(Vec::new(), "bad".to_string());
        let mut sink = RecordingSink::new();
        let summary = run_with(Some(abc_listing()), worker_count, &mut op, &mut sink)
            .expect("a readable root must sweep successfully");
        assert_eq!(summary.processed.len(), 3);
        assert_eq!(
            sorted_paths(&summary.processed),
            vec!["a".to_string(), "b".to_string(), "c".to_string()]
        );
        let mut invoked = op.invoked.clone();
        invoked.sort();
        assert_eq!(invoked, vec!["a".to_string(), "b".to_string(), "c".to_string()]);
        assert!(summary.failed.is_empty());
    }
}

#[test]
fn unreadable_root_fails_without_any_invocation() {
    let mut op = ScriptedCleanup::new(Vec::new(), "bad".to_string());
    let mut sink = RecordingSink::new();
    let result = run_with(None, 8, &mut op, &mut sink);
    assert!(matches!(result, Err(SweepError::RootUnreadable)));
    assert!(op.invoked.is_empty());
    assert!(sink.progressed.is_empty());
    assert!(sink.reported.is_empty());
}

#[test]
fn all_failures_still_report_overall_success() {
    let fail_all = vec!["a".to_string(), "b".to_string(), "c".to_string()];
    let mut op = ScriptedCleanup::new(fail_all, "cleanup refused".to_string());
    let mut sink = RecordingSink::new();
    let summary = run_with(Some(abc_listing()), 2, &mut op, &mut sink)
        .expect("per-job failures must not fail the sweep");
    assert_eq!(summary.processed.len(), 3);
    assert_eq!(summary.failed.len(), 3);
    assert_eq!(sink.reported.len(), 3);
    assert!(sink.reported.iter().all(|(_, text)| text == "cleanup refused"));
}

#[test]
fn one_failing_subdirectory_among_three() {
    let mut op = ScriptedCleanup::new(vec!["b".to_string()], "b is broken".to_string());
    let mut sink = RecordingSink::new();
    let listing = vec![entry("a", true), entry("b", true), entry("c", true)];
    let summary = run_with(Some(listing), 3, &mut op, &mut sink)
        .expect("one broken subdirectory must not fail the sweep");
    let mut progressed = sink.progressed.clone();
    progressed.sort();
    assert_eq!(progressed, vec!["a".to_string(), "b".to_string(), "c".to_string()]);
    assert_eq!(sink.reported.len(), 1);
    assert_eq!(sink.reported[0].0, "b");
    assert_eq!(sink.reported[0].1, "b is broken");
    assert_eq!(sorted_paths(&summary.failed), vec!["b".to_string()]);
    assert_eq!(summary.processed.len(), 3);
}

#[test]
fn single_worker_processes_everything() {
    let listing = vec![
        entry("one", true),
        entry("two", true),
        entry("three", true),
        entry("four", true),
    ];
    let mut op = ScriptedCleanup::new(Vec::new(), "bad".to_string());
    let mut sink = RecordingSink::new();
    let summary = run_with(Some(listing), 1, &mut op, &mut sink).expect("sweep must succeed");
    assert_eq!(summary.processed.len(), 4);
    assert_eq!(op.invoked.len(), 4);
    let mut invoked = op.invoked.clone();
    invoked.sort();
    assert_eq!(
        invoked,
        vec![
            "four".to_string(),
            "one".to_string(),
            "three".to_string(),
            "two".to_string()
        ]
    );
}

#[test]
fn empty_root_completes_immediately() {
    let mut op = ScriptedCleanup::new(Vec::new(), "bad".to_string());
    let mut sink = RecordingSink::new();
    let summary = run_with(Some(Vec::new()), 8, &mut op, &mut sink)
        .expect("an empty root must sweep successfully");
    assert!(summary.processed.is_empty());
    assert!(summary.failed.is_empty());
    assert!(op.invoked.is_empty());
    assert!(sink.progressed.is_empty());
}

#[test]
fn root_with_only_files_dispatches_nothing() {
    let listing = vec![entry("readme.md", false), entry("todo.txt", false)];
    let mut op = ScriptedCleanup::new(Vec::new(), "bad".to_string());
    let mut sink = RecordingSink::new();
    let summary = run_with(Some(listing), 2, &mut op, &mut sink).expect("sweep must succeed");
    assert!(summary.processed.is_empty());
    assert!(op.invoked.is_empty());
}

#[test]
fn enumerate_keeps_order_and_skips_non_directories() {
    let listing = vec![
        entry("z", true),
        entry("file", false),
        entry("a", true),
        entry("other", false),
        entry("m", true),
    ];
    let jobs = enumerate_jobs(Some(listing)).expect("a listing enumerates");
    let paths: Vec<String> = jobs.iter().map(|j| j.path.clone()).collect();
    assert_eq!(
        paths,
        vec!["z".to_string(), "a".to_string(), "m".to_string()]
    );
}

#[test]
fn enumerate_unreadable_root() {
    let result = enumerate_jobs(None);
    assert!(matches!(result, Err(SweepError::RootUnreadable)));
}

#[test]
fn classify_success_failure_and_launch_error() {
    let ok = classify_outcome(Ok(CommandCapture {
        exit_success: true,
        stderr: String::new(),
    }));
    assert_eq!(ok, Outcome::Success);
    assert!(!ok.is_failure());
    assert!(ok.diagnostic().is_none());

    let failed = classify_outcome(Ok(CommandCapture {
        exit_success: false,
        stderr: "exit status 101".to_string(),
    }));
    assert_eq!(failed, Outcome::OperationFailed("exit status 101".to_string()));
    assert!(failed.is_failure());
    assert_eq!(failed.diagnostic(), Some(&"exit status 101".to_string()));

    let unlaunchable = classify_outcome(Err("no such executable".to_string()));
    assert_eq!(unlaunchable, Outcome::LaunchFailed("no such executable".to_string()));
    assert!(unlaunchable.is_failure());
    assert_eq!(unlaunchable.diagnostic(), Some(&"no such executable".to_string()));
}

#[test]
fn help_flag_anywhere_wins() {
    let args = vec![
        "prog".to_string(),
        "--help".to_string(),
        "somewhere".to_string(),
    ];
    assert_eq!(parse_args(args), CliRequest::Help);
}

#[test]
fn last_argument_is_root_candidate() {
    let args = vec!["prog".to_string(), "somewhere".to_string()];
    assert_eq!(
        parse_args(args),
        CliRequest::Sweep {
            root_candidate: Some("somewhere".to_string())
        }
    );
}

#[test]
fn bare_program_name_is_still_the_candidate() {
    let args = vec!["prog".to_string()];
    assert_eq!(
        parse_args(args),
        CliRequest::Sweep {
            root_candidate: Some("prog".to_string())
        }
    );
}

#[test]
fn empty_argument_list_has_no_candidate() {
    assert_eq!(
        parse_args(Vec::new()),
        CliRequest::Sweep {
            root_candidate: None
        }
    );
}

#[test]
fn worker_count_defaults_to_eight() {
    assert_eq!(effective_worker_count(None), 8);
    assert_eq!(effective_worker_count(Some(0)), 8);
    assert_eq!(effective_worker_count(Some(1)), 1);
    assert_eq!(effective_worker_count(Some(12)), 12);
}

#[test]
fn contains_path_compares_contents() {
    let paths = vec!["a".to_string(), "b".to_string()];
    assert!(contains_path(&paths, &"a".to_string()));
    assert!(contains_path(&paths, &"b".to_string()));
    assert!(!contains_path(&paths, &"c".to_string()));
    assert!(!contains_path(&Vec::new(), &"a".to_string()));
}

#[test]
fn scripted_cleanup_logs_and_fails_as_configured() {
    let mut op = ScriptedCleanup::new(vec!["bad".to_string()], "diag".to_string());
    let good = op.run(&"good".to_string());
    assert_eq!(good, Outcome::Success);
    let bad = op.run(&"bad".to_string());
    assert_eq!(bad, Outcome::OperationFailed("diag".to_string()));
    assert_eq!(op.invoked, vec!["good".to_string(), "bad".to_string()]);
}
