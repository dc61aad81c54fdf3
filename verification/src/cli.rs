use vstd::prelude::*;

verus! {

/// The size of the worker pool when the caller configures none.
pub const DEFAULT_WORKER_COUNT: usize = 8;

/// What the command line asks for: print the usage text, or sweep with
/// an optional root candidate still to be checked against the file
/// system.
#[derive(Debug, PartialEq, Eq)]
pub enum CliRequest {
    Help,
    Sweep { root_candidate: Option<String> },
}

/// Whether some argument is the help flag.
pub open spec fn has_help_flag(args: Seq<String>) -> bool {
    exists|i: int| 0 <= i < args.len() && args[i]@ == "--help"@
}

/// Decides what an argument list asks for.  A help flag anywhere wins;
/// otherwise the last argument — the list still carries the program's
/// own name first, as the operating system hands it over — is the root
/// candidate, and the caller falls back to the current directory when
/// the candidate names no directory.
pub fn parse_args(args: Vec<String>) -> (r: CliRequest)
    ensures
        r is Help <==> has_help_flag(args@),
        r matches CliRequest::Sweep { root_candidate } ==> match root_candidate {
            Some(p) => args@.len() > 0 && p@ == args@.last()@,
            None => args@.len() == 0,
        },
{
    let help: String = "--help".to_owned();
    let mut i: usize = 0;
    while i < args.len()
        invariant
            i <= args@.len(),
            help@ == "--help"@,
            forall|k: int| 0 <= k < i ==> args@[k]@ != "--help"@,
        decreases args@.len() - i,
    {
        if args[i].eq(&help) {
            return CliRequest::Help;
        }
        i = i + 1;
    }
    if args.len() == 0 {
        CliRequest::Sweep { root_candidate: None }
    } else {
        let last = args[args.len() - 1].clone();
        CliRequest::Sweep { root_candidate: Some(last) }
    }
}

/// The worker pool's size for a run: the configured count when it is
/// positive, and the default of eight otherwise.
pub fn effective_worker_count(requested: Option<usize>) -> (k: usize)
    ensures
        k >= 1,
        requested matches Some(n) ==> k == (if n >= 1 {
            n
        } else {
            DEFAULT_WORKER_COUNT
        }),
        requested is None ==> k == DEFAULT_WORKER_COUNT,
{
    match requested {
        Some(n) => {
            if n >= 1 {
                n
            } else {
                DEFAULT_WORKER_COUNT
            }
        },
        None => DEFAULT_WORKER_COUNT,
    }
}

} // verus!
