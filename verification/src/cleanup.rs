use vstd::prelude::*;
use crate::outcome::Outcome;

verus! {

/// The cleanup collaborator: given a directory path, perform the
/// external cleanup operation and say how it went.  The operation is
/// opaque — nothing is promised of its outcomes, and the sweep has to
/// cope with every answer it can give.  Each invocation is recorded in
/// an abstract log, which is how the sweep's contracts count the
/// cleanups that actually happened.
pub trait CleanupOp {
    /// The paths this operation has been invoked on, oldest first.
    spec fn invoked_paths(&self) -> Seq<Seq<char>>;

    /// One cleanup of the directory at `path`: the invocation is
    /// logged; the outcome is the collaborator's to choose.
    fn clean(&mut self, path: &String) -> (o: Outcome)
        ensures
            final(self).invoked_paths() == old(self).invoked_paths().push(path@),
    ;
}

/// The output collaborator: receives one progress notice per job as its
/// cleanup begins, and one diagnostic report per failing outcome.  The
/// real sweep prints lines; tests collect them.  Both emissions are
/// recorded in abstract logs, which is how the sweep's contracts count
/// what was announced and what was reported.
pub trait DiagnosticSink {
    /// The paths whose cleanup has been announced, oldest first.
    spec fn progress_log(&self) -> Seq<Seq<char>>;

    /// The failures reported so far — path and diagnostic — oldest
    /// first.
    spec fn report_log(&self) -> Seq<(Seq<char>, Seq<char>)>;

    fn progress(&mut self, path: &String)
        ensures
            final(self).progress_log() == old(self).progress_log().push(path@),
            final(self).report_log() == old(self).report_log(),
    ;

    fn report(&mut self, path: &String, diagnostic: &String)
        ensures
            final(self).report_log() == old(self).report_log().push((path@, diagnostic@)),
            final(self).progress_log() == old(self).progress_log(),
    ;
}

/// Whether some element of `paths` reads as `path`.
pub open spec fn holds_path(paths: Seq<String>, path: Seq<char>) -> bool {
    exists|i: int| 0 <= i < paths.len() && paths[i]@ == path
}

/// Whether some element of `paths` reads as `path`, by comparison.
pub fn contains_path(paths: &Vec<String>, path: &String) -> (r: bool)
    ensures
        r == holds_path(paths@, path@),
{
    let mut i: usize = 0;
    while i < paths.len()
        invariant
            i <= paths@.len(),
            forall|k: int| 0 <= k < i ==> paths@[k]@ != path@,
        decreases paths@.len() - i,
    {
        if paths[i].eq(path) {
            return true;
        }
        i = i + 1;
    }
    false
}

/// A deterministic cleanup operation, for exercising the sweep without
/// any external command: it fails exactly on the configured paths,
/// always with the configured diagnostic, and logs every path it is
/// invoked on.
pub struct ScriptedCleanup {
    pub fail_paths: Vec<String>,
    pub diagnostic: String,
    pub invoked: Vec<String>,
}

impl ScriptedCleanup {
    pub fn new(fail_paths: Vec<String>, diagnostic: String) -> (op: ScriptedCleanup)
        ensures
            op.fail_paths@ == fail_paths@,
            op.diagnostic@ == diagnostic@,
            op.invoked@.len() == 0,
    {
        ScriptedCleanup { fail_paths, diagnostic, invoked: Vec::new() }
    }

    /// One scripted invocation: the path is logged, and the outcome
    /// fails exactly when the path is configured to fail.
    pub fn run(&mut self, path: &String) -> (o: Outcome)
        ensures
            final(self).invoked@ == old(self).invoked@.push(*path),
            final(self).fail_paths@ == old(self).fail_paths@,
            final(self).diagnostic@ == old(self).diagnostic@,
            o.spec_is_failure() <==> holds_path(old(self).fail_paths@, path@),
            o.spec_is_failure() ==> o.spec_diagnostic() == Some(old(self).diagnostic@),
    {
        self.invoked.push(path.clone());
        if contains_path(&self.fail_paths, path) {
            Outcome::OperationFailed(self.diagnostic.clone())
        } else {
            Outcome::Success
        }
    }
}

impl CleanupOp for ScriptedCleanup {
    open spec fn invoked_paths(&self) -> Seq<Seq<char>> {
        Seq::new(self.invoked@.len(), |i: int| self.invoked@[i]@)
    }

    fn clean(&mut self, path: &String) -> Outcome {
        let o = self.run(path);
        proof {
            assert(self.invoked_paths() =~= old(self).invoked_paths().push(path@));
        }
        o
    }
}

/// A sink that collects what the sweep emits, for tests: the paths
/// whose cleanup began, and the path and text of every reported
/// failure, in emission order.
pub struct RecordingSink {
    pub progressed: Vec<String>,
    pub reported: Vec<(String, String)>,
}

impl RecordingSink {
    pub fn new() -> (s: RecordingSink)
        ensures
            s.progressed@.len() == 0,
            s.reported@.len() == 0,
    {
        RecordingSink { progressed: Vec::new(), reported: Vec::new() }
    }
}

impl DiagnosticSink for RecordingSink {
    open spec fn progress_log(&self) -> Seq<Seq<char>> {
        Seq::new(self.progressed@.len(), |i: int| self.progressed@[i]@)
    }

    open spec fn report_log(&self) -> Seq<(Seq<char>, Seq<char>)> {
        Seq::new(self.reported@.len(), |i: int| (self.reported@[i].0@, self.reported@[i].1@))
    }

    fn progress(&mut self, path: &String) {
        self.progressed.push(path.clone());
        proof {
            assert(self.progress_log() =~= old(self).progress_log().push(path@));
            assert(self.report_log() =~= old(self).report_log());
        }
    }

    fn report(&mut self, path: &String, diagnostic: &String) {
        self.reported.push((path.clone(), diagnostic.clone()));
        proof {
            assert(self.report_log() =~= old(self).report_log().push((path@, diagnostic@)));
            assert(self.progress_log() =~= old(self).progress_log());
        }
    }
}

} // verus!
