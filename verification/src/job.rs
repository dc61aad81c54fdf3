use vstd::prelude::*;

verus! {

/// One unit of work: the path of a directory to be cleaned.  A job is
/// created by the enumerator, delivered to exactly one worker, and has no
/// further lifecycle after its cleanup operation has run.
pub struct Job {
    pub path: String,
}

impl Job {
    pub fn new(path: String) -> (j: Job)
        ensures
            j.path@ == path@,
    {
        Job { path }
    }

    /// An explicit copy.  (A derived `Clone` on a type with a `String`
    /// field gives proofs no information, so the copy is spelled out.)
    pub fn duplicate(&self) -> (j: Job)
        ensures
            j.path@ == self.path@,
    {
        Job { path: self.path.clone() }
    }
}

} // verus!
