use vstd::prelude::*;

verus! {

/// The only failure the sweep as a whole can report: the root path could
/// not be listed.  Per-job failures are reported and discarded and never
/// reach this level.
#[derive(PartialEq, Eq, Structural, Clone, Copy, Debug)]
pub enum SweepError {
    RootUnreadable,
}

/// The result of one cleanup operation on one job: silent success, a
/// command that could not be started at all, or a command that ran and
/// reported failure.  A failing outcome carries the diagnostic text
/// (captured standard-error output, or the launch error) to report.
#[derive(Debug, PartialEq, Eq)]
pub enum Outcome {
    Success,
    LaunchFailed(String),
    OperationFailed(String),
}

impl Outcome {
    pub open spec fn spec_is_failure(self) -> bool {
        !(self is Success)
    }

    /// The diagnostic text a failing outcome carries.
    pub open spec fn spec_diagnostic(self) -> Option<Seq<char>> {
        match self {
            Outcome::Success => None,
            Outcome::LaunchFailed(text) => Some(text@),
            Outcome::OperationFailed(text) => Some(text@),
        }
    }

    pub fn is_failure(&self) -> (r: bool)
        ensures
            r == self.spec_is_failure(),
    {
        match self {
            Outcome::Success => false,
            Outcome::LaunchFailed(_) => true,
            Outcome::OperationFailed(_) => true,
        }
    }

    pub fn diagnostic(&self) -> (r: Option<&String>)
        ensures
            r is Some <==> self.spec_is_failure(),
            r matches Some(text) ==> self.spec_diagnostic() == Some(text@),
    {
        match self {
            Outcome::Success => None,
            Outcome::LaunchFailed(text) => Some(text),
            Outcome::OperationFailed(text) => Some(text),
        }
    }
}

/// What app-level code captures from a cleanup command that could be
/// started: whether its exit status was success, and its standard-error
/// text.
pub struct CommandCapture {
    pub exit_success: bool,
    pub stderr: String,
}

/// Classifies one attempt to run the external cleanup command.  `launch`
/// is `Err(text)` when the command could not be started at all, and
/// `Ok(capture)` when it ran to an exit status.  Success is exactly a
/// successful exit status; every other attempt yields a failing outcome
/// carrying its diagnostic text.
pub fn classify_outcome(launch: Result<CommandCapture, String>) -> (o: Outcome)
    ensures
        launch matches Err(text) ==> o == Outcome::LaunchFailed(text),
        launch matches Ok(capture) ==> o == (if capture.exit_success {
            Outcome::Success
        } else {
            Outcome::OperationFailed(capture.stderr)
        }),
{
    match launch {
        Err(text) => Outcome::LaunchFailed(text),
        Ok(capture) => {
            if capture.exit_success {
                Outcome::Success
            } else {
                Outcome::OperationFailed(capture.stderr)
            }
        },
    }
}

} // verus!
