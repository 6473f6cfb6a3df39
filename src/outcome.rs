use vstd::prelude::*;

verus! {

/// What running the command in one directory came to.
#[derive(Debug, PartialEq, Eq)]
pub enum ExecutionOutcome {
    /// The shell ran and exited with `exit_code` (zero is success), leaving
    /// these bytes on its standard output and standard error.
    Completed { exit_code: i32, stdout: Vec<u8>, stderr: Vec<u8> },
    /// The shell could not be started; `error` says why.
    LaunchFailed { error: String },
}

/// The mathematical value of an [`ExecutionOutcome`].
pub enum OutcomeView {
    Completed { exit_code: i32, stdout: Seq<u8>, stderr: Seq<u8> },
    LaunchFailed { error: Seq<char> },
}

impl View for ExecutionOutcome {
    type V = OutcomeView;

    open spec fn view(&self) -> OutcomeView {
        match self {
            ExecutionOutcome::Completed { exit_code, stdout, stderr } => OutcomeView::Completed {
                exit_code: *exit_code,
                stdout: stdout@,
                stderr: stderr@,
            },
            ExecutionOutcome::LaunchFailed { error } => OutcomeView::LaunchFailed { error: error@ },
        }
    }
}

impl ExecutionOutcome {
    /// A run that exited with `exit_code`, with its captured output.
    pub fn completed(exit_code: i32, stdout: Vec<u8>, stderr: Vec<u8>) -> (r: ExecutionOutcome)
        ensures
            r@ == (OutcomeView::Completed { exit_code, stdout: stdout@, stderr: stderr@ }),
    {
        ExecutionOutcome::Completed { exit_code, stdout, stderr }
    }

    /// A run whose shell could not be started.
    pub fn launch_failed(error: String) -> (r: ExecutionOutcome)
        ensures
            r@ == (OutcomeView::LaunchFailed { error: error@ }),
    {
        ExecutionOutcome::LaunchFailed { error }
    }
}

} // verus!
