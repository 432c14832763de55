use vstd::prelude::*;

verus! {

/// How a run of the program ends.
///
/// `SUCCESS` and `WARNING` are kept apart although both end the process
/// with status 0: callers that script around the program branch only on
/// zero against non-zero.
#[derive(Debug, Clone, Copy, PartialEq, Eq, Structural)]
pub enum ExitCode {
    SUCCESS,
    WARNING,
    ERROR,
}

/// The process status that each ending maps to.
pub open spec fn status_of(code: ExitCode) -> i32 {
    match code {
        ExitCode::SUCCESS => 0,
        ExitCode::WARNING => 0,
        ExitCode::ERROR => 1,
    }
}

/// Status 0 for success and warning, 1 for error.
pub fn exit_status(code: ExitCode) -> (r: i32)
    ensures
        r == status_of(code),
{
    match code {
        ExitCode::SUCCESS => 0,
        ExitCode::WARNING => 0,
        ExitCode::ERROR => 1,
    }
}

} // verus!
