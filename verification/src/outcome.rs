//! Outcome of one executed command and its classification.

use vstd::prelude::*;

verus! {

/// What a finished command left behind: its two output streams, captured in
/// full after the process terminated.
pub struct CommandOutcome {
    pub stdout: Vec<u8>,
    pub stderr: Vec<u8>,
}

impl CommandOutcome {
    /// A command counts as failed exactly when its error stream is non-empty,
    /// whatever its exit status was.
    pub open spec fn is_failure(&self) -> bool {
        self.stderr@.len() > 0
    }
}

/// Classifies a finished command: a non-empty error stream is a failure
/// carrying exactly that stream's bytes; otherwise the standard output is
/// handed back unchanged.
pub fn unwrap_command_stderr(out: CommandOutcome) -> (r: Result<Vec<u8>, Vec<u8>>)
    ensures
        out.is_failure() ==> r == Result::<Vec<u8>, Vec<u8>>::Err(out.stderr),
        !out.is_failure() ==> r == Result::<Vec<u8>, Vec<u8>>::Ok(out.stdout),
{
    if out.stderr.len() > 0 {
        Err(out.stderr)
    } else {
        Ok(out.stdout)
    }
}

} // verus!
