//! Classification of a terminated artifact: a zero exit code is success
//! and yields the lossy-decoded stdout; any other exit status — a non-zero
//! code or termination by a signal — is an execution error that keeps the
//! code and both decoded streams for the diagnostic.

use vstd::prelude::*;
use crate::decode::lossy_decode;
use crate::decode::lossy_of;
use crate::errors::BridgeError;

verus! {

/// One launch's terminal state as the operating system reports it: the
/// exit code (`None` when a signal ended the process) and the fully
/// captured output streams.
#[derive(Debug, Clone)]
pub struct ProcessOutcome {
    pub exit_code: Option<i32>,
    pub stdout: Vec<u8>,
    pub stderr: Vec<u8>,
}

/// Whether an exit status counts as success: normal termination with
/// code zero.
pub open spec fn is_success(exit_code: Option<i32>) -> bool {
    exit_code == Some(0i32)
}

/// The classification decision over the outcome's mathematical content:
/// success carries the decoded stdout alone; failure keeps the exit code
/// and both decoded streams.
pub open spec fn classify_spec(exit_code: Option<i32>, stdout: Seq<u8>, stderr: Seq<u8>) -> Result<
    Seq<char>,
    (Option<i32>, Seq<char>, Seq<char>),
> {
    if is_success(exit_code) {
        Ok(lossy_of(stdout))
    } else {
        Err((exit_code, lossy_of(stdout), lossy_of(stderr)))
    }
}

/// Decides success or failure for a terminated artifact, exactly as
/// `classify_spec` says.
pub fn classify_outcome(outcome: ProcessOutcome) -> (r: Result<String, BridgeError>)
    ensures
        classify_spec(outcome.exit_code, outcome.stdout@, outcome.stderr@) matches Ok(p)
            ==> r matches Ok(s) && s@ == p,
        classify_spec(outcome.exit_code, outcome.stdout@, outcome.stderr@) matches Err(t)
            ==> r matches Err(e) && e matches BridgeError::Execution { exit_code, stdout, stderr }
            && exit_code == t.0 && stdout@ == t.1 && stderr@ == t.2,
{
    let success = match outcome.exit_code {
        Some(c) => c == 0,
        None => false,
    };
    if success {
        Ok(lossy_decode(&outcome.stdout))
    } else {
        Err(
            BridgeError::Execution {
                exit_code: outcome.exit_code,
                stdout: lossy_decode(&outcome.stdout),
                stderr: lossy_decode(&outcome.stderr),
            },
        )
    }
}

/// A successful launch's payload is exactly the lossy-decoded stdout and
/// is independent of stderr: outcomes that agree on a successful exit code
/// and on stdout classify alike, whatever their stderr.
pub proof fn lemma_success_ignores_stderr(
    exit_code: Option<i32>,
    stdout: Seq<u8>,
    stderr_a: Seq<u8>,
    stderr_b: Seq<u8>,
)
    requires
        is_success(exit_code),
    ensures
        classify_spec(exit_code, stdout, stderr_a) == Ok::<
            Seq<char>,
            (Option<i32>, Seq<char>, Seq<char>),
        >(lossy_of(stdout)),
        classify_spec(exit_code, stdout, stderr_a) == classify_spec(exit_code, stdout, stderr_b),
{
}

/// A launch that did not exit with code zero never yields a payload: its
/// classification is an error keeping the code and both decoded streams.
pub proof fn lemma_failure_keeps_streams(exit_code: Option<i32>, stdout: Seq<u8>, stderr: Seq<u8>)
    requires
        !is_success(exit_code),
    ensures
        classify_spec(exit_code, stdout, stderr) == Err::<
            Seq<char>,
            (Option<i32>, Seq<char>, Seq<char>),
        >((exit_code, lossy_of(stdout), lossy_of(stderr))),
{
}

} // verus!
