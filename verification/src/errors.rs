//! The bridge's error taxonomy and its rendering to the single
//! human-readable diagnostic the host receives. Every failure is terminal
//! for the call that raised it; the structured fields are kept and text is
//! produced only here, at the boundary.

use vstd::prelude::*;
use crate::text::contains_seq;
use crate::text::dec_rep;
use crate::text::i32_to_dec;
use crate::text::lemma_concat_contains_middle;

verus! {

/// Why a bridge operation failed.
#[derive(Debug, Clone, PartialEq, Eq)]
pub enum BridgeError {
    /// The artifact exists neither as a development-tree copy nor in the
    /// packaged bundle; carries the host resolver's reported cause.
    Resolution { cause: String },
    /// The operating system could not create a requested process at all,
    /// for either the artifact or the signalling command.
    Spawn { cause: String },
    /// The artifact ran but ended with a non-zero exit code, or on a
    /// signal (`exit_code` is `None`); both decoded streams are kept.
    Execution { exit_code: Option<i32>, stdout: String, stderr: String },
    /// The signalling command ran but reported a failing status.
    Signal { status: Option<i32> },
}

/// How an exit status is cited in a diagnostic: the code in decimal, or an
/// explicit marker when the process ended on a signal and has no code.
pub open spec fn exit_code_text(code: Option<i32>) -> Seq<char> {
    match code {
        Some(c) => dec_rep(c as int),
        None => "no exit code"@,
    }
}

/// The diagnostic for a failed resource resolution.
pub open spec fn resolution_message(cause: Seq<char>) -> Seq<char> {
    "resolve resource failed: "@ + cause
}

/// The diagnostic for a process the operating system could not create.
pub open spec fn spawn_message(cause: Seq<char>) -> Seq<char> {
    "spawn failed: "@ + cause
}

/// The diagnostic for an artifact that ran and failed: the exit status,
/// then the full decoded stdout, then the full decoded stderr, labeled,
/// in that fixed order.
pub open spec fn execution_message(code: Option<i32>, out: Seq<char>, err: Seq<char>) -> Seq<
    char,
> {
    "scanner exited with "@ + exit_code_text(code) + "\nstdout: "@ + out + "\nstderr: "@ + err
}

/// The diagnostic for a signalling command that reported failure.
pub open spec fn signal_message(status: Option<i32>) -> Seq<char> {
    "kill exited with "@ + exit_code_text(status)
}

/// The diagnostic text of an error, by its variant.
pub open spec fn message_spec(e: BridgeError) -> Seq<char> {
    match e {
        BridgeError::Resolution { cause } => resolution_message(cause@),
        BridgeError::Spawn { cause } => spawn_message(cause@),
        BridgeError::Execution { exit_code, stdout, stderr } => execution_message(
            exit_code,
            stdout@,
            stderr@,
        ),
        BridgeError::Signal { status } => signal_message(status),
    }
}

fn exit_code_text_exec(code: &Option<i32>) -> (s: String)
    ensures
        s@ == exit_code_text(*code),
{
    match code {
        Some(c) => i32_to_dec(*c),
        None => String::from_str("no exit code"),
    }
}

impl BridgeError {
    /// Renders the error as the diagnostic text handed to the caller.
    pub fn message(&self) -> (m: String)
        ensures
            m@ == message_spec(*self),
    {
        match self {
            BridgeError::Resolution { cause } => {
                let mut m = String::from_str("resolve resource failed: ");
                m.append(cause.as_str());
                m
            },
            BridgeError::Spawn { cause } => {
                let mut m = String::from_str("spawn failed: ");
                m.append(cause.as_str());
                m
            },
            BridgeError::Execution { exit_code, stdout, stderr } => {
                let mut m = String::from_str("scanner exited with ");
                let code = exit_code_text_exec(exit_code);
                m.append(code.as_str());
                m.append("\nstdout: ");
                m.append(stdout.as_str());
                m.append("\nstderr: ");
                m.append(stderr.as_str());
                m
            },
            BridgeError::Signal { status } => {
                let mut m = String::from_str("kill exited with ");
                let code = exit_code_text_exec(status);
                m.append(code.as_str());
                m
            },
        }
    }
}

/// An execution failure's diagnostic cites the exit code in decimal, the
/// full decoded stdout, and the full decoded stderr.
pub proof fn lemma_execution_message_cites_all(code: i32, out: Seq<char>, err: Seq<char>)
    ensures
        contains_seq(execution_message(Some(code), out, err), dec_rep(code as int)),
        contains_seq(execution_message(Some(code), out, err), out),
        contains_seq(execution_message(Some(code), out, err), err),
{
    let msg = execution_message(Some(code), out, err);
    let a = "scanner exited with "@;
    let b = dec_rep(code as int);
    let c = "\nstdout: "@;
    let d = "\nstderr: "@;
    assert(msg =~= a + b + (c + out + d + err));
    lemma_concat_contains_middle(a, b, c + out + d + err);
    assert(msg =~= (a + b + c) + out + (d + err));
    lemma_concat_contains_middle(a + b + c, out, d + err);
    assert(msg =~= (a + b + c + out + d) + err + Seq::<char>::empty());
    lemma_concat_contains_middle(a + b + c + out + d, err, Seq::<char>::empty());
}

/// A signal-terminated artifact's diagnostic carries the explicit
/// "no exit code" marker rather than a number.
pub proof fn lemma_signal_termination_marker(out: Seq<char>, err: Seq<char>)
    ensures
        contains_seq(execution_message(None, out, err), "no exit code"@),
{
    let msg = execution_message(None, out, err);
    let a = "scanner exited with "@;
    let b = "no exit code"@;
    let c = "\nstdout: "@;
    let d = "\nstderr: "@;
    assert(msg =~= a + b + (c + out + d + err));
    lemma_concat_contains_middle(a, b, c + out + d + err);
}

/// A failed signalling command's diagnostic cites the status it reported.
pub proof fn lemma_signal_message_cites_status(status: i32)
    ensures
        contains_seq(signal_message(Some(status)), dec_rep(status as int)),
{
    let b = dec_rep(status as int);
    assert(signal_message(Some(status)) =~= "kill exited with "@ + b + Seq::<char>::empty());
    lemma_concat_contains_middle("kill exited with "@, b, Seq::<char>::empty());
}

/// A failed resolution's diagnostic carries the resolver's cause in full.
pub proof fn lemma_resolution_message_cites_cause(cause: Seq<char>)
    ensures
        contains_seq(resolution_message(cause), cause),
{
    assert(resolution_message(cause) =~= "resolve resource failed: "@ + cause
        + Seq::<char>::empty());
    lemma_concat_contains_middle("resolve resource failed: "@, cause, Seq::<char>::empty());
}

/// Flattens a scan result to the two-case payload-or-message form the
/// host receives.
pub fn scan_response(r: Result<String, BridgeError>) -> (out: Result<String, String>)
    ensures
        r matches Ok(p) ==> out matches Ok(q) && q == p,
        r matches Err(e) ==> out matches Err(m) && m@ == message_spec(e),
{
    match r {
        Ok(p) => Ok(p),
        Err(e) => Err(e.message()),
    }
}

/// Flattens a termination result to the two-case form the host receives.
pub fn kill_response(r: Result<(), BridgeError>) -> (out: Result<(), String>)
    ensures
        r is Ok <==> out is Ok,
        r matches Err(e) ==> out matches Err(m) && m@ == message_spec(e),
{
    match r {
        Ok(()) => Ok(()),
        Err(e) => Err(e.message()),
    }
}

} // verus!
