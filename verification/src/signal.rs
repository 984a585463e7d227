//! Classification of a termination-signal delivery. The controller is
//! stateless and deliberately decoupled from launches: it trusts the
//! caller's process id and tracks no ownership between a launch and a
//! later termination. It reports only whether the signalling operation
//! itself succeeded, never whether the target process exited. The delivery
//! happens outside; its report is decided here.

use vstd::prelude::*;
use crate::errors::BridgeError;

verus! {

/// The decision on a signalling report: success exactly when the
/// signalling operation ran and reported status zero. `report` is `Err`
/// with the operating-system cause when the signalling operation could not
/// be started at all, and `Ok(status)` when it ran, `status` being `None`
/// when the signalling operation itself was ended by a signal.
pub fn classify_termination(report: Result<Option<i32>, String>) -> (r: Result<(), BridgeError>)
    ensures
        r is Ok <==> report == Ok::<Option<i32>, String>(Some(0i32)),
        report is Ok && report->Ok_0 != Some(0i32) ==> (r matches Err(e) && e == (
        BridgeError::Signal { status: report->Ok_0 })),
        report is Err ==> (r matches Err(e) && e matches BridgeError::Spawn { cause } && cause@
            == report->Err_0@),
{
    match report {
        Ok(status) => {
            let delivered = match status {
                Some(c) => c == 0,
                None => false,
            };
            if delivered {
                Ok(())
            } else {
                Err(BridgeError::Signal { status })
            }
        },
        Err(cause) => Err(BridgeError::Spawn { cause }),
    }
}

} // verus!
