//! Decision core of the Windows backend.
//!
//! The OS calls themselves (opening a process, copying memory through a
//! handle) are unsafe, platform-gated FFI and live in the platform adapter
//! outside the library. What is verified here is everything the adapter
//! decides: the access rights a usable handle must carry, and the
//! translation of each OS outcome into a typed result. The translation is
//! deliberately strict — a null handle is a construction failure, and a
//! transfer counts as successful only when the OS both reported success and
//! moved every requested byte, so a short transfer surfaces as an error.

use crate::errors::{OperationKind, ProcessOperatorError};
use vstd::prelude::*;

verus! {

/// Right to read the target's memory with the process-memory copy
/// primitive.
pub const PROCESS_VM_READ: u32 = 0x0010;

/// Right to write the target's memory with the process-memory copy
/// primitive.
pub const PROCESS_VM_WRITE: u32 = 0x0020;

/// The minimal access rights a backend must request when opening the
/// target: both read and write, so that construction never yields a
/// partially capable instance.
pub fn required_access_rights() -> (r: u32)
    ensures
        r == (PROCESS_VM_READ | PROCESS_VM_WRITE),
{
    PROCESS_VM_READ | PROCESS_VM_WRITE
}

/// Outcome of opening the target process: the OS hands back either a usable
/// handle or a null one. A null handle means construction failed and the
/// status code read at that point is reported as an access-denied /
/// process-not-found error; it is never discarded.
pub fn open_result(handle_is_null: bool, os_code: u32) -> (r: Result<(), ProcessOperatorError>)
    ensures
        r is Ok <==> !handle_is_null,
        r is Err ==> r->Err_0 == (ProcessOperatorError::AccessDenied { os_code }),
{
    if handle_is_null {
        Err(ProcessOperatorError::AccessDenied { os_code })
    } else {
        Ok(())
    }
}

/// Outcome of one memory transfer: `completed` is the OS primitive's
/// success flag, `bytes_transferred` what it says it moved, `requested` the
/// length asked for, and `os_code` the status read on failure. The transfer
/// is a success exactly when the OS reported success and the full length
/// was moved; anything less — a hard failure or a short transfer — is a
/// transfer-failed error carrying the operation kind and the status code.
pub fn transfer_result(
    operation: OperationKind,
    completed: bool,
    bytes_transferred: usize,
    requested: usize,
    os_code: u32,
) -> (r: Result<(), ProcessOperatorError>)
    ensures
        r is Ok <==> (completed && bytes_transferred == requested),
        r is Err ==> r->Err_0 == (ProcessOperatorError::TransferFailed { operation, os_code }),
{
    if completed && bytes_transferred == requested {
        Ok(())
    } else {
        Err(ProcessOperatorError::TransferFailed { operation, os_code })
    }
}

} // verus!
