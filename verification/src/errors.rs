//! Error taxonomy for process-memory operations.
//!
//! Every fallible OS call made on behalf of the library is checked and its
//! outcome converted into a [`ProcessOperatorError`]; no status code is ever
//! read and then dropped.

use vstd::prelude::*;

verus! {

use vstd::string::StringExecFns;

/// Which memory transfer a failure belongs to.
#[derive(Clone, Copy, Debug, PartialEq, Eq, Structural)]
pub enum OperationKind {
    Read,
    Write,
}

/// Why acquiring a process or transferring memory failed.
///
/// Carries the operation kind and the underlying OS status code where one
/// exists, so a caller can diagnose the failure. There is no implicit
/// conversion to success.
#[derive(Clone, Copy, Debug, PartialEq, Eq, Structural)]
pub enum ProcessOperatorError {
    /// Construction could not obtain a usable handle: the process does not
    /// exist, has exited, or the OS denied the requested access rights.
    AccessDenied { os_code: u32 },
    /// A read or write reported failure, or moved fewer bytes than
    /// requested (a short transfer).
    TransferFailed { operation: OperationKind, os_code: u32 },
    /// No working backend exists for the build target.
    UnsupportedPlatform,
}

impl ProcessOperatorError {
    /// The OS status code the failure carries, if any.
    pub open spec fn spec_os_code(&self) -> Option<u32> {
        match *self {
            ProcessOperatorError::AccessDenied { os_code } => Some(os_code),
            ProcessOperatorError::TransferFailed { operation: _, os_code } => Some(os_code),
            ProcessOperatorError::UnsupportedPlatform => None,
        }
    }

    /// The transfer the failure belongs to, if it came from one.
    pub open spec fn spec_operation(&self) -> Option<OperationKind> {
        match *self {
            ProcessOperatorError::TransferFailed { operation, os_code: _ } => Some(operation),
            _ => None,
        }
    }

    /// One-line description of the failure.
    pub open spec fn message_view(&self) -> Seq<char> {
        match *self {
            ProcessOperatorError::AccessDenied { .. } => "access denied or process not found"@,
            ProcessOperatorError::TransferFailed { operation: OperationKind::Read, .. } => (
                "reading process memory failed"@
            ),
            ProcessOperatorError::TransferFailed { operation: OperationKind::Write, .. } => (
                "writing process memory failed"@
            ),
            ProcessOperatorError::UnsupportedPlatform => (
                "no process operator backend for this platform"@
            ),
        }
    }

    pub fn is_access_denied(&self) -> (r: bool)
        ensures
            r == (self is AccessDenied),
    {
        matches!(self, ProcessOperatorError::AccessDenied { .. })
    }

    pub fn is_transfer_failed(&self) -> (r: bool)
        ensures
            r == (self is TransferFailed),
    {
        matches!(self, ProcessOperatorError::TransferFailed { .. })
    }

    pub fn is_unsupported_platform(&self) -> (r: bool)
        ensures
            r == (self is UnsupportedPlatform),
    {
        matches!(self, ProcessOperatorError::UnsupportedPlatform)
    }

    /// The OS status code the failure carries, if any.
    pub fn os_code(&self) -> (r: Option<u32>)
        ensures
            r == self.spec_os_code(),
    {
        match *self {
            ProcessOperatorError::AccessDenied { os_code } => Some(os_code),
            ProcessOperatorError::TransferFailed { operation: _, os_code } => Some(os_code),
            ProcessOperatorError::UnsupportedPlatform => None,
        }
    }

    /// The transfer the failure belongs to, if it came from one.
    pub fn operation(&self) -> (r: Option<OperationKind>)
        ensures
            r == self.spec_operation(),
    {
        match *self {
            ProcessOperatorError::TransferFailed { operation, os_code: _ } => Some(operation),
            _ => None,
        }
    }

    /// One-line description of the failure, for callers that report it.
    pub fn message(&self) -> (r: String)
        ensures
            r@ == self.message_view(),
    {
        match *self {
            ProcessOperatorError::AccessDenied { .. } => String::from_str(
                "access denied or process not found",
            ),
            ProcessOperatorError::TransferFailed { operation: OperationKind::Read, .. } => (
                String::from_str("reading process memory failed")
            ),
            ProcessOperatorError::TransferFailed { operation: OperationKind::Write, .. } => (
                String::from_str("writing process memory failed")
            ),
            ProcessOperatorError::UnsupportedPlatform => String::from_str(
                "no process operator backend for this platform",
            ),
        }
    }
}

} // verus!
