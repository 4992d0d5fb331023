//! Stub backend for targets without a working implementation.
//!
//! The OS primitive this target would need (a process-memory pseudo-file or
//! a trace/attach interface) is an open obligation, not a feature: rather
//! than compiling silently with empty behaviour, this backend fails fast.
//! Construction always reports [`ProcessOperatorError::UnsupportedPlatform`],
//! and the only transfers it owes success on are the zero-length ones, which
//! succeed trivially everywhere.

use crate::errors::{OperationKind, ProcessOperatorError};
use crate::model::mem_after_write;
use crate::operator::ProcessOperator;
use crate::types::{AddressType, ConstAddressType};
use vstd::prelude::*;

verus! {

/// Placeholder backend: holds no handle and performs no OS call.
#[derive(Clone, Copy, Debug)]
pub struct LinuxProcessOperator {}

impl Default for LinuxProcessOperator {
    /// A stub instance; every operation on it fails except the trivially
    /// successful zero-length transfers.
    fn default() -> (r: Self)
        ensures
            r.wf(),
            r.is_open(),
    {
        LinuxProcessOperator {  }
    }
}

impl ProcessOperator for LinuxProcessOperator {
    open spec fn wf(&self) -> bool {
        true
    }

    open spec fn is_open(&self) -> bool {
        true
    }

    /// No session exists: construction never succeeds, so no instance ever
    /// satisfies the constructor's binding of this value to a real PID.
    open spec fn session_pid(&self) -> u32 {
        0
    }

    open spec fn mem(&self) -> Map<int, u8> {
        Map::empty()
    }

    open spec fn write_allowed(&self, addr: int, len: int) -> bool {
        len == 0
    }

    open spec fn read_allowed(&self, addr: int, len: int) -> bool {
        len == 0
    }

    open spec fn transfer_error(&self, operation: OperationKind) -> ProcessOperatorError {
        ProcessOperatorError::UnsupportedPlatform
    }

    open spec fn open_allowed(pid: u32) -> bool {
        false
    }

    open spec fn open_error(pid: u32) -> ProcessOperatorError {
        ProcessOperatorError::UnsupportedPlatform
    }

    fn new(pid: u32) -> (r: Result<Self, ProcessOperatorError>) {
        Err(ProcessOperatorError::UnsupportedPlatform)
    }

    fn write_process(&mut self, address: AddressType, data: &Vec<u8>, length: usize) -> (r: Result<
        (),
        ProcessOperatorError,
    >) {
        if length == 0 {
            proof {
                assert(data@.take(0) =~= Seq::<u8>::empty());
                assert(mem_after_write(Map::<int, u8>::empty(), address.0 as int, data@.take(0))
                    =~= Map::<int, u8>::empty());
            }
            Ok(())
        } else {
            Err(ProcessOperatorError::UnsupportedPlatform)
        }
    }

    fn read_process(&self, address: ConstAddressType, data: &mut Vec<u8>, length: usize) -> (r:
        Result<(), ProcessOperatorError>) {
        if length == 0 {
            proof {
                assert(crate::model::read_bytes(Map::<int, u8>::empty(), address.0 as int, 0)
                    + old(data)@.skip(0) =~= old(data)@);
            }
            Ok(())
        } else {
            Err(ProcessOperatorError::UnsupportedPlatform)
        }
    }
}

} // verus!
