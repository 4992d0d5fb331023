//! The `ProcessOperator` contract: one open session against exactly one
//! target process, with raw read and write access to its memory.
//!
//! Each backend gives the contract meaning through its spec functions: its
//! invariant (`wf`), whether the handle is still held (`is_open`), its model
//! of the target memory (`mem`), and which transfers it owes success on
//! (`write_allowed` / `read_allowed`). The method contracts then pin every
//! outcome: success exactly on the allowed transfers, the stated memory
//! effect on success, an unchanged state and a determined error value on
//! failure. A short transfer is never reported as success.

use crate::errors::{OperationKind, ProcessOperatorError};
use crate::linux::LinuxProcessOperator;
use crate::model::{lemma_write_read_round_trip, mem_after_write, read_bytes};
use crate::types::{AddressType, ConstAddressType};
use vstd::prelude::*;

verus! {

/// Reads and writes the memory of one target process.
///
/// An instance is one open session: constructed for a PID with both read and
/// write rights, or not constructed at all. While the handle is held,
/// `write_process` and `read_process` forward single transfers; there is no
/// batching and no retry. Releasing the handle is the owner's teardown duty;
/// after release no operation is valid, which the `is_open` precondition
/// enforces through ownership rather than runtime checks.
pub trait ProcessOperator: Sized {
    /// Backend invariant: established by construction, kept by every
    /// operation.
    spec fn wf(&self) -> bool;

    /// Whether the underlying process handle is still held.
    spec fn is_open(&self) -> bool;

    /// The PID of the one target process this session was constructed for.
    /// It is fixed at construction; no operation moves a session to another
    /// process.
    spec fn session_pid(&self) -> u32;

    /// The backend's model of the target process memory: a partial map from
    /// addresses to bytes.
    spec fn mem(&self) -> Map<int, u8>;

    /// The write transfers this backend owes success on. Zero-length
    /// transfers always succeed, so every backend admits `len == 0`.
    spec fn write_allowed(&self, addr: int, len: int) -> bool;

    /// The read transfers this backend owes success on. Zero-length
    /// transfers always succeed, so every backend admits `len == 0`.
    spec fn read_allowed(&self, addr: int, len: int) -> bool;

    /// The error value a failed transfer of kind `operation` reports.
    spec fn transfer_error(&self, operation: OperationKind) -> ProcessOperatorError;

    /// The PIDs for which construction succeeds.
    spec fn open_allowed(pid: u32) -> bool;

    /// The error value a failed construction for `pid` reports.
    spec fn open_error(pid: u32) -> ProcessOperatorError;

    /// Acquires an access token with both read and write rights for the
    /// process identified by `pid`, or fails; never a partially capable
    /// instance, and never a silent success or failure. A constructed
    /// session is bound to that PID for its whole lifetime.
    fn new(pid: u32) -> (r: Result<Self, ProcessOperatorError>)
        ensures
            r is Ok <==> Self::open_allowed(pid),
            r is Ok ==> r->Ok_0.wf() && r->Ok_0.is_open() && r->Ok_0.session_pid() == pid,
            r is Err ==> r->Err_0 == Self::open_error(pid),
    ;

    /// Copies the first `length` bytes of `data` into the target process at
    /// `address`. Success means the full `length` was written and target
    /// memory now holds those bytes there; on failure target memory is
    /// unchanged and the error is the backend's write failure.
    fn write_process(&mut self, address: AddressType, data: &Vec<u8>, length: usize) -> (r: Result<
        (),
        ProcessOperatorError,
    >)
        requires
            old(self).wf(),
            old(self).is_open(),
            length <= data@.len(),
        ensures
            final(self).wf(),
            final(self).is_open(),
            final(self).session_pid() == old(self).session_pid(),
            forall|a: int, l: int|
                final(self).write_allowed(a, l) == old(self).write_allowed(a, l),
            forall|a: int, l: int| final(self).read_allowed(a, l) == old(self).read_allowed(a, l),
            forall|operation: OperationKind|
                final(self).transfer_error(operation) == old(self).transfer_error(operation),
            r is Ok <==> old(self).write_allowed(address.0 as int, length as int),
            length == 0 ==> r is Ok,
            r is Ok ==> final(self).mem() == mem_after_write(
                old(self).mem(),
                address.0 as int,
                data@.take(length as int),
            ),
            r is Err ==> final(self).mem() == old(self).mem() && r->Err_0 == old(
                self,
            ).transfer_error(OperationKind::Write),
    ;

    /// Copies `length` bytes from the target process at `address` into the
    /// front of the caller-owned buffer `data`. Success means the full
    /// `length` was read; on failure the buffer is unchanged and the error
    /// is the backend's read failure. The buffer never changes size.
    fn read_process(&self, address: ConstAddressType, data: &mut Vec<u8>, length: usize) -> (r:
        Result<(), ProcessOperatorError>)
        requires
            self.wf(),
            self.is_open(),
            length <= old(data)@.len(),
        ensures
            final(data)@.len() == old(data)@.len(),
            r is Ok <==> self.read_allowed(address.0 as int, length as int),
            length == 0 ==> r is Ok,
            r is Ok ==> final(data)@ == read_bytes(self.mem(), address.0 as int, length as nat)
                + old(data)@.skip(length as int),
            r is Err ==> final(data)@ == old(data)@ && r->Err_0 == self.transfer_error(
                OperationKind::Read,
            ),
    ;
}

/// Round-trip law, proved once for every backend: writing `length` bytes
/// and reading the same window back returns exactly the bytes that were
/// written. Succeeds precisely when the backend owes success on both
/// transfers; a failure reports the failing transfer's error and, when the
/// write had already succeeded, leaves its effect in place.
pub fn write_then_read_back<O: ProcessOperator>(
    operator: &mut O,
    address: AddressType,
    data: &Vec<u8>,
    length: usize,
) -> (r: Result<Vec<u8>, ProcessOperatorError>)
    requires
        old(operator).wf(),
        old(operator).is_open(),
        length <= data@.len(),
    ensures
        final(operator).wf(),
        final(operator).is_open(),
        final(operator).session_pid() == old(operator).session_pid(),
        r is Ok <==> old(operator).write_allowed(address.0 as int, length as int) && old(
            operator,
        ).read_allowed(address.0 as int, length as int),
        r is Ok ==> r->Ok_0@ == data@.take(length as int),
        old(operator).write_allowed(address.0 as int, length as int) ==> final(operator).mem()
            == mem_after_write(old(operator).mem(), address.0 as int, data@.take(length as int)),
        !old(operator).write_allowed(address.0 as int, length as int) ==> final(operator).mem()
            == old(operator).mem() && r is Err && r->Err_0 == old(operator).transfer_error(
            OperationKind::Write,
        ),
        old(operator).write_allowed(address.0 as int, length as int) && !old(
            operator,
        ).read_allowed(address.0 as int, length as int) ==> r is Err && r->Err_0 == old(
            operator,
        ).transfer_error(OperationKind::Read),
{
    match operator.write_process(address, data, length) {
        Ok(()) => {},
        Err(e) => {
            return Err(e);
        },
    }
    let mut buffer: Vec<u8> = Vec::new();
    let mut i: usize = 0;
    while i < length
        invariant
            i <= length,
            buffer@.len() == i,
        decreases length - i,
    {
        buffer.push(0);
        i = i + 1;
    }
    match operator.read_process(address.as_const(), &mut buffer, length) {
        Ok(()) => {
            proof {
                lemma_write_read_round_trip(
                    old(operator).mem(),
                    address.0 as int,
                    data@.take(length as int),
                );
                assert(buffer@ =~= data@.take(length as int));
            }
            Ok(buffer)
        },
        Err(e) => Err(e),
    }
}

/// Constructs the backend selected for the build target.
///
/// No working OS backend exists for this target, so construction fails fast
/// with the stub's unsupported-platform error instead of handing out an
/// instance with empty behaviour.
pub fn default_process_operator(pid: u32) -> (r: Result<
    LinuxProcessOperator,
    ProcessOperatorError,
>)
    ensures
        r is Err,
        r->Err_0 == ProcessOperatorError::UnsupportedPlatform,
{
    <LinuxProcessOperator as ProcessOperator>::new(pid)
}

} // verus!
