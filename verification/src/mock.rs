//! In-memory backend standing in for a cooperative target process.
//!
//! The mock implements the full [`ProcessOperator`] contract against a
//! buffer it owns: one contiguous region of "target" memory granted by the
//! test. It also makes the handle lifecycle observable — it counts the one
//! acquisition made at construction and every release — so the
//! release-exactly-once discipline that real backends implement in their
//! teardown can be checked here.

use crate::errors::{OperationKind, ProcessOperatorError};
use crate::model::{mem_after_write, read_bytes, region_map};
use crate::operator::ProcessOperator;
use crate::types::{AddressType, ConstAddressType};
use vstd::prelude::*;

verus! {

/// Synthetic status code the mock reports when construction is denied.
pub const MOCK_DENIED_CODE: u32 = 5;

/// Synthetic status code the mock reports for a failed transfer.
pub const MOCK_TRANSFER_CODE: u32 = 299;

/// A process operator over memory the instance itself owns.
///
/// The accessible target memory is the region granted last, laid out from
/// `region_base`. A PID of zero stands for a process that does not exist:
/// construction for it is denied.
#[derive(Debug)]
pub struct MockProcessOperator {
    pid: u32,
    region_base: usize,
    region: Vec<u8>,
    handle_open: bool,
    open_count: u32,
    close_count: u32,
}

impl MockProcessOperator {
    /// How often a handle was acquired: once, at construction.
    pub closed spec fn opens(&self) -> nat {
        self.open_count as nat
    }

    /// How often the handle was released.
    pub closed spec fn closes(&self) -> nat {
        self.close_count as nat
    }


    pub fn open_calls(&self) -> (r: u32)
        ensures
            r as nat == self.opens(),
    {
        self.open_count
    }

    pub fn close_calls(&self) -> (r: u32)
        ensures
            r as nat == self.closes(),
    {
        self.close_count
    }

    pub fn handle_is_open(&self) -> (r: bool)
        ensures
            r == self.is_open(),
    {
        self.handle_open
    }

    pub fn target_pid(&self) -> (r: u32)
        ensures
            r == self.session_pid(),
    {
        self.pid
    }

    /// Makes `contents`, laid out from `base`, the target memory the
    /// operator has rights to; what was granted before is gone. Transfers
    /// then succeed exactly inside `[base, base + contents.len())` (and
    /// trivially at length zero).
    pub fn grant_region(&mut self, base: usize, contents: Vec<u8>)
        requires
            old(self).wf(),
            old(self).is_open(),
            base + contents@.len() <= usize::MAX,
        ensures
            final(self).wf(),
            final(self).is_open(),
            final(self).opens() == old(self).opens(),
            final(self).closes() == old(self).closes(),
            final(self).session_pid() == old(self).session_pid(),
            final(self).mem() == region_map(base as int, contents@),
            forall|a: int, l: int|
                final(self).write_allowed(a, l) <==> (l == 0 || (base <= a && a + l <= base
                    + contents@.len())),
            forall|a: int, l: int|
                final(self).read_allowed(a, l) <==> (l == 0 || (base <= a && a + l <= base
                    + contents@.len())),
    {
        self.region_base = base;
        self.region = contents;
    }

    /// Releases the handle. The open precondition rules out a double
    /// release by ownership: once released, no operation's precondition
    /// holds any more.
    pub fn close(&mut self)
        requires
            old(self).wf(),
            old(self).is_open(),
        ensures
            final(self).wf(),
            !final(self).is_open(),
            final(self).opens() == old(self).opens(),
            final(self).closes() == old(self).closes() + 1,
            final(self).session_pid() == old(self).session_pid(),
            final(self).mem() == old(self).mem(),
    {
        self.handle_open = false;
        self.close_count = self.close_count + 1;
    }
}

/// Handle accounting law: a well-formed mock has acquired its handle
/// exactly once, released it at most once, and holds it exactly until the
/// one release — no double release and no leak.
pub proof fn lemma_handle_released_exactly_once(m: &MockProcessOperator)
    requires
        m.wf(),
    ensures
        m.opens() == 1,
        m.closes() <= 1,
        m.is_open() <==> m.closes() == 0,
{
}

/// Which constructions the mock allows: every PID but the reserved zero,
/// which is denied with the synthetic access-denied code — never a silent
/// success.
pub proof fn lemma_mock_construction(pid: u32)
    ensures
        MockProcessOperator::open_allowed(pid) <==> pid != 0,
        MockProcessOperator::open_error(pid) == (ProcessOperatorError::AccessDenied {
            os_code: MOCK_DENIED_CODE,
        }),
{
}

/// The error value the mock's failed transfers report: transfer-failed,
/// carrying the operation kind and the synthetic transfer code.
pub proof fn lemma_mock_transfer_error(m: &MockProcessOperator, operation: OperationKind)
    ensures
        m.transfer_error(operation) == (ProcessOperatorError::TransferFailed {
            operation,
            os_code: MOCK_TRANSFER_CODE,
        }),
{
}

impl ProcessOperator for MockProcessOperator {
    closed spec fn wf(&self) -> bool {
        &&& self.open_count == 1
        &&& self.close_count <= 1
        &&& self.handle_open <==> self.close_count == 0
        &&& self.region_base + self.region@.len() <= usize::MAX
    }

    closed spec fn is_open(&self) -> bool {
        self.handle_open
    }

    closed spec fn session_pid(&self) -> u32 {
        self.pid
    }

    closed spec fn mem(&self) -> Map<int, u8> {
        region_map(self.region_base as int, self.region@)
    }

    closed spec fn write_allowed(&self, addr: int, len: int) -> bool {
        len == 0 || (self.region_base <= addr && addr + len <= self.region_base
            + self.region@.len())
    }

    closed spec fn read_allowed(&self, addr: int, len: int) -> bool {
        len == 0 || (self.region_base <= addr && addr + len <= self.region_base
            + self.region@.len())
    }

    closed spec fn transfer_error(&self, operation: OperationKind) -> ProcessOperatorError {
        ProcessOperatorError::TransferFailed { operation, os_code: MOCK_TRANSFER_CODE }
    }

    closed spec fn open_allowed(pid: u32) -> bool {
        pid != 0
    }

    closed spec fn open_error(pid: u32) -> ProcessOperatorError {
        ProcessOperatorError::AccessDenied { os_code: MOCK_DENIED_CODE }
    }

    /// Denies the reserved PID zero, as the OS denies a process that does
    /// not exist; any other PID is treated as a cooperative target. A fresh
    /// instance has been granted no memory yet.
    fn new(pid: u32) -> (r: Result<Self, ProcessOperatorError>)
        ensures
            r is Ok ==> r->Ok_0.mem() == region_map(0, Seq::<u8>::empty()),
    {
        if pid == 0 {
            Err(ProcessOperatorError::AccessDenied { os_code: MOCK_DENIED_CODE })
        } else {
            Ok(
                MockProcessOperator {
                    pid,
                    region_base: 0,
                    region: Vec::new(),
                    handle_open: true,
                    open_count: 1,
                    close_count: 0,
                },
            )
        }
    }

    fn write_process(&mut self, address: AddressType, data: &Vec<u8>, length: usize) -> (r: Result<
        (),
        ProcessOperatorError,
    >) {
        if length == 0 {
            proof {
                assert(data@.take(0) =~= Seq::<u8>::empty());
                assert(mem_after_write(self.mem(), address.0 as int, data@.take(0))
                    =~= self.mem());
            }
            return Ok(());
        }
        let base = self.region_base;
        let rlen = self.region.len();
        if address.0 >= base && length <= rlen && address.0 - base <= rlen - length {
            let offset = address.0 - base;
            let mut i: usize = 0;
            while i < length
                invariant
                    i <= length,
                    length <= data@.len(),
                    offset == address.0 - base,
                    base == old(self).region_base,
                    offset + length <= usize::MAX,
                    offset + length <= self.region@.len(),
                    self.region@.len() == old(self).region@.len(),
                    self.region_base == old(self).region_base,
                    self.handle_open == old(self).handle_open,
                    self.open_count == old(self).open_count,
                    self.close_count == old(self).close_count,
                    self.pid == old(self).pid,
                    forall|j: int| 0 <= j < i ==> self.region@[offset + j] == data@[j],
                    forall|j: int|
                        0 <= j < self.region@.len() && !(offset <= j < offset + i)
                            ==> self.region@[j] == old(self).region@[j],
                decreases length - i,
            {
                self.region[offset + i] = data[i];
                i = i + 1;
            }
            proof {
                assert(self.mem() =~= mem_after_write(
                    old(self).mem(),
                    address.0 as int,
                    data@.take(length as int),
                ));
            }
            Ok(())
        } else {
            Err(ProcessOperatorError::TransferFailed {
                operation: OperationKind::Write,
                os_code: MOCK_TRANSFER_CODE,
            })
        }
    }

    fn read_process(&self, address: ConstAddressType, data: &mut Vec<u8>, length: usize) -> (r:
        Result<(), ProcessOperatorError>) {
        if length == 0 {
            proof {
                assert(read_bytes(self.mem(), address.0 as int, 0) + old(data)@.skip(0) =~= old(
                    data,
                )@);
            }
            return Ok(());
        }
        let base = self.region_base;
        let rlen = self.region.len();
        if address.0 >= base && length <= rlen && address.0 - base <= rlen - length {
            let offset = address.0 - base;
            let mut i: usize = 0;
            while i < length
                invariant
                    i <= length,
                    length <= data@.len(),
                    offset == address.0 - base,
                    offset + length <= usize::MAX,
                    offset + length <= self.region@.len(),
                    data@.len() == old(data)@.len(),
                    forall|j: int| 0 <= j < i ==> data@[j] == self.region@[offset + j],
                    forall|j: int| i <= j < data@.len() ==> data@[j] == old(data)@[j],
                decreases length - i,
            {
                data[i] = self.region[offset + i];
                i = i + 1;
            }
            proof {
                assert(data@ =~= read_bytes(self.mem(), address.0 as int, length as nat) + old(
                    data,
                )@.skip(length as int));
            }
            Ok(())
        } else {
            Err(ProcessOperatorError::TransferFailed {
                operation: OperationKind::Read,
                os_code: MOCK_TRANSFER_CODE,
            })
        }
    }
}

} // verus!
