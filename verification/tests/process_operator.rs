use process_operator::errors::{OperationKind, ProcessOperatorError};
use process_operator::linux::LinuxProcessOperator;
use process_operator::mock::{MockProcessOperator, MOCK_DENIED_CODE, MOCK_TRANSFER_CODE};
use process_operator::operator::{default_process_operator, write_then_read_back};
use process_operator::operator::ProcessOperator;
use process_operator::types::{AddressType, ConstAddressType};
use process_operator::windows::{
    open_result, required_access_rights, transfer_result, PROCESS_VM_READ, PROCESS_VM_WRITE,
};

const SELF_PID: u32 = 1234;

#[test]
fn scenario_self_process_round_trip() {
    let mut operator = MockProcessOperator::new(SELF_PID).unwrap();
    operator.grant_region(0x2000, vec![0u8; 8]);

    let payload: Vec<u8> = vec![1, 2, 3, 4];
    let scratch_address = AddressType(0x2000);
    operator
        .write_process(scratch_address, &payload, 4)
        .unwrap();

    let mut read_back: Vec<u8> = vec![0u8; 4];
    operator
        .read_process(scratch_address.as_const(), &mut read_back, 4)
        .unwrap();

    assert_eq!(read_back, vec![1, 2, 3, 4]);
}

#[test]
fn round_trip_at_an_interior_address() {
    let mut operator = MockProcessOperator::new(SELF_PID).unwrap();
    operator.grant_region(0x400, vec![0xAAu8; 16]);

    let payload: Vec<u8> = vec![0xDE, 0xAD, 0xBE, 0xEF, 0x01];
    operator.write_process(AddressType(0x407), &payload, 5).unwrap();

    let mut read_back: Vec<u8> = vec![0u8; 5];
    operator
        .read_process(ConstAddressType(0x407), &mut read_back, 5)
        .unwrap();
    assert_eq!(read_back, payload);

    // The bytes around the window are untouched.
    let mut whole: Vec<u8> = vec![0u8; 16];
    operator
        .read_process(ConstAddressType(0x400), &mut whole, 16)
        .unwrap();
    assert_eq!(&whole[..7], &[0xAAu8; 7][..]);
    assert_eq!(&whole[7..12], &payload[..]);
    assert_eq!(&whole[12..], &[0xAAu8; 4][..]);
}

#[test]
fn generic_round_trip_returns_what_was_written() {
    let mut operator = MockProcessOperator::new(SELF_PID).unwrap();
    operator.grant_region(0x800, vec![0u8; 4]);

    let payload: Vec<u8> = vec![10, 20, 30, 40];
    let echoed = write_then_read_back(&mut operator, AddressType(0x800), &payload, 4).unwrap();
    assert_eq!(echoed, payload);

    // Outside the granted region the write is refused and nothing changes.
    let refused = write_then_read_back(&mut operator, AddressType(0x900), &payload, 4);
    assert_eq!(
        refused,
        Err(ProcessOperatorError::TransferFailed {
            operation: OperationKind::Write,
            os_code: MOCK_TRANSFER_CODE,
        })
    );
}

#[test]
fn construction_fails_for_reserved_pid() {
    let denied = MockProcessOperator::new(0);
    match denied {
        Ok(_) => panic!("construction for PID 0 must not succeed"),
        Err(error) => {
            assert!(error.is_access_denied());
            assert_eq!(error, ProcessOperatorError::AccessDenied { os_code: MOCK_DENIED_CODE });
            assert_eq!(error.os_code(), Some(MOCK_DENIED_CODE));
            assert_eq!(error.operation(), None);
        }
    }
}

#[test]
fn construction_succeeds_for_live_pid() {
    let operator = MockProcessOperator::new(SELF_PID).unwrap();
    assert_eq!(operator.target_pid(), SELF_PID);
    assert!(operator.handle_is_open());
    assert_eq!(operator.open_calls(), 1);
    assert_eq!(operator.close_calls(), 0);
}

#[test]
fn factory_fails_fast_on_this_target() {
    let selected = default_process_operator(SELF_PID);
    match selected {
        Ok(_) => panic!("no backend exists for this target"),
        Err(error) => {
            assert!(error.is_unsupported_platform());
            assert_eq!(error.os_code(), None);
        }
    }
    assert!(default_process_operator(0).is_err());
}

#[test]
fn zero_length_write_leaves_memory_unchanged() {
    let mut operator = MockProcessOperator::new(SELF_PID).unwrap();
    operator.grant_region(0x100, vec![7, 8, 9]);

    // Length zero succeeds trivially, even at an address outside the region.
    let empty: Vec<u8> = Vec::new();
    operator.write_process(AddressType(0xDEAD), &empty, 0).unwrap();
    operator.write_process(AddressType(0x100), &empty, 0).unwrap();

    let mut read_back: Vec<u8> = vec![0u8; 3];
    operator
        .read_process(ConstAddressType(0x100), &mut read_back, 3)
        .unwrap();
    assert_eq!(read_back, vec![7, 8, 9]);
}

#[test]
fn zero_length_read_leaves_buffer_unchanged() {
    let operator = MockProcessOperator::new(SELF_PID).unwrap();
    let mut buffer: Vec<u8> = vec![5, 5];
    operator
        .read_process(ConstAddressType(0xDEAD), &mut buffer, 0)
        .unwrap();
    assert_eq!(buffer, vec![5, 5]);
}

#[test]
fn short_transfer_surfaces_as_error() {
    // The OS reported success but moved fewer bytes than requested.
    let short = transfer_result(OperationKind::Write, true, 3, 4, 0);
    assert_eq!(
        short,
        Err(ProcessOperatorError::TransferFailed { operation: OperationKind::Write, os_code: 0 })
    );

    // A hard failure carries the status code that was read.
    let failed = transfer_result(OperationKind::Read, false, 0, 4, 31);
    match failed {
        Err(error) => {
            assert!(error.is_transfer_failed());
            assert_eq!(error.operation(), Some(OperationKind::Read));
            assert_eq!(error.os_code(), Some(31));
        }
        Ok(()) => panic!("a reported failure must not become success"),
    }

    // The full length moved: success.
    assert_eq!(transfer_result(OperationKind::Write, true, 4, 4, 0), Ok(()));
    assert_eq!(transfer_result(OperationKind::Read, true, 0, 0, 0), Ok(()));
}

#[test]
fn open_outcome_is_checked_not_discarded() {
    assert_eq!(
        open_result(true, 5),
        Err(ProcessOperatorError::AccessDenied { os_code: 5 })
    );
    assert_eq!(open_result(false, 0), Ok(()));
}

#[test]
fn handle_is_released_exactly_once() {
    let mut operator = MockProcessOperator::new(SELF_PID).unwrap();
    assert_eq!(operator.open_calls(), 1);
    assert_eq!(operator.close_calls(), 0);
    assert!(operator.handle_is_open());

    operator.close();
    assert_eq!(operator.open_calls(), 1);
    assert_eq!(operator.close_calls(), 1);
    assert!(!operator.handle_is_open());
}

#[test]
fn out_of_region_transfers_fail_and_change_nothing() {
    let mut operator = MockProcessOperator::new(SELF_PID).unwrap();
    operator.grant_region(0x100, vec![4, 5]);

    // One byte past the end of the granted region.
    let payload: Vec<u8> = vec![1];
    let write_error = operator
        .write_process(AddressType(0x102), &payload, 1)
        .unwrap_err();
    assert_eq!(
        write_error,
        ProcessOperatorError::TransferFailed {
            operation: OperationKind::Write,
            os_code: MOCK_TRANSFER_CODE,
        }
    );

    // Entirely before the region.
    let mut buffer: Vec<u8> = vec![9];
    let read_error = operator
        .read_process(ConstAddressType(0x0), &mut buffer, 1)
        .unwrap_err();
    assert_eq!(
        read_error,
        ProcessOperatorError::TransferFailed {
            operation: OperationKind::Read,
            os_code: MOCK_TRANSFER_CODE,
        }
    );
    assert_eq!(buffer, vec![9], "a failed read must leave the buffer unchanged");

    let mut read_back: Vec<u8> = vec![0u8; 2];
    operator
        .read_process(ConstAddressType(0x100), &mut read_back, 2)
        .unwrap();
    assert_eq!(read_back, vec![4, 5], "a failed write must leave memory unchanged");
}

#[test]
fn stub_backend_fails_fast() {
    let constructed = LinuxProcessOperator::new(SELF_PID);
    assert_eq!(constructed.unwrap_err(), ProcessOperatorError::UnsupportedPlatform);

    let mut stub = LinuxProcessOperator::default();
    let payload: Vec<u8> = vec![1, 2];
    assert_eq!(
        stub.write_process(AddressType(0x10), &payload, 2),
        Err(ProcessOperatorError::UnsupportedPlatform)
    );

    let mut buffer: Vec<u8> = vec![3];
    assert_eq!(
        stub.read_process(ConstAddressType(0x10), &mut buffer, 1),
        Err(ProcessOperatorError::UnsupportedPlatform)
    );
    assert_eq!(buffer, vec![3]);

    // Zero-length transfers succeed trivially even here.
    let empty: Vec<u8> = Vec::new();
    assert_eq!(stub.write_process(AddressType(0x10), &empty, 0), Ok(()));
    assert_eq!(stub.read_process(ConstAddressType(0x10), &mut buffer, 0), Ok(()));
}

#[test]
fn construction_requests_both_rights() {
    assert_eq!(PROCESS_VM_READ, 0x0010);
    assert_eq!(PROCESS_VM_WRITE, 0x0020);
    assert_eq!(required_access_rights(), 0x0030);
}

#[test]
fn error_messages_name_the_failure() {
    let denied = ProcessOperatorError::AccessDenied { os_code: 5 };
    assert_eq!(denied.message(), "access denied or process not found");

    let read_failed =
        ProcessOperatorError::TransferFailed { operation: OperationKind::Read, os_code: 299 };
    assert_eq!(read_failed.message(), "reading process memory failed");

    let write_failed =
        ProcessOperatorError::TransferFailed { operation: OperationKind::Write, os_code: 299 };
    assert_eq!(write_failed.message(), "writing process memory failed");

    let unsupported = ProcessOperatorError::UnsupportedPlatform;
    assert_eq!(unsupported.message(), "no process operator backend for this platform");
}

#[test]
fn address_types_carry_the_raw_location() {
    let destination = AddressType(0x7FFE_0000);
    assert_eq!(destination.0, 0x7FFE_0000);
    assert_eq!(destination.as_const().0, 0x7FFE_0000);
    let source = ConstAddressType(16);
    assert_eq!(source.0, 16);
}
