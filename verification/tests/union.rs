use sel4_result::union::Error;
use sel4_result::union::COUNT;

#[test]
fn union_test_count() {
    assert_eq!(COUNT, Error::NotEnoughMemory as usize + 1);
}

#[test]
fn union__test_ok_2_() {
    let start = Error::from_result(Ok(()));
    let r = match start.branch() {
        Ok(()) => Error::NoError,
        Err(e) => Error::from_residual(e),
    };
    assert_eq!(r, Error::NoError);
}

#[test]
fn union_test_ok_1() {
    assert_eq!(sel4_result::union::_test_ok_1_(), Error::NoError);
}

#[test]
fn union_test_ok_2() {
    let start = Error::from_result(Ok(()));
    let r = match start.branch() {
        Ok(()) => Error::NoError,
        Err(e) => Error::from_residual(e),
    };
    assert_eq!(r, Error::NoError);
}

#[test]
fn union_test_invalid_argument() {
    assert_eq!(
        sel4_result::union::_test_invalid_argument_(),
        Error::InvalidArgument
    );
}

#[test]
fn union_test_invalid_capability() {
    assert_eq!(
        sel4_result::union::_test_invalid_capability_(),
        Error::InvalidCapability
    );
}

#[test]
fn union_test_illegal_operation() {
    assert_eq!(
        sel4_result::union::_test_illegal_operation_(),
        Error::IllegalOperation
    );
}

#[test]
fn union_test_range_error() {
    assert_eq!(sel4_result::union::_test_range_error_(), Error::RangeError);
}

#[test]
fn union_test_alignment_error() {
    assert_eq!(
        sel4_result::union::_test_alignment_error_(),
        Error::AlignmentError
    );
}

#[test]
fn union_test_failed_lookup() {
    assert_eq!(
        sel4_result::union::_test_failed_lookup_(),
        Error::FailedLookup
    );
}

#[test]
fn union_test_truncated_message() {
    assert_eq!(
        sel4_result::union::_test_truncated_message_(),
        Error::TruncatedMessage
    );
}

#[test]
fn union_test_delete_first() {
    assert_eq!(sel4_result::union::_test_delete_first_(), Error::DeleteFirst);
}

#[test]
fn union_test_revoke_first() {
    assert_eq!(sel4_result::union::_test_revoke_first_(), Error::RevokeFirst);
}

#[test]
fn union_test_not_enough_memory() {
    assert_eq!(
        sel4_result::union::_test_not_enough_memory_(),
        Error::NotEnoughMemory
    );
}
