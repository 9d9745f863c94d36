use sel4_result::intersection::Error;
use sel4_result::intersection::JustError;
use sel4_result::intersection::COUNT;

#[test]
fn intersection_test_count() {
    assert_eq!(COUNT, Error::NotEnoughMemory as usize + 1);
}

#[test]
fn intersection__test_ok_2_() {
    let start = Error::from_result(Ok(()));
    let r: Result<(), JustError> = match start.branch() {
        Ok(()) => Ok(()),
        Err(j) => Err(j),
    };
    assert_eq!(r, Ok(()));
}

#[test]
fn intersection_test_ok_1() {
    assert_eq!(sel4_result::intersection::_test_ok_1_(), Error::NoError);
}

#[test]
fn intersection_test_ok_2() {
    let start = Error::from_result(Ok(()));
    let r: Result<(), JustError> = match start.branch() {
        Ok(()) => Ok(()),
        Err(j) => Err(j),
    };
    assert_eq!(r, Ok(()));
}

#[test]
fn intersection_test_invalid_argument() {
    assert_eq!(
        sel4_result::intersection::_test_invalid_argument_(),
        Err(JustError::InvalidArgument)
    );
}

#[test]
fn intersection_test_invalid_capability() {
    assert_eq!(
        sel4_result::intersection::_test_invalid_capability_(),
        Err(JustError::InvalidCapability)
    );
}

#[test]
fn intersection_test_illegal_operation() {
    assert_eq!(
        sel4_result::intersection::_test_illegal_operation_(),
        Err(JustError::IllegalOperation)
    );
}

#[test]
fn intersection_test_range_error() {
    assert_eq!(
        sel4_result::intersection::_test_range_error_(),
        Err(JustError::RangeError)
    );
}

#[test]
fn intersection_test_alignment_error() {
    assert_eq!(
        sel4_result::intersection::_test_alignment_error_(),
        Err(JustError::AlignmentError)
    );
}

#[test]
fn intersection_test_failed_lookup() {
    assert_eq!(
        sel4_result::intersection::_test_failed_lookup_(),
        Err(JustError::FailedLookup)
    );
}

#[test]
fn intersection_test_truncated_message() {
    assert_eq!(
        sel4_result::intersection::_test_truncated_message_(),
        Err(JustError::TruncatedMessage)
    );
}

#[test]
fn intersection_test_delete_first() {
    assert_eq!(
        sel4_result::intersection::_test_delete_first_(),
        Err(JustError::DeleteFirst)
    );
}

#[test]
fn intersection_test_revoke_first() {
    assert_eq!(
        sel4_result::intersection::_test_revoke_first_(),
        Err(JustError::RevokeFirst)
    );
}

#[test]
fn intersection_test_not_enough_memory() {
    assert_eq!(
        sel4_result::intersection::_test_not_enough_memory_(),
        Err(JustError::NotEnoughMemory)
    );
}
