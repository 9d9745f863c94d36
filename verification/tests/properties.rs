use sel4_result::disjoint;
use sel4_result::intersection;
use sel4_result::intersection::JustError;
use sel4_result::union;
use sel4_result::union::Error;

#[test]
fn classify_names_every_error() {
    let named = [
        (1, Error::InvalidArgument),
        (2, Error::InvalidCapability),
        (3, Error::IllegalOperation),
        (4, Error::RangeError),
        (5, Error::AlignmentError),
        (6, Error::FailedLookup),
        (7, Error::TruncatedMessage),
        (8, Error::DeleteFirst),
        (9, Error::RevokeFirst),
        (10, Error::NotEnoughMemory),
    ];
    for (code, expected) in named {
        let r = union::classify(code);
        assert_eq!(r, expected);
        // The short-circuit step stops on the named error and yields it
        // unchanged.
        assert_eq!(r.branch(), Err(expected));
    }
}

#[test]
fn classify_zero_is_sentinel_and_continues() {
    let r = union::classify(0);
    assert_eq!(r, Error::NoError);
    assert_eq!(r.branch(), Ok(()));
}

#[test]
fn classify_out_of_range_codes() {
    // One past the last named error, larger positives, and negatives.
    for code in [11, 12, 100, i32::MAX, -1, -7, i32::MIN] {
        assert_eq!(union::classify(code), Error::ErrorCodeOutOfRange);
    }
}

#[test]
fn classify_round_trips_over_the_valid_span() {
    for code in 0..=10 {
        assert_eq!(union::classify(code).to_raw(), code);
        assert_eq!(
            intersection::classify(code).to_raw(),
            code,
            "intersection round trip at {code}"
        );
        assert_eq!(
            disjoint::classify(code).to_raw(),
            code,
            "disjoint round trip at {code}"
        );
    }
}

#[test]
fn equality_is_code_equality() {
    let a = union::classify(5);
    let b = union::classify(5);
    let c = union::classify(6);
    assert!(union::equals(a, b));
    assert!(!union::equals(a, c));
    assert_eq!(a, b);
    assert_ne!(a, c);
}

#[test]
fn is_success_only_on_the_sentinel() {
    assert!(Error::NoError.is_success());
    assert!(!Error::AlignmentError.is_success());
    assert!(!Error::ErrorCodeOutOfRange.is_success());
    assert!(disjoint::RawResult::NonError(disjoint::NonError::Success).is_success());
    assert!(!disjoint::RawResult::Error(disjoint::Error::RangeError).is_success());
}

#[test]
fn to_narrow_rejects_the_sentinel() {
    assert_eq!(
        intersection::to_narrow(intersection::Error::NoError),
        Err(intersection::OutOfDomain)
    );
}

#[test]
fn to_wide_undoes_to_narrow() {
    let wides = [
        intersection::Error::InvalidArgument,
        intersection::Error::InvalidCapability,
        intersection::Error::IllegalOperation,
        intersection::Error::RangeError,
        intersection::Error::AlignmentError,
        intersection::Error::FailedLookup,
        intersection::Error::TruncatedMessage,
        intersection::Error::DeleteFirst,
        intersection::Error::RevokeFirst,
        intersection::Error::NotEnoughMemory,
        intersection::Error::ErrorCodeOutOfRange,
    ];
    for wide in wides {
        let narrow = intersection::to_narrow(wide).unwrap();
        assert_eq!(narrow.to_raw(), wide.to_raw());
        assert_eq!(intersection::to_wide(narrow), wide);
    }
}

#[test]
fn from_narrow_residual_matches_classification() {
    let narrows = [
        JustError::InvalidArgument,
        JustError::InvalidCapability,
        JustError::IllegalOperation,
        JustError::RangeError,
        JustError::AlignmentError,
        JustError::FailedLookup,
        JustError::TruncatedMessage,
        JustError::DeleteFirst,
        JustError::RevokeFirst,
        JustError::NotEnoughMemory,
        JustError::ErrorCodeOutOfRange,
    ];
    for narrow in narrows {
        let widened = intersection::from_narrow_residual(narrow);
        assert_eq!(widened, intersection::classify(narrow.to_raw()));
        assert_eq!(widened.to_raw(), narrow.to_raw());
    }
}

#[test]
fn narrow_count_is_one_less_than_wide_count() {
    // Every wide code is 0 ..= 11 and every narrow code is 1 ..= 11; the
    // narrow enumeration misses exactly the sentinel code.
    let wide_codes: Vec<i32> = (0..=11).collect();
    let narrow_codes: Vec<i32> = (1..=11).collect();
    assert_eq!(narrow_codes.len() + 1, wide_codes.len());
    for code in narrow_codes {
        let wide = intersection::classify(code);
        let narrow = intersection::to_narrow(wide).unwrap();
        assert_eq!(narrow.to_raw(), code);
    }
    assert_eq!(intersection::COUNT, 11);
    assert_eq!(union::COUNT, 11);
    assert_eq!(disjoint::COUNT, 11);
    assert_eq!(union::FLOOR, 1);
}

#[test]
fn out_of_range_even_past_the_pseudo_error() {
    assert_eq!(
        disjoint::_test_error_code_out_of_range_really_(),
        disjoint::RawResult::Error(disjoint::Error::ErrorCodeOutOfRange)
    );
}

fn flat_step(counter: &mut u32, outcome: Error) -> Error {
    *counter += 1;
    outcome
}

#[test]
fn chain_short_circuits_at_the_second_step() {
    let mut ran: u32 = 0;
    let r = {
        let first = flat_step(&mut ran, Error::NoError);
        match first.branch() {
            Ok(()) => {
                let second = flat_step(&mut ran, Error::AlignmentError);
                match second.branch() {
                    Ok(()) => {
                        let third = flat_step(&mut ran, Error::NotEnoughMemory);
                        match third.branch() {
                            Ok(()) => Error::NoError,
                            Err(e) => Error::from_residual(e),
                        }
                    }
                    Err(e) => Error::from_residual(e),
                }
            }
            Err(e) => Error::from_residual(e),
        }
    };
    assert_eq!(r, Error::AlignmentError);
    // The third operation never ran.
    assert_eq!(ran, 2);
}

fn narrow_step(counter: &mut u32, outcome: intersection::Error) -> intersection::Error {
    *counter += 1;
    outcome
}

#[test]
fn narrow_chain_short_circuits_at_the_second_step() {
    let mut ran: u32 = 0;
    let r: Result<(), JustError> = {
        match narrow_step(&mut ran, intersection::Error::NoError).branch() {
            Ok(()) => match narrow_step(&mut ran, intersection::Error::AlignmentError).branch() {
                Ok(()) => match narrow_step(&mut ran, intersection::Error::NotEnoughMemory).branch()
                {
                    Ok(()) => Ok(()),
                    Err(j) => Err(j),
                },
                Err(j) => Err(j),
            },
            Err(j) => Err(j),
        }
    };
    assert_eq!(r, Err(JustError::AlignmentError));
    assert_eq!(ran, 2);
}
