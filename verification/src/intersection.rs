//! Refinement pair: the flat enumeration beside one that excludes success.
//!
//! `Error` is the flat type of the sibling encodings; `JustError` holds the
//! same error members at the same wire codes but has no sentinel, so a value
//! of it is strictly an error by construction and code holding one needs no
//! success check.  The two are related code-for-code: every non-zero code
//! valid for the flat type is valid for the narrow one.  Narrowing must
//! reject the sentinel; widening is total and preserves the code exactly.

use vstd::prelude::*;
use vstd::set_lib::lemma_int_range;
use vstd::set_lib::set_int_range;

verus! {

/// Lowest wire code assigned to a named error.
pub const FLOOR: i32 = 1;

/// One past the wire code of the last named error; equivalently the number
/// of members of the domain that the kernel itself can report (the sentinel
/// plus the named errors).
pub const COUNT: usize = 11;

/// Success and every error condition in one flat enumeration, member order
/// mirroring the wire codes, with the out-of-range pseudo-error last.
#[derive(Copy, Clone, Debug, PartialEq, Eq, Structural)]
pub enum Error {
    NoError,
    InvalidArgument,
    InvalidCapability,
    IllegalOperation,
    RangeError,
    AlignmentError,
    FailedLookup,
    TruncatedMessage,
    DeleteFirst,
    RevokeFirst,
    NotEnoughMemory,
    ErrorCodeOutOfRange,
}

/// The same error members at the same wire codes, with the sentinel omitted:
/// a value of this type cannot denote success.
#[derive(Copy, Clone, Debug, PartialEq, Eq, Structural)]
pub enum JustError {
    InvalidArgument,
    InvalidCapability,
    IllegalOperation,
    RangeError,
    AlignmentError,
    FailedLookup,
    TruncatedMessage,
    DeleteFirst,
    RevokeFirst,
    NotEnoughMemory,
    ErrorCodeOutOfRange,
}

/// Returned by a narrowing whose argument has no narrow representation,
/// which is the case exactly for the success sentinel.
#[derive(Copy, Clone, Debug, PartialEq, Eq, Structural)]
pub struct OutOfDomain;

impl Error {
    /// The wire code of this member of the flat enumeration.
    pub open spec fn code(self) -> int {
        match self {
            Error::NoError => 0,
            Error::InvalidArgument => 1,
            Error::InvalidCapability => 2,
            Error::IllegalOperation => 3,
            Error::RangeError => 4,
            Error::AlignmentError => 5,
            Error::FailedLookup => 6,
            Error::TruncatedMessage => 7,
            Error::DeleteFirst => 8,
            Error::RevokeFirst => 9,
            Error::NotEnoughMemory => 10,
            Error::ErrorCodeOutOfRange => 11,
        }
    }

    /// The raw 32-bit code of this value, identity on the underlying model.
    pub fn to_raw(self) -> (r: i32)
        ensures
            r as int == self.code(),
    {
        match self {
            Error::NoError => 0,
            Error::InvalidArgument => 1,
            Error::InvalidCapability => 2,
            Error::IllegalOperation => 3,
            Error::RangeError => 4,
            Error::AlignmentError => 5,
            Error::FailedLookup => 6,
            Error::TruncatedMessage => 7,
            Error::DeleteFirst => 8,
            Error::RevokeFirst => 9,
            Error::NotEnoughMemory => 10,
            Error::ErrorCodeOutOfRange => 11,
        }
    }

    /// Whether this value is the success sentinel.
    pub fn is_success(self) -> (r: bool)
        ensures
            r <==> self == Error::NoError,
            r <==> self.code() == 0,
    {
        proof {
            lemma_wide_code_injective(self, Error::NoError);
        }
        match self {
            Error::NoError => true,
            _ => false,
        }
    }
}

impl JustError {
    /// The wire code of this member of the narrow enumeration: identical to
    /// the code the flat enumeration assigns to the member of the same name.
    pub open spec fn code(self) -> int {
        match self {
            JustError::InvalidArgument => 1,
            JustError::InvalidCapability => 2,
            JustError::IllegalOperation => 3,
            JustError::RangeError => 4,
            JustError::AlignmentError => 5,
            JustError::FailedLookup => 6,
            JustError::TruncatedMessage => 7,
            JustError::DeleteFirst => 8,
            JustError::RevokeFirst => 9,
            JustError::NotEnoughMemory => 10,
            JustError::ErrorCodeOutOfRange => 11,
        }
    }

    /// The raw 32-bit code of this value, identity on the underlying model.
    pub fn to_raw(self) -> (r: i32)
        ensures
            r as int == self.code(),
    {
        match self {
            JustError::InvalidArgument => 1,
            JustError::InvalidCapability => 2,
            JustError::IllegalOperation => 3,
            JustError::RangeError => 4,
            JustError::AlignmentError => 5,
            JustError::FailedLookup => 6,
            JustError::TruncatedMessage => 7,
            JustError::DeleteFirst => 8,
            JustError::RevokeFirst => 9,
            JustError::NotEnoughMemory => 10,
            JustError::ErrorCodeOutOfRange => 11,
        }
    }
}

/// The member of the flat enumeration a raw code denotes: the sentinel for
/// 0, the named error assigned the code inside the domain span, and the
/// out-of-range pseudo-error for everything else.
pub open spec fn spec_classify(c: int) -> Error {
    if c == 0 {
        Error::NoError
    } else if c == 1 {
        Error::InvalidArgument
    } else if c == 2 {
        Error::InvalidCapability
    } else if c == 3 {
        Error::IllegalOperation
    } else if c == 4 {
        Error::RangeError
    } else if c == 5 {
        Error::AlignmentError
    } else if c == 6 {
        Error::FailedLookup
    } else if c == 7 {
        Error::TruncatedMessage
    } else if c == 8 {
        Error::DeleteFirst
    } else if c == 9 {
        Error::RevokeFirst
    } else if c == 10 {
        Error::NotEnoughMemory
    } else {
        Error::ErrorCodeOutOfRange
    }
}

/// The member of the narrow enumeration carrying a given non-zero code;
/// codes outside the narrow span fall through to the out-of-range member.
pub open spec fn narrow_with_code(c: int) -> JustError {
    if c == 1 {
        JustError::InvalidArgument
    } else if c == 2 {
        JustError::InvalidCapability
    } else if c == 3 {
        JustError::IllegalOperation
    } else if c == 4 {
        JustError::RangeError
    } else if c == 5 {
        JustError::AlignmentError
    } else if c == 6 {
        JustError::FailedLookup
    } else if c == 7 {
        JustError::TruncatedMessage
    } else if c == 8 {
        JustError::DeleteFirst
    } else if c == 9 {
        JustError::RevokeFirst
    } else if c == 10 {
        JustError::NotEnoughMemory
    } else {
        JustError::ErrorCodeOutOfRange
    }
}

/// The narrowing of a non-sentinel flat value: the narrow member at the
/// same wire code.  On the sentinel, which has no narrow representation,
/// this falls through with the out-of-range member; the executable
/// narrowing rejects that argument instead of using this value.
pub open spec fn spec_to_narrow(wide: Error) -> JustError {
    narrow_with_code(wide.code())
}

/// The widening of a narrow value: the flat member at the same wire code.
pub open spec fn spec_to_wide(narrow: JustError) -> Error {
    spec_classify(narrow.code())
}

/// Interpret a raw 32-bit code arriving from the system-call boundary.
pub fn classify(code: i32) -> (r: Error)
    ensures
        r == spec_classify(code as int),
        code == 0 ==> r == Error::NoError,
        FLOOR as int <= code as int <= FLOOR as int + COUNT as int - 2 ==> r.code() == code as int,
        code != 0 && !(FLOOR as int <= code as int <= FLOOR as int + COUNT as int - 2) ==> r
            == Error::ErrorCodeOutOfRange,
{
    match code {
        0 => Error::NoError,
        1 => Error::InvalidArgument,
        2 => Error::InvalidCapability,
        3 => Error::IllegalOperation,
        4 => Error::RangeError,
        5 => Error::AlignmentError,
        6 => Error::FailedLookup,
        7 => Error::TruncatedMessage,
        8 => Error::DeleteFirst,
        9 => Error::RevokeFirst,
        10 => Error::NotEnoughMemory,
        _ => Error::ErrorCodeOutOfRange,
    }
}

/// Narrow a flat value, rejecting the one argument that has no narrow
/// representation: the success sentinel.
pub fn to_narrow(wide: Error) -> (r: Result<JustError, OutOfDomain>)
    ensures
        wide == Error::NoError <==> r == Result::<JustError, OutOfDomain>::Err(OutOfDomain),
        wide != Error::NoError ==> r == Result::<JustError, OutOfDomain>::Ok(
            spec_to_narrow(wide),
        ),
{
    match wide {
        Error::NoError => Err(OutOfDomain),
        Error::InvalidArgument => Ok(JustError::InvalidArgument),
        Error::InvalidCapability => Ok(JustError::InvalidCapability),
        Error::IllegalOperation => Ok(JustError::IllegalOperation),
        Error::RangeError => Ok(JustError::RangeError),
        Error::AlignmentError => Ok(JustError::AlignmentError),
        Error::FailedLookup => Ok(JustError::FailedLookup),
        Error::TruncatedMessage => Ok(JustError::TruncatedMessage),
        Error::DeleteFirst => Ok(JustError::DeleteFirst),
        Error::RevokeFirst => Ok(JustError::RevokeFirst),
        Error::NotEnoughMemory => Ok(JustError::NotEnoughMemory),
        Error::ErrorCodeOutOfRange => Ok(JustError::ErrorCodeOutOfRange),
    }
}

/// Widen a narrow value: total, infallible, and identity on the wire code.
pub fn to_wide(narrow: JustError) -> (r: Error)
    ensures
        r == spec_to_wide(narrow),
        r.code() == narrow.code(),
        r != Error::NoError,
{
    match narrow {
        JustError::InvalidArgument => Error::InvalidArgument,
        JustError::InvalidCapability => Error::InvalidCapability,
        JustError::IllegalOperation => Error::IllegalOperation,
        JustError::RangeError => Error::RangeError,
        JustError::AlignmentError => Error::AlignmentError,
        JustError::FailedLookup => Error::FailedLookup,
        JustError::TruncatedMessage => Error::TruncatedMessage,
        JustError::DeleteFirst => Error::DeleteFirst,
        JustError::RevokeFirst => Error::RevokeFirst,
        JustError::NotEnoughMemory => Error::NotEnoughMemory,
        JustError::ErrorCodeOutOfRange => Error::ErrorCodeOutOfRange,
    }
}

/// Re-widen a narrow residual when the enclosing operation must return the
/// flat type: identity on the underlying code.
pub fn from_narrow_residual(narrow: JustError) -> (r: Error)
    ensures
        r == spec_to_wide(narrow),
        r.code() == narrow.code(),
        r != Error::NoError,
{
    to_wide(narrow)
}

impl Error {
    /// The short-circuit step: the sentinel continues with a unit payload,
    /// anything else breaks out with the narrow residual at the same wire
    /// code.  The reinterpretation as the narrow type is justified by the
    /// branch just taken: the value is known non-zero here.
    pub fn branch(self) -> (r: Result<(), JustError>)
        ensures
            self == Error::NoError ==> r == Result::<(), JustError>::Ok(()),
            self != Error::NoError ==> r == Result::<(), JustError>::Err(spec_to_narrow(self)),
            r matches Err(j) ==> j.code() == self.code(),
    {
        match to_narrow(self) {
            Err(OutOfDomain) => Ok(()),
            Ok(narrow) => {
                proof {
                    lemma_narrow_preserves_code(self);
                }
                Err(narrow)
            },
        }
    }

    /// Wrap the unit payload of a completed chain back into the flat type.
    pub fn from_output(output: ()) -> (r: Error)
        ensures
            r == Error::NoError,
    {
        Error::NoError
    }

    /// Resume from a broken chain: the narrow residual is re-widened,
    /// surfacing the same error at the same wire code.
    pub fn from_residual(residual: JustError) -> (r: Error)
        ensures
            r == spec_to_wide(residual),
            r.code() == residual.code(),
            r != Error::NoError,
    {
        from_narrow_residual(residual)
    }

    /// Fold a unit-or-error outcome into the flat type.
    pub fn from_result(result: Result<(), Error>) -> (r: Error)
        ensures
            result is Ok ==> r == Error::NoError,
            result matches Err(e) ==> r == e,
    {
        match result {
            Ok(()) => Error::NoError,
            Err(error) => error,
        }
    }

    /// Unfold the flat type into a unit-or-error outcome over the flat type
    /// itself.
    pub fn into_result(self) -> (r: Result<(), Error>)
        ensures
            self == Error::NoError ==> r == Result::<(), Error>::Ok(()),
            self != Error::NoError ==> r == Result::<(), Error>::Err(self),
    {
        if self.is_success() {
            Ok(())
        } else {
            Err(self)
        }
    }
}

/// Equality of flat values is equality of their underlying wire codes.
pub fn equals(a: Error, b: Error) -> (r: bool)
    ensures
        r <==> a == b,
        r <==> a.code() == b.code(),
{
    proof {
        lemma_wide_code_injective(a, b);
    }
    a.to_raw() == b.to_raw()
}

/// Distinct members of the flat enumeration never share a wire code.
pub proof fn lemma_wide_code_injective(a: Error, b: Error)
    ensures
        a.code() == b.code() <==> a == b,
{
}

/// Distinct members of the narrow enumeration never share a wire code.
pub proof fn lemma_narrow_code_injective(a: JustError, b: JustError)
    ensures
        a.code() == b.code() <==> a == b,
{
}

/// The narrow type excludes the sentinel by construction: no member of it
/// carries the success code.
pub proof fn lemma_narrow_excludes_sentinel(j: JustError)
    ensures
        j.code() != 0,
        FLOOR as int <= j.code() <= FLOOR as int + COUNT as int - 1,
{
}

/// Narrowing preserves the wire code bit-for-bit on every non-sentinel
/// argument.
pub proof fn lemma_narrow_preserves_code(wide: Error)
    requires
        wide != Error::NoError,
    ensures
        spec_to_narrow(wide).code() == wide.code(),
{
}

/// Round trip through the refinement seam: widening the narrowing of any
/// non-sentinel flat value restores it exactly.
pub proof fn lemma_to_wide_to_narrow(wide: Error)
    requires
        wide != Error::NoError,
    ensures
        spec_to_wide(spec_to_narrow(wide)) == wide,
{
}

/// Round trip the other way: narrowing the widening of any narrow value
/// restores it exactly.
pub proof fn lemma_to_narrow_to_wide(narrow: JustError)
    ensures
        spec_to_narrow(spec_to_wide(narrow)) == narrow,
{
}

/// Re-widening a narrow value agrees with classifying its wire code, so a
/// residual surfaced through the seam equals the value the boundary itself
/// would have produced for the same raw integer.
pub proof fn lemma_from_narrow_residual_classifies(narrow: JustError)
    ensures
        spec_to_wide(narrow) == spec_classify(narrow.code()),
{
}

/// The set of wire codes taken by the members of the flat enumeration.
pub open spec fn wide_code_set() -> Set<int> {
    Set::new(|c: int| exists|e: Error| (#[trigger] e.code()) == c)
}

/// The set of wire codes taken by the members of the narrow enumeration.
pub open spec fn narrow_code_set() -> Set<int> {
    Set::new(|c: int| exists|j: JustError| (#[trigger] j.code()) == c)
}

/// The count invariant of the refinement pair: the narrow enumeration has
/// exactly one member fewer than the flat one, the missing member being the
/// sentinel.  Because each enumeration's code assignment is injective, the
/// member counts equal the code-set cardinalities, so editing one
/// enumeration without the other in lockstep breaks this proof.
pub proof fn lemma_count_invariant()
    ensures
        wide_code_set().finite(),
        narrow_code_set().finite(),
        narrow_code_set().len() + 1 == wide_code_set().len(),
        narrow_code_set() == wide_code_set().remove(0),
        narrow_code_set().len() == COUNT as int,
{
    assert forall|c: int| 0 <= c < 12 implies wide_code_set().contains(c) by {
        assert(spec_classify(c).code() == c);
    }
    assert forall|c: int| 1 <= c < 12 implies narrow_code_set().contains(c) by {
        assert(narrow_with_code(c).code() == c);
    }
    assert(wide_code_set() =~= set_int_range(0, 12));
    assert(narrow_code_set() =~= set_int_range(1, 12));
    lemma_int_range(0, 12);
    lemma_int_range(1, 12);
    assert(narrow_code_set() =~= wide_code_set().remove(0));
}

/// One propagation step applied to `start`, finishing successfully in the
/// flat type when the step continues: the explicit spelling of an
/// early-return-on-error chain of length one whose residual is re-widened.
fn propagate(start: Error) -> (r: Error)
    ensures
        start == Error::NoError ==> r == Error::NoError,
        start != Error::NoError ==> r.code() == start.code() && r == start,
{
    proof {
        if start != Error::NoError {
            lemma_to_wide_to_narrow(start);
        }
    }
    match start.branch() {
        Ok(()) => Error::NoError,
        Err(residual) => Error::from_residual(residual),
    }
}

/// One propagation step applied to `start`, surfacing the narrow residual
/// itself: the explicit spelling of a chain inside an operation that
/// returns the strictly-an-error type on failure.
fn propagate_narrow(start: Error) -> (r: Result<(), JustError>)
    ensures
        start == Error::NoError ==> r == Result::<(), JustError>::Ok(()),
        start != Error::NoError ==> r == Result::<(), JustError>::Err(spec_to_narrow(start)),
{
    match start.branch() {
        Ok(()) => Ok(()),
        Err(residual) => Err(residual),
    }
}

/// A chain whose single step succeeds runs to its end.
pub fn _test_ok_1_() -> (r: Error)
    ensures
        r == Error::NoError,
{
    propagate(Error::NoError)
}

pub fn _test_invalid_argument_() -> (r: Result<(), JustError>)
    ensures
        r == Result::<(), JustError>::Err(JustError::InvalidArgument),
{
    propagate_narrow(Error::InvalidArgument)
}

pub fn _test_invalid_capability_() -> (r: Result<(), JustError>)
    ensures
        r == Result::<(), JustError>::Err(JustError::InvalidCapability),
{
    propagate_narrow(Error::InvalidCapability)
}

pub fn _test_illegal_operation_() -> (r: Result<(), JustError>)
    ensures
        r == Result::<(), JustError>::Err(JustError::IllegalOperation),
{
    propagate_narrow(Error::IllegalOperation)
}

pub fn _test_range_error_() -> (r: Result<(), JustError>)
    ensures
        r == Result::<(), JustError>::Err(JustError::RangeError),
{
    propagate_narrow(Error::RangeError)
}

pub fn _test_alignment_error_() -> (r: Result<(), JustError>)
    ensures
        r == Result::<(), JustError>::Err(JustError::AlignmentError),
{
    propagate_narrow(Error::AlignmentError)
}

pub fn _test_failed_lookup_() -> (r: Result<(), JustError>)
    ensures
        r == Result::<(), JustError>::Err(JustError::FailedLookup),
{
    propagate_narrow(Error::FailedLookup)
}

pub fn _test_truncated_message_() -> (r: Result<(), JustError>)
    ensures
        r == Result::<(), JustError>::Err(JustError::TruncatedMessage),
{
    propagate_narrow(Error::TruncatedMessage)
}

pub fn _test_delete_first_() -> (r: Result<(), JustError>)
    ensures
        r == Result::<(), JustError>::Err(JustError::DeleteFirst),
{
    propagate_narrow(Error::DeleteFirst)
}

pub fn _test_revoke_first_() -> (r: Result<(), JustError>)
    ensures
        r == Result::<(), JustError>::Err(JustError::RevokeFirst),
{
    propagate_narrow(Error::RevokeFirst)
}

pub fn _test_not_enough_memory_() -> (r: Result<(), JustError>)
    ensures
        r == Result::<(), JustError>::Err(JustError::NotEnoughMemory),
{
    propagate_narrow(Error::NotEnoughMemory)
}

} // verus!
