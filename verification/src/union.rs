//! Flat encoding: success and the error domain share one enumeration.
//!
//! The sentinel `NoError` is the first member, the named errors follow in
//! wire-code order, and a final pseudo-error `ErrorCodeOutOfRange` stands for
//! any raw code outside the assigned span.  The integer model of a value is
//! [`Error::code`]; classification and propagation are specified against it.

use vstd::prelude::*;

verus! {

/// Lowest wire code assigned to a named error.
pub const FLOOR: i32 = 1;

/// One past the wire code of the last named error; equivalently the number
/// of members of the domain that the kernel itself can report (the sentinel
/// plus the named errors).
pub const COUNT: usize = 11;

/// Success and every error condition in one flat enumeration.
///
/// Member order mirrors the wire codes: the sentinel sits at code 0 and the
/// named errors occupy `FLOOR ..= FLOOR + COUNT - 2`.  `ErrorCodeOutOfRange`
/// is not part of the kernel vocabulary; classification produces it for any
/// non-zero code outside the assigned span rather than aliasing such a code
/// to an arbitrary member.
#[derive(Copy, Clone, Debug, PartialEq, Eq, Structural)]
pub enum Error {
    NoError,
    InvalidArgument,
    InvalidCapability,
    IllegalOperation,
    RangeError,
    AlignmentError,
    FailedLookup,
    TruncatedMessage,
    DeleteFirst,
    RevokeFirst,
    NotEnoughMemory,
    ErrorCodeOutOfRange,
}

impl Error {
    /// The wire code of this member: the integer model every contract in
    /// this module is stated over.
    pub open spec fn code(self) -> int {
        match self {
            Error::NoError => 0,
            Error::InvalidArgument => 1,
            Error::InvalidCapability => 2,
            Error::IllegalOperation => 3,
            Error::RangeError => 4,
            Error::AlignmentError => 5,
            Error::FailedLookup => 6,
            Error::TruncatedMessage => 7,
            Error::DeleteFirst => 8,
            Error::RevokeFirst => 9,
            Error::NotEnoughMemory => 10,
            Error::ErrorCodeOutOfRange => 11,
        }
    }

    /// The raw 32-bit code of this value, identity on the underlying model.
    pub fn to_raw(self) -> (r: i32)
        ensures
            r as int == self.code(),
    {
        match self {
            Error::NoError => 0,
            Error::InvalidArgument => 1,
            Error::InvalidCapability => 2,
            Error::IllegalOperation => 3,
            Error::RangeError => 4,
            Error::AlignmentError => 5,
            Error::FailedLookup => 6,
            Error::TruncatedMessage => 7,
            Error::DeleteFirst => 8,
            Error::RevokeFirst => 9,
            Error::NotEnoughMemory => 10,
            Error::ErrorCodeOutOfRange => 11,
        }
    }

    /// Whether this value is the success sentinel.
    pub fn is_success(self) -> (r: bool)
        ensures
            r <==> self == Error::NoError,
            r <==> self.code() == 0,
    {
        proof {
            lemma_code_injective(self, Error::NoError);
        }
        match self {
            Error::NoError => true,
            _ => false,
        }
    }
}

/// The member a raw code denotes: the sentinel for 0, the named error
/// assigned the code inside the domain span, and the out-of-range
/// pseudo-error for everything else.
pub open spec fn spec_classify(c: int) -> Error {
    if c == 0 {
        Error::NoError
    } else if c == 1 {
        Error::InvalidArgument
    } else if c == 2 {
        Error::InvalidCapability
    } else if c == 3 {
        Error::IllegalOperation
    } else if c == 4 {
        Error::RangeError
    } else if c == 5 {
        Error::AlignmentError
    } else if c == 6 {
        Error::FailedLookup
    } else if c == 7 {
        Error::TruncatedMessage
    } else if c == 8 {
        Error::DeleteFirst
    } else if c == 9 {
        Error::RevokeFirst
    } else if c == 10 {
        Error::NotEnoughMemory
    } else {
        Error::ErrorCodeOutOfRange
    }
}

/// Interpret a raw 32-bit code arriving from the system-call boundary.
pub fn classify(code: i32) -> (r: Error)
    ensures
        r == spec_classify(code as int),
        code == 0 ==> r == Error::NoError,
        FLOOR as int <= code as int <= FLOOR as int + COUNT as int - 2 ==> r.code() == code as int,
        code != 0 && !(FLOOR as int <= code as int <= FLOOR as int + COUNT as int - 2) ==> r
            == Error::ErrorCodeOutOfRange,
{
    match code {
        0 => Error::NoError,
        1 => Error::InvalidArgument,
        2 => Error::InvalidCapability,
        3 => Error::IllegalOperation,
        4 => Error::RangeError,
        5 => Error::AlignmentError,
        6 => Error::FailedLookup,
        7 => Error::TruncatedMessage,
        8 => Error::DeleteFirst,
        9 => Error::RevokeFirst,
        10 => Error::NotEnoughMemory,
        _ => Error::ErrorCodeOutOfRange,
    }
}

impl Error {
    /// The short-circuit step: the sentinel continues with a unit payload,
    /// anything else breaks out with the value itself, untouched.
    pub fn branch(self) -> (r: Result<(), Error>)
        ensures
            self == Error::NoError ==> r == Result::<(), Error>::Ok(()),
            self != Error::NoError ==> r == Result::<(), Error>::Err(self),
    {
        if self.is_success() {
            Ok(())
        } else {
            Err(self)
        }
    }

    /// Wrap the unit payload of a completed chain back into the flat type.
    pub fn from_output(output: ()) -> (r: Error)
        ensures
            r == Error::NoError,
    {
        Error::NoError
    }

    /// Resume from a broken chain: the residual error surfaces unchanged.
    pub fn from_residual(residual: Error) -> (r: Error)
        ensures
            r == residual,
    {
        residual
    }

    /// Fold a unit-or-error outcome into the flat type.
    pub fn from_result(result: Result<(), Error>) -> (r: Error)
        ensures
            result is Ok ==> r == Error::NoError,
            result matches Err(e) ==> r == e,
    {
        match result {
            Ok(()) => Error::NoError,
            Err(error) => error,
        }
    }

    /// Unfold the flat type into a unit-or-error outcome.
    pub fn into_result(self) -> (r: Result<(), Error>)
        ensures
            self == Error::NoError ==> r == Result::<(), Error>::Ok(()),
            self != Error::NoError ==> r == Result::<(), Error>::Err(self),
    {
        self.branch()
    }
}

/// Equality of result values is equality of their underlying wire codes.
pub fn equals(a: Error, b: Error) -> (r: bool)
    ensures
        r <==> a == b,
        r <==> a.code() == b.code(),
{
    proof {
        lemma_code_injective(a, b);
    }
    a.to_raw() == b.to_raw()
}

/// Classification is a left inverse of the code assignment: every member,
/// the sentinel and the out-of-range pseudo-error included, is recovered
/// from its own wire code.
pub proof fn lemma_classify_code(e: Error)
    ensures
        spec_classify(e.code()) == e,
{
}

/// Distinct members never share a wire code, so comparing codes is the same
/// as comparing values.
pub proof fn lemma_code_injective(a: Error, b: Error)
    ensures
        a.code() == b.code() <==> a == b,
{
}

/// Round trip over the valid domain span: classifying a code inside the
/// span, the sentinel included, yields the member carrying exactly that
/// code.
pub proof fn lemma_classify_round_trip(c: int)
    requires
        0 <= c <= FLOOR as int + COUNT as int - 2,
    ensures
        spec_classify(c).code() == c,
{
}

/// Every non-zero code outside the domain span, one past the last named
/// error, anything larger, and every negative code alike, classifies to the
/// out-of-range pseudo-error.
pub proof fn lemma_classify_out_of_range(c: int)
    requires
        c != 0,
        !(FLOOR as int <= c <= FLOOR as int + COUNT as int - 2),
    ensures
        spec_classify(c) == Error::ErrorCodeOutOfRange,
{
}

/// The derived count is one past the last explicitly named error, so nothing
/// was appended to the domain after the last-member marker.
pub proof fn lemma_count_is_one_past_last_named()
    ensures
        COUNT as int == Error::NotEnoughMemory.code() + 1,
{
}

/// One propagation step applied to `start`, then a successful finish: the
/// explicit spelling of an early-return-on-error chain of length one.
fn propagate(start: Error) -> (r: Error)
    ensures
        start == Error::NoError ==> r == Error::NoError,
        start != Error::NoError ==> r == start,
{
    match start.branch() {
        Ok(()) => Error::NoError,
        Err(residual) => Error::from_residual(residual),
    }
}

/// A chain whose single step succeeds runs to its end.
pub fn _test_ok_1_() -> (r: Error)
    ensures
        r == Error::NoError,
{
    propagate(Error::NoError)
}

pub fn _test_invalid_argument_() -> (r: Error)
    ensures
        r == Error::InvalidArgument,
{
    propagate(Error::InvalidArgument)
}

pub fn _test_invalid_capability_() -> (r: Error)
    ensures
        r == Error::InvalidCapability,
{
    propagate(Error::InvalidCapability)
}

pub fn _test_illegal_operation_() -> (r: Error)
    ensures
        r == Error::IllegalOperation,
{
    propagate(Error::IllegalOperation)
}

pub fn _test_range_error_() -> (r: Error)
    ensures
        r == Error::RangeError,
{
    propagate(Error::RangeError)
}

pub fn _test_alignment_error_() -> (r: Error)
    ensures
        r == Error::AlignmentError,
{
    propagate(Error::AlignmentError)
}

pub fn _test_failed_lookup_() -> (r: Error)
    ensures
        r == Error::FailedLookup,
{
    propagate(Error::FailedLookup)
}

pub fn _test_truncated_message_() -> (r: Error)
    ensures
        r == Error::TruncatedMessage,
{
    propagate(Error::TruncatedMessage)
}

pub fn _test_delete_first_() -> (r: Error)
    ensures
        r == Error::DeleteFirst,
{
    propagate(Error::DeleteFirst)
}

pub fn _test_revoke_first_() -> (r: Error)
    ensures
        r == Error::RevokeFirst,
{
    propagate(Error::RevokeFirst)
}

pub fn _test_not_enough_memory_() -> (r: Error)
    ensures
        r == Error::NotEnoughMemory,
{
    propagate(Error::NotEnoughMemory)
}

} // verus!
