//! Tagged encoding: the success view and the error view as disjoint payloads.
//!
//! The historical form of this encoding overlaid a unit success marker, an
//! error member and the raw integer in one storage cell, and a reader had to
//! test the raw integer before trusting either typed view — getting that
//! discipline wrong was undefined behavior.  Here the active view is carried
//! by an explicit tag instead: a [`RawResult`] is either the success payload
//! or an error payload, every value is valid to read, and the raw-integer
//! view is recovered by [`RawResult::to_raw`].  A raw code is committed to a
//! view once, at classification, where anything outside the assigned span
//! falls to the out-of-range pseudo-error.

use vstd::prelude::*;

verus! {

/// Lowest wire code assigned to a named error.
pub const FLOOR: i32 = 1;

/// One past the wire code of the last named error; equivalently the number
/// of members of the domain that the kernel itself can report (the sentinel
/// plus the named errors).
pub const COUNT: usize = 11;

/// The unit success marker, carrying wire code 0.
#[derive(Copy, Clone, Debug, PartialEq, Eq, Structural)]
pub enum NonError {
    Success,
}

/// The error domain alone: the named errors in wire-code order followed by
/// the out-of-range pseudo-error.  No member carries the success code.
#[derive(Copy, Clone, Debug, PartialEq, Eq, Structural)]
pub enum Error {
    InvalidArgument,
    InvalidCapability,
    IllegalOperation,
    RangeError,
    AlignmentError,
    FailedLookup,
    TruncatedMessage,
    DeleteFirst,
    RevokeFirst,
    NotEnoughMemory,
    ErrorCodeOutOfRange,
}

/// A system-call result with the active view made explicit: exactly one of
/// the success payload or an error payload, never both and never neither.
#[derive(Copy, Clone, Debug, PartialEq, Eq, Structural)]
pub enum RawResult {
    NonError(NonError),
    Error(Error),
}

impl NonError {
    /// The wire code of the success marker.
    pub open spec fn code(self) -> int {
        0
    }
}

impl Error {
    /// The wire code of this error member.
    pub open spec fn code(self) -> int {
        match self {
            Error::InvalidArgument => 1,
            Error::InvalidCapability => 2,
            Error::IllegalOperation => 3,
            Error::RangeError => 4,
            Error::AlignmentError => 5,
            Error::FailedLookup => 6,
            Error::TruncatedMessage => 7,
            Error::DeleteFirst => 8,
            Error::RevokeFirst => 9,
            Error::NotEnoughMemory => 10,
            Error::ErrorCodeOutOfRange => 11,
        }
    }

    /// The raw 32-bit code of this error, identity on the underlying model.
    pub fn to_raw(self) -> (r: i32)
        ensures
            r as int == self.code(),
    {
        match self {
            Error::InvalidArgument => 1,
            Error::InvalidCapability => 2,
            Error::IllegalOperation => 3,
            Error::RangeError => 4,
            Error::AlignmentError => 5,
            Error::FailedLookup => 6,
            Error::TruncatedMessage => 7,
            Error::DeleteFirst => 8,
            Error::RevokeFirst => 9,
            Error::NotEnoughMemory => 10,
            Error::ErrorCodeOutOfRange => 11,
        }
    }
}

impl RawResult {
    /// The wire code of this value: 0 under the success view, the error's
    /// own code under the error view.
    pub open spec fn code(self) -> int {
        match self {
            RawResult::NonError(ok) => ok.code(),
            RawResult::Error(e) => e.code(),
        }
    }

    /// The raw-integer view, always valid to read: identity on the
    /// underlying model.
    pub fn to_raw(self) -> (r: i32)
        ensures
            r as int == self.code(),
    {
        match self {
            RawResult::NonError(_) => 0,
            RawResult::Error(e) => e.to_raw(),
        }
    }

    /// Whether this value holds the success view.
    pub fn is_success(self) -> (r: bool)
        ensures
            r <==> self == RawResult::NonError(NonError::Success),
            r <==> self.code() == 0,
    {
        proof {
            lemma_code_injective(self, RawResult::NonError(NonError::Success));
        }
        match self {
            RawResult::NonError(_) => true,
            RawResult::Error(_) => false,
        }
    }

    /// The short-circuit step: the success view continues with its payload,
    /// the error view breaks out with its payload, untouched.
    pub fn branch(self) -> (r: Result<NonError, Error>)
        ensures
            self matches RawResult::NonError(ok) ==> r == Result::<NonError, Error>::Ok(ok),
            self matches RawResult::Error(e) ==> r == Result::<NonError, Error>::Err(e),
    {
        match self {
            RawResult::NonError(ok) => Ok(ok),
            RawResult::Error(e) => Err(e),
        }
    }

    /// Wrap the payload of a completed chain back into a result.
    pub fn from_output(ok: NonError) -> (r: RawResult)
        ensures
            r == RawResult::NonError(ok),
    {
        RawResult::NonError(ok)
    }

    /// Resume from a broken chain: the residual error surfaces unchanged.
    pub fn from_residual(e: Error) -> (r: RawResult)
        ensures
            r == RawResult::Error(e),
    {
        RawResult::Error(e)
    }

    /// Fold a success-or-error outcome into a result.
    pub fn from_result(result: Result<NonError, Error>) -> (r: RawResult)
        ensures
            result matches Ok(ok) ==> r == RawResult::NonError(ok),
            result matches Err(e) ==> r == RawResult::Error(e),
    {
        match result {
            Ok(ok) => RawResult::NonError(ok),
            Err(e) => RawResult::Error(e),
        }
    }

    /// Unfold a result into a success-or-error outcome.
    pub fn into_result(self) -> (r: Result<NonError, Error>)
        ensures
            self matches RawResult::NonError(ok) ==> r == Result::<NonError, Error>::Ok(ok),
            self matches RawResult::Error(e) ==> r == Result::<NonError, Error>::Err(e),
    {
        self.branch()
    }
}

/// The result a raw code denotes: the success view for 0, the named error
/// assigned the code inside the domain span, and the out-of-range
/// pseudo-error for everything else.
pub open spec fn spec_classify(c: int) -> RawResult {
    if c == 0 {
        RawResult::NonError(NonError::Success)
    } else if c == 1 {
        RawResult::Error(Error::InvalidArgument)
    } else if c == 2 {
        RawResult::Error(Error::InvalidCapability)
    } else if c == 3 {
        RawResult::Error(Error::IllegalOperation)
    } else if c == 4 {
        RawResult::Error(Error::RangeError)
    } else if c == 5 {
        RawResult::Error(Error::AlignmentError)
    } else if c == 6 {
        RawResult::Error(Error::FailedLookup)
    } else if c == 7 {
        RawResult::Error(Error::TruncatedMessage)
    } else if c == 8 {
        RawResult::Error(Error::DeleteFirst)
    } else if c == 9 {
        RawResult::Error(Error::RevokeFirst)
    } else if c == 10 {
        RawResult::Error(Error::NotEnoughMemory)
    } else {
        RawResult::Error(Error::ErrorCodeOutOfRange)
    }
}

/// Interpret a raw 32-bit code arriving from the system-call boundary,
/// committing it to its one valid view.
pub fn classify(code: i32) -> (r: RawResult)
    ensures
        r == spec_classify(code as int),
        code == 0 ==> r == RawResult::NonError(NonError::Success),
        FLOOR as int <= code as int <= FLOOR as int + COUNT as int - 2 ==> r.code() == code as int
            && r is Error,
        code != 0 && !(FLOOR as int <= code as int <= FLOOR as int + COUNT as int - 2) ==> r
            == RawResult::Error(Error::ErrorCodeOutOfRange),
{
    match code {
        0 => RawResult::NonError(NonError::Success),
        1 => RawResult::Error(Error::InvalidArgument),
        2 => RawResult::Error(Error::InvalidCapability),
        3 => RawResult::Error(Error::IllegalOperation),
        4 => RawResult::Error(Error::RangeError),
        5 => RawResult::Error(Error::AlignmentError),
        6 => RawResult::Error(Error::FailedLookup),
        7 => RawResult::Error(Error::TruncatedMessage),
        8 => RawResult::Error(Error::DeleteFirst),
        9 => RawResult::Error(Error::RevokeFirst),
        10 => RawResult::Error(Error::NotEnoughMemory),
        _ => RawResult::Error(Error::ErrorCodeOutOfRange),
    }
}

/// Equality of results is equality of their underlying wire codes, exactly
/// as the overlaid form compared its raw-integer views.
pub fn equals(a: RawResult, b: RawResult) -> (r: bool)
    ensures
        r <==> a == b,
        r <==> a.code() == b.code(),
{
    proof {
        lemma_code_injective(a, b);
    }
    a.to_raw() == b.to_raw()
}

/// Classification is a left inverse of the code assignment: every result,
/// the success view and the out-of-range pseudo-error included, is
/// recovered from its own wire code.  In particular the tag is redundant
/// with the code, which is what lets this encoding spend no storage beyond
/// the integer.
pub proof fn lemma_classify_code(v: RawResult)
    ensures
        spec_classify(v.code()) == v,
{
}

/// Distinct results never share a wire code, so comparing codes is the same
/// as comparing values.
pub proof fn lemma_code_injective(a: RawResult, b: RawResult)
    ensures
        a.code() == b.code() <==> a == b,
{
}

/// Round trip over the valid domain span: classifying a code inside the
/// span, the sentinel included, yields the result carrying exactly that
/// code.
pub proof fn lemma_classify_round_trip(c: int)
    requires
        0 <= c <= FLOOR as int + COUNT as int - 2,
    ensures
        spec_classify(c).code() == c,
{
}

/// Every non-zero code outside the domain span classifies to the
/// out-of-range pseudo-error.
pub proof fn lemma_classify_out_of_range(c: int)
    requires
        c != 0,
        !(FLOOR as int <= c <= FLOOR as int + COUNT as int - 2),
    ensures
        spec_classify(c) == RawResult::Error(Error::ErrorCodeOutOfRange),
{
}

/// The derived count is one past the last explicitly named error, so
/// nothing was appended to the domain after the last-member marker.
pub proof fn lemma_count_is_one_past_last_named()
    ensures
        COUNT as int == Error::NotEnoughMemory.code() + 1,
{
}

/// One propagation step applied to `start`, then a successful finish: the
/// explicit spelling of an early-return-on-error chain of length one.
fn propagate(start: RawResult) -> (r: RawResult)
    ensures
        r == start,
{
    match start.branch() {
        Ok(ok) => RawResult::from_output(ok),
        Err(e) => RawResult::from_residual(e),
    }
}

/// A chain whose single step succeeds runs to its end.
pub fn _test_ok_1_() -> (r: RawResult)
    ensures
        r == RawResult::NonError(NonError::Success),
{
    propagate(RawResult::NonError(NonError::Success))
}

pub fn _test_invalid_argument_() -> (r: RawResult)
    ensures
        r == RawResult::Error(Error::InvalidArgument),
{
    propagate(RawResult::Error(Error::InvalidArgument))
}

pub fn _test_invalid_capability_() -> (r: RawResult)
    ensures
        r == RawResult::Error(Error::InvalidCapability),
{
    propagate(RawResult::Error(Error::InvalidCapability))
}

pub fn _test_illegal_operation_() -> (r: RawResult)
    ensures
        r == RawResult::Error(Error::IllegalOperation),
{
    propagate(RawResult::Error(Error::IllegalOperation))
}

pub fn _test_range_error_() -> (r: RawResult)
    ensures
        r == RawResult::Error(Error::RangeError),
{
    propagate(RawResult::Error(Error::RangeError))
}

pub fn _test_alignment_error_() -> (r: RawResult)
    ensures
        r == RawResult::Error(Error::AlignmentError),
{
    propagate(RawResult::Error(Error::AlignmentError))
}

pub fn _test_failed_lookup_() -> (r: RawResult)
    ensures
        r == RawResult::Error(Error::FailedLookup),
{
    propagate(RawResult::Error(Error::FailedLookup))
}

pub fn _test_truncated_message_() -> (r: RawResult)
    ensures
        r == RawResult::Error(Error::TruncatedMessage),
{
    propagate(RawResult::Error(Error::TruncatedMessage))
}

pub fn _test_delete_first_() -> (r: RawResult)
    ensures
        r == RawResult::Error(Error::DeleteFirst),
{
    propagate(RawResult::Error(Error::DeleteFirst))
}

pub fn _test_revoke_first_() -> (r: RawResult)
    ensures
        r == RawResult::Error(Error::RevokeFirst),
{
    propagate(RawResult::Error(Error::RevokeFirst))
}

pub fn _test_not_enough_memory_() -> (r: RawResult)
    ensures
        r == RawResult::Error(Error::NotEnoughMemory),
{
    propagate(RawResult::Error(Error::NotEnoughMemory))
}

pub fn _test_error_code_out_of_range_() -> (r: RawResult)
    ensures
        r == RawResult::Error(Error::ErrorCodeOutOfRange),
{
    propagate(RawResult::Error(Error::ErrorCodeOutOfRange))
}

/// A raw code one past even the out-of-range pseudo-error's own code still
/// classifies to that pseudo-error before propagating.
pub fn _test_error_code_out_of_range_really_() -> (r: RawResult)
    ensures
        r == RawResult::Error(Error::ErrorCodeOutOfRange),
{
    let code = Error::ErrorCodeOutOfRange.to_raw() + 1;
    propagate(classify(code))
}

} // verus!
