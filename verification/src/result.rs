//! Native status codes and the structured errors they stand for.
//!
//! A native call reports its outcome as a 32-bit signed status: zero is
//! success, a negative value names a failure. [`Error`] is the closed set of
//! failures this layer knows by name, plus a catch-all that keeps any other
//! status as it came.

use vstd::prelude::*;

verus! {

/// A native status code.
#[allow(non_camel_case_types)]
pub type HRESULT = i32;

/// What a fallible operation of this layer returns.
pub type Result<T> = core::result::Result<T, Error>;

/// Success.
pub const S_OK: HRESULT = 0;

/// Operation aborted (`0x80004004`).
pub const E_ABORT: HRESULT = -2147467260;

/// General access denied (`0x80070005`).
pub const E_ACCESSDENIED: HRESULT = -2147024891;

/// Unspecified failure (`0x80004005`).
pub const E_FAIL: HRESULT = -2147467259;

/// Handle that is not valid (`0x80070006`).
pub const E_HANDLE: HRESULT = -2147024890;

/// One or more arguments are not valid (`0x80070057`).
pub const E_INVALIDARG: HRESULT = -2147024809;

/// No such interface supported (`0x80004002`).
pub const E_NOINTERFACE: HRESULT = -2147467262;

/// Not implemented (`0x80004001`).
pub const E_NOTIMPL: HRESULT = -2147467263;

/// Failed to allocate necessary memory (`0x8007000E`).
pub const E_OUTOFMEMORY: HRESULT = -2147024882;

/// Pointer that is not valid (`0x80004003`).
pub const E_POINTER: HRESULT = -2147467261;

/// Unexpected failure (`0x8000FFFF`).
pub const E_UNEXPECTED: HRESULT = -2147418113;

/// A failure reported by the native runtime.
#[derive(Clone, Copy, Debug, PartialEq, Eq, Structural)]
pub enum Error {
    OperationAborted,
    AccessDenied,
    UnspecifiedFailure,
    InvalidHandle,
    InvalidArgument,
    NoSuchInterface,
    NotImplemented,
    OutOfMemory,
    InvalidPointer,
    UnexpectedFailure,
    /// Any status without a name of its own, kept as it came.
    Other(HRESULT),
}

/// Whether `hr` is one of the ten statuses that [`Error`] has a name for.
pub open spec fn is_named_status(hr: HRESULT) -> bool {
    hr == E_ABORT || hr == E_ACCESSDENIED || hr == E_FAIL || hr == E_HANDLE || hr == E_INVALIDARG
        || hr == E_NOINTERFACE || hr == E_NOTIMPL || hr == E_OUTOFMEMORY || hr == E_POINTER || hr
        == E_UNEXPECTED
}

impl Error {
    /// Whether this is one of the named kinds, that is, not the catch-all.
    pub open spec fn is_named(self) -> bool {
        !(self is Other)
    }

    /// The status that stands for this error at the native boundary.
    pub open spec fn spec_as_hresult(self) -> HRESULT {
        match self {
            Error::OperationAborted => E_ABORT,
            Error::AccessDenied => E_ACCESSDENIED,
            Error::UnspecifiedFailure => E_FAIL,
            Error::InvalidHandle => E_HANDLE,
            Error::InvalidArgument => E_INVALIDARG,
            Error::NoSuchInterface => E_NOINTERFACE,
            Error::NotImplemented => E_NOTIMPL,
            Error::OutOfMemory => E_OUTOFMEMORY,
            Error::InvalidPointer => E_POINTER,
            Error::UnexpectedFailure => E_UNEXPECTED,
            Error::Other(hr) => hr,
        }
    }

    /// The error that a status stands for: the named kind whose status it
    /// is, and the catch-all around the status itself where there is none.
    pub open spec fn spec_from_hresult(hr: HRESULT) -> Error {
        if hr == E_ABORT {
            Error::OperationAborted
        } else if hr == E_ACCESSDENIED {
            Error::AccessDenied
        } else if hr == E_FAIL {
            Error::UnspecifiedFailure
        } else if hr == E_HANDLE {
            Error::InvalidHandle
        } else if hr == E_INVALIDARG {
            Error::InvalidArgument
        } else if hr == E_NOINTERFACE {
            Error::NoSuchInterface
        } else if hr == E_NOTIMPL {
            Error::NotImplemented
        } else if hr == E_OUTOFMEMORY {
            Error::OutOfMemory
        } else if hr == E_POINTER {
            Error::InvalidPointer
        } else if hr == E_UNEXPECTED {
            Error::UnexpectedFailure
        } else {
            Error::Other(hr)
        }
    }

    /// Translates a native status into the error it stands for.
    ///
    /// The result carries the status without loss, and it is the catch-all
    /// exactly when the status has no name.
    pub fn from_hresult(hr: HRESULT) -> (e: Error)
        ensures
            e == Error::spec_from_hresult(hr),
            e.spec_as_hresult() == hr,
            e.is_named() <==> is_named_status(hr),
    {
        if hr == E_ABORT {
            Error::OperationAborted
        } else if hr == E_ACCESSDENIED {
            Error::AccessDenied
        } else if hr == E_FAIL {
            Error::UnspecifiedFailure
        } else if hr == E_HANDLE {
            Error::InvalidHandle
        } else if hr == E_INVALIDARG {
            Error::InvalidArgument
        } else if hr == E_NOINTERFACE {
            Error::NoSuchInterface
        } else if hr == E_NOTIMPL {
            Error::NotImplemented
        } else if hr == E_OUTOFMEMORY {
            Error::OutOfMemory
        } else if hr == E_POINTER {
            Error::InvalidPointer
        } else if hr == E_UNEXPECTED {
            Error::UnexpectedFailure
        } else {
            Error::Other(hr)
        }
    }

    /// Translates this error into the native status that stands for it.
    pub fn as_hresult(&self) -> (hr: HRESULT)
        ensures
            hr == self.spec_as_hresult(),
    {
        match *self {
            Error::OperationAborted => E_ABORT,
            Error::AccessDenied => E_ACCESSDENIED,
            Error::UnspecifiedFailure => E_FAIL,
            Error::InvalidHandle => E_HANDLE,
            Error::InvalidArgument => E_INVALIDARG,
            Error::NoSuchInterface => E_NOINTERFACE,
            Error::NotImplemented => E_NOTIMPL,
            Error::OutOfMemory => E_OUTOFMEMORY,
            Error::InvalidPointer => E_POINTER,
            Error::UnexpectedFailure => E_UNEXPECTED,
            Error::Other(hr) => hr,
        }
    }
}

/// The outcome of a native call that reported `status` and, where it
/// succeeded, produced `value`: the value for `S_OK`, and for any other
/// status the error that stands for it.
pub open spec fn spec_outcome<T>(status: HRESULT, value: T) -> core::result::Result<T, Error> {
    if status == S_OK {
        Ok(value)
    } else {
        Err(Error::spec_from_hresult(status))
    }
}

/// The status that reports an outcome across the native boundary: `S_OK`
/// for success, and for a failure the status that stands for the error.
pub open spec fn spec_status_of(outcome: core::result::Result<(), Error>) -> HRESULT {
    match outcome {
        Ok(_) => S_OK,
        Err(e) => e.spec_as_hresult(),
    }
}

/// Turns what a native call reported into the outcome of the operation that
/// made the call.
///
/// The value is handed on only with `S_OK`. With any other status it is
/// dropped and the error that stands for the status is returned, so that no
/// failure passes unseen and nothing is made up for a call that failed.
pub fn outcome<T>(status: HRESULT, value: T) -> (r: core::result::Result<T, Error>)
    ensures
        r == spec_outcome(status, value),
        r is Ok <==> status == S_OK,
{
    if status == S_OK {
        Ok(value)
    } else {
        Err(Error::from_hresult(status))
    }
}

/// Turns the outcome of an operation into the status that reports it across
/// the native boundary.
pub fn status_of(outcome: &core::result::Result<(), Error>) -> (status: HRESULT)
    ensures
        status == spec_status_of(*outcome),
{
    match outcome {
        Ok(_) => S_OK,
        Err(e) => e.as_hresult(),
    }
}

/// Every named kind comes back unchanged from the trip to its status and
/// back.
pub proof fn lemma_named_error_round_trip(e: Error)
    requires
        e.is_named(),
    ensures
        is_named_status(e.spec_as_hresult()),
        Error::spec_from_hresult(e.spec_as_hresult()) == e,
{
}

/// A status without a name becomes the catch-all around exactly that status,
/// and the catch-all gives the status back.
pub proof fn lemma_unnamed_status_round_trip(hr: HRESULT)
    requires
        !is_named_status(hr),
    ensures
        Error::spec_from_hresult(hr) == Error::Other(hr),
        Error::Other(hr).spec_as_hresult() == hr,
{
}

/// No status, named or not, is changed by the trip to its error and back.
pub proof fn lemma_status_round_trip(hr: HRESULT)
    ensures
        Error::spec_from_hresult(hr).spec_as_hresult() == hr,
{
}

/// An error comes back unchanged from the trip to its status and back
/// exactly when it is a named kind or a catch-all around a status that has
/// no name.
pub proof fn lemma_error_round_trip(e: Error)
    ensures
        Error::spec_from_hresult(e.spec_as_hresult()) == e <==> (e.is_named() || !is_named_status(
            e.spec_as_hresult(),
        )),
{
}

/// Two named kinds with the same status are the same kind.
pub proof fn lemma_named_statuses_distinct(a: Error, b: Error)
    requires
        a.is_named(),
        b.is_named(),
        a.spec_as_hresult() == b.spec_as_hresult(),
    ensures
        a == b,
{
}

/// Every named status is a failure: it is negative, and so never `S_OK`.
pub proof fn lemma_named_status_is_failure(hr: HRESULT)
    requires
        is_named_status(hr),
    ensures
        hr < 0,
        hr != S_OK,
{
}

/// A status that was turned into an outcome is reported again as the same
/// status, whatever it was.
pub proof fn lemma_outcome_keeps_status(status: HRESULT)
    ensures
        spec_status_of(spec_outcome(status, ())) == status,
{
}

} // verus!
