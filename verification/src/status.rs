//! The status-code domain returned by every kernel entry point, and its
//! lossless translation into a typed success/failure result.

use vstd::prelude::*;

verus! {

/// The request succeeded.
pub const ZX_OK: i32 = 0;

/// The kernel could not allocate what the request needs.
pub const ZX_ERR_NO_MEMORY: i32 = -4;

/// An argument other than a handle was outside the accepted domain.
pub const ZX_ERR_INVALID_ARGS: i32 = -10;

/// A handle argument did not name a live object in the handle table.
pub const ZX_ERR_BAD_HANDLE: i32 = -11;

/// A handle named a live object of a different kind than the request needs.
pub const ZX_ERR_WRONG_TYPE: i32 = -12;

/// The object is not in a state in which the request is legal.
pub const ZX_ERR_BAD_STATE: i32 = -20;

/// The caller lacks the rights that the request needs.
pub const ZX_ERR_ACCESS_DENIED: i32 = -30;

/// A kernel failure, surfaced as a typed error.
///
/// Each documented non-success status code has a variant of its own; a code
/// without one keeps its identity in [`Status::Other`], so no failure is ever
/// coerced into an anonymous one.
#[derive(Clone, Copy, Debug, PartialEq, Eq, Structural)]
pub enum Status {
    BadHandle,
    WrongType,
    InvalidArgs,
    BadState,
    AccessDenied,
    NoMemory,
    Other(i32),
}

/// The typed error that a raw non-success status code maps to.
pub open spec fn status_of(raw: i32) -> Status {
    if raw == ZX_ERR_BAD_HANDLE {
        Status::BadHandle
    } else if raw == ZX_ERR_WRONG_TYPE {
        Status::WrongType
    } else if raw == ZX_ERR_INVALID_ARGS {
        Status::InvalidArgs
    } else if raw == ZX_ERR_BAD_STATE {
        Status::BadState
    } else if raw == ZX_ERR_ACCESS_DENIED {
        Status::AccessDenied
    } else if raw == ZX_ERR_NO_MEMORY {
        Status::NoMemory
    } else {
        Status::Other(raw)
    }
}

/// The raw status code that a typed error stands for.
pub open spec fn code_of(status: Status) -> i32 {
    match status {
        Status::BadHandle => ZX_ERR_BAD_HANDLE,
        Status::WrongType => ZX_ERR_WRONG_TYPE,
        Status::InvalidArgs => ZX_ERR_INVALID_ARGS,
        Status::BadState => ZX_ERR_BAD_STATE,
        Status::AccessDenied => ZX_ERR_ACCESS_DENIED,
        Status::NoMemory => ZX_ERR_NO_MEMORY,
        Status::Other(raw) => raw,
    }
}

/// The result that a raw status code translates to: success exactly for
/// [`ZX_OK`], and the typed form of every other code.
pub open spec fn ok_spec(raw: i32) -> Result<(), Status> {
    if raw == ZX_OK {
        Ok(())
    } else {
        Err(status_of(raw))
    }
}

/// Translate a raw status code into a typed result.
///
/// Success is reported exactly for [`ZX_OK`]; every other code becomes the
/// error it stands for, never silently dropped.
pub fn ok(raw: i32) -> (r: Result<(), Status>)
    ensures
        r == ok_spec(raw),
        r is Ok <==> raw == ZX_OK,
{
    if raw == ZX_OK {
        Ok(())
    } else if raw == ZX_ERR_BAD_HANDLE {
        Err(Status::BadHandle)
    } else if raw == ZX_ERR_WRONG_TYPE {
        Err(Status::WrongType)
    } else if raw == ZX_ERR_INVALID_ARGS {
        Err(Status::InvalidArgs)
    } else if raw == ZX_ERR_BAD_STATE {
        Err(Status::BadState)
    } else if raw == ZX_ERR_ACCESS_DENIED {
        Err(Status::AccessDenied)
    } else if raw == ZX_ERR_NO_MEMORY {
        Err(Status::NoMemory)
    } else {
        Err(Status::Other(raw))
    }
}

impl Status {
    /// The raw kernel status code this error stands for.
    pub fn code(&self) -> (raw: i32)
        ensures
            raw == code_of(*self),
    {
        match *self {
            Status::BadHandle => ZX_ERR_BAD_HANDLE,
            Status::WrongType => ZX_ERR_WRONG_TYPE,
            Status::InvalidArgs => ZX_ERR_INVALID_ARGS,
            Status::BadState => ZX_ERR_BAD_STATE,
            Status::AccessDenied => ZX_ERR_ACCESS_DENIED,
            Status::NoMemory => ZX_ERR_NO_MEMORY,
            Status::Other(raw) => raw,
        }
    }
}

/// Law: translation is lossless. Every non-success code surfaces as an
/// error, and the error still carries the exact code it came from.
pub proof fn lemma_status_code_preserved(raw: i32)
    requires
        raw != ZX_OK,
    ensures
        ok_spec(raw) == Err::<(), Status>(status_of(raw)),
        code_of(status_of(raw)) == raw,
{
}

} // verus!
