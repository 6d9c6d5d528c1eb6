//! Untyped, process-local handles to kernel objects.

use vstd::prelude::*;

verus! {

/// The distinguished handle value that never names a kernel object.
pub const INVALID_HANDLE: u32 = 0;

/// An owned, untyped handle: an opaque integer that names a kernel object
/// in the process handle table.
///
/// A handle has exactly one logical owner at a time. Moving a `Handle`
/// transfers that ownership, and the type is deliberately neither `Copy`
/// nor `Clone`, so a handle value is never implicitly duplicated; releasing
/// it back to the kernel takes the value itself (see
/// [`crate::kernel::Kernel::close`]), so it can happen at most once per owner.
#[derive(Debug, PartialEq, Eq, Structural, PartialOrd, Ord, Hash)]
pub struct Handle {
    raw: u32,
}

impl View for Handle {
    type V = u32;

    closed spec fn view(&self) -> u32 {
        self.raw
    }
}

impl Handle {
    /// The handle that names no object. Every operation through it reports
    /// a bad-handle failure.
    pub fn invalid() -> (h: Handle)
        ensures
            h@ == INVALID_HANDLE,
    {
        Handle { raw: INVALID_HANDLE }
    }

    /// Take ownership of a raw handle value.
    pub fn from_raw(raw: u32) -> (h: Handle)
        ensures
            h@ == raw,
    {
        Handle { raw }
    }

    /// The raw value, without giving up ownership.
    pub fn raw_handle(&self) -> (raw: u32)
        ensures
            raw == self@,
    {
        self.raw
    }

    /// Give up ownership and hand the raw value back to the caller.
    pub fn into_raw(self) -> (raw: u32)
        ensures
            raw == self@,
    {
        self.raw
    }

    /// Whether this is the distinguished never-valid handle value.
    pub fn is_invalid(&self) -> (r: bool)
        ensures
            r == (self@ == INVALID_HANDLE),
    {
        self.raw == INVALID_HANDLE
    }
}

} // verus!
