//! The typed facade over a handle to a scheduling-profile object.

use crate::handle::Handle;
use vstd::prelude::*;

verus! {

/// A handle known, by its type, to name a kernel scheduling-profile
/// object: a bundle of scheduling parameters that can be applied to a
/// thread.
///
/// As essentially a subtype of [`Handle`], it converts freely to and from
/// one; each conversion transfers ownership of the one underlying handle
/// and never duplicates it.
#[derive(Debug, PartialEq, Eq, Structural, PartialOrd, Ord, Hash)]
pub struct Profile(pub Handle);

impl View for Profile {
    type V = u32;

    open spec fn view(&self) -> u32 {
        self.0@
    }
}

impl Profile {
    /// The profile facade that owns the given untyped handle.
    pub open spec fn spec_from_handle(h: Handle) -> Profile {
        Profile(h)
    }

    /// The untyped handle that a profile facade owns.
    pub open spec fn spec_into_handle(self) -> Handle {
        self.0
    }

    /// Take ownership of an untyped handle as a profile handle.
    pub fn from_handle(h: Handle) -> (p: Profile)
        ensures
            p == Profile::spec_from_handle(h),
            p@ == h@,
    {
        Profile(h)
    }

    /// Convert back into an untyped handle, transferring ownership of the
    /// same underlying handle.
    pub fn into_handle(self) -> (h: Handle)
        ensures
            h == self.spec_into_handle(),
            h@ == self@,
    {
        self.0
    }

    /// The raw value of the handle this facade owns, without giving up
    /// ownership.
    pub fn raw_handle(&self) -> (raw: u32)
        ensures
            raw == self@,
    {
        self.0.raw_handle()
    }
}

impl From<Handle> for Profile {
    fn from(h: Handle) -> (p: Profile) {
        Profile::from_handle(h)
    }
}

impl vstd::std_specs::convert::FromSpecImpl<Handle> for Profile {
    open spec fn obeys_from_spec() -> bool {
        true
    }

    open spec fn from_spec(h: Handle) -> Profile {
        Profile::spec_from_handle(h)
    }
}

impl From<Profile> for Handle {
    fn from(p: Profile) -> (h: Handle) {
        p.into_handle()
    }
}

impl vstd::std_specs::convert::FromSpecImpl<Profile> for Handle {
    open spec fn obeys_from_spec() -> bool {
        true
    }

    open spec fn from_spec(p: Profile) -> Handle {
        p.spec_into_handle()
    }
}

/// Law: converting a handle into a profile facade and back yields the very
/// handle that went in, and wrapping the handle a facade gives up rebuilds
/// that facade — the conversions transfer one underlying handle and create
/// nothing.
pub proof fn lemma_profile_handle_round_trip(h: Handle, p: Profile)
    ensures
        Profile::spec_from_handle(h).spec_into_handle() == h,
        Profile::spec_from_handle(p.spec_into_handle()) == p,
{
}

} // verus!
