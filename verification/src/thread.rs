//! The typed facade over a handle to a kernel thread object.

use crate::handle::Handle;
use crate::kernel::{Kernel, ThreadState};
use crate::profile::Profile;
use crate::status::{ok, ok_spec, Status};
use vstd::prelude::*;

verus! {

/// A handle known, by its type, to name a kernel thread object.
///
/// As essentially a subtype of [`Handle`], it converts freely to and from
/// one; each conversion transfers ownership of the one underlying handle
/// and never duplicates it. Every operation offered here belongs to the
/// thread-object family of kernel requests.
#[derive(Debug, PartialEq, Eq, Structural, PartialOrd, Ord, Hash)]
pub struct Thread(pub Handle);

impl View for Thread {
    type V = u32;

    open spec fn view(&self) -> u32 {
        self.0@
    }
}

impl Thread {
    /// The thread facade that owns the given untyped handle.
    pub open spec fn spec_from_handle(h: Handle) -> Thread {
        Thread(h)
    }

    /// The untyped handle that a thread facade owns.
    pub open spec fn spec_into_handle(self) -> Handle {
        self.0
    }

    /// Take ownership of an untyped handle as a thread handle.
    pub fn from_handle(h: Handle) -> (t: Thread)
        ensures
            t == Thread::spec_from_handle(h),
            t@ == h@,
    {
        Thread(h)
    }

    /// Convert back into an untyped handle, transferring ownership of the
    /// same underlying handle.
    pub fn into_handle(self) -> (h: Handle)
        ensures
            h == self.spec_into_handle(),
            h@ == self@,
    {
        self.0
    }

    /// The raw value of the handle this facade owns, without giving up
    /// ownership.
    pub fn raw_handle(&self) -> (raw: u32)
        ensures
            raw == self@,
    {
        self.0.raw_handle()
    }

    /// Cause the thread to begin execution.
    ///
    /// Issues the kernel's thread-start request through the handle this
    /// facade owns, handing the entry address, stack pointer and the two
    /// arguments on unvalidated, and translates the status code it gets
    /// back. Success means the kernel accepted the request — the thread
    /// moved from created to running inside the kernel — not that it has
    /// already executed anything. A single request, no retry.
    pub fn start(
        &self,
        kernel: &mut Kernel,
        thread_entry: usize,
        stack: usize,
        arg1: usize,
        arg2: usize,
    ) -> (r: Result<(), Status>)
        ensures
            r == ok_spec(old(kernel).thread_start_status(self@)),
            final(kernel)@ == old(kernel).thread_start_post(self@),
            r is Ok <==> old(kernel).is_thread(self@) && old(kernel).thread_state_of(self@)
                == ThreadState::Created,
    {
        let thread_raw = self.raw_handle();
        let status = kernel.thread_start(thread_raw, thread_entry, stack, arg1, arg2);
        ok(status)
    }

    /// Apply a scheduling profile to the thread.
    ///
    /// Issues the kernel's set-profile request for this thread and the
    /// given profile, forwarding the options word verbatim, and translates
    /// the status code it gets back. An invalid handle — the thread's or
    /// the profile's — surfaces as exactly the bad-handle error; with a
    /// live thread, a live profile and a zero options word the request is
    /// owed success. The scheduling effect itself stays inside the kernel.
    pub fn set_profile(&self, kernel: &mut Kernel, profile: Profile, options: u32) -> (r: Result<
        (),
        Status,
    >)
        ensures
            r == ok_spec(old(kernel).set_profile_status(self@, profile@, options)),
            final(kernel)@ == old(kernel)@,
            !old(kernel).valid_handle(self@) || !old(kernel).valid_handle(profile@) ==> r == Err::<
                (),
                Status,
            >(Status::BadHandle),
            old(kernel).is_thread(self@) && old(kernel).is_profile(profile@) && options == 0
                ==> r is Ok,
    {
        let thread_raw = self.raw_handle();
        let profile_raw = profile.raw_handle();
        let status = kernel.object_set_profile(thread_raw, profile_raw, options);
        ok(status)
    }
}

impl From<Handle> for Thread {
    fn from(h: Handle) -> (t: Thread) {
        Thread::from_handle(h)
    }
}

impl vstd::std_specs::convert::FromSpecImpl<Handle> for Thread {
    open spec fn obeys_from_spec() -> bool {
        true
    }

    open spec fn from_spec(h: Handle) -> Thread {
        Thread::spec_from_handle(h)
    }
}

impl From<Thread> for Handle {
    fn from(t: Thread) -> (h: Handle) {
        t.into_handle()
    }
}

impl vstd::std_specs::convert::FromSpecImpl<Thread> for Handle {
    open spec fn obeys_from_spec() -> bool {
        true
    }

    open spec fn from_spec(t: Thread) -> Handle {
        t.spec_into_handle()
    }
}

/// Law: converting a handle into a thread facade and back yields the very
/// handle that went in, and wrapping the handle a facade gives up rebuilds
/// that facade. The round trip names the same underlying kernel object,
/// and no conversion touches the kernel, so none can create an object.
pub proof fn lemma_thread_handle_round_trip(h: Handle, t: Thread)
    ensures
        Thread::spec_from_handle(h).spec_into_handle() == h,
        Thread::spec_from_handle(t.spec_into_handle()) == t,
{
}

} // verus!
