//! A model of the kernel collaborator: the process handle table and the
//! thread lifecycle, exactly as far as the handle wrapper's contract
//! depends on them.
//!
//! The real table and scheduler live in the kernel and are reached only
//! through syscalls. This module states what those entry points promise —
//! which handle values name live objects, how a thread object moves through
//! its lifecycle, which status code each request reports — and proves the
//! handle-contract laws over that statement.

use crate::handle::{Handle, INVALID_HANDLE};
use crate::status::{
    ok_spec, Status, ZX_ERR_BAD_HANDLE, ZX_ERR_BAD_STATE, ZX_ERR_INVALID_ARGS, ZX_ERR_NO_MEMORY,
    ZX_ERR_WRONG_TYPE, ZX_OK,
};
use vstd::prelude::*;

verus! {

/// The lifecycle of a kernel thread object: created, then running once the
/// kernel accepts a start request, then terminated once the thread exits.
#[derive(Clone, Copy, Debug, PartialEq, Eq, Structural)]
pub enum ThreadState {
    Created,
    Running,
    Terminated,
}

/// The kinds of kernel object that the wrapper's operations touch.
#[derive(Clone, Copy, Debug, PartialEq, Eq, Structural)]
pub enum KernelObject {
    Thread(ThreadState),
    Profile,
}

/// Handle values are 32-bit and zero never names an object, so a table
/// never holds more than this many live slots.
pub const MAX_HANDLES: usize = 0xffff_ffff;

/// The kernel side of the handle contract: a process-local table mapping
/// each live handle value to the object it names.
///
/// Slot `i` belongs to handle value `i + 1`. Closing a handle empties its
/// slot for good, so a value names at most one object over the table's
/// lifetime: a handle that was never allocated and one that was already
/// closed are equally invalid, exactly as the contract demands.
pub struct Kernel {
    slots: Vec<Option<KernelObject>>,
}

impl View for Kernel {
    type V = Seq<Option<KernelObject>>;

    closed spec fn view(&self) -> Seq<Option<KernelObject>> {
        self.slots@
    }
}

impl Kernel {
    /// Whether `h` currently names a live object.
    pub open spec fn valid_handle(self, h: u32) -> bool {
        &&& 1 <= h
        &&& h <= self@.len()
        &&& self@[h - 1] is Some
    }

    /// The object that a live handle names.
    pub open spec fn object_of(self, h: u32) -> KernelObject
        recommends
            self.valid_handle(h),
    {
        self@[h - 1]->0
    }

    /// Whether `h` names a live thread object.
    pub open spec fn is_thread(self, h: u32) -> bool {
        self.valid_handle(h) && self.object_of(h) is Thread
    }

    /// Whether `h` names a live profile object.
    pub open spec fn is_profile(self, h: u32) -> bool {
        self.valid_handle(h) && self.object_of(h) is Profile
    }

    /// The lifecycle state of the thread object that `h` names.
    pub open spec fn thread_state_of(self, h: u32) -> ThreadState
        recommends
            self.is_thread(h),
    {
        self.object_of(h)->0
    }

    /// The status code that the thread-start entry point reports: bad
    /// handle before wrong type, and a state conflict for any thread that
    /// is no longer in the created state.
    pub open spec fn thread_start_status(self, h: u32) -> i32 {
        if !self.valid_handle(h) {
            ZX_ERR_BAD_HANDLE
        } else if !(self.object_of(h) is Thread) {
            ZX_ERR_WRONG_TYPE
        } else if self.thread_state_of(h) != ThreadState::Created {
            ZX_ERR_BAD_STATE
        } else {
            ZX_OK
        }
    }

    /// The table after a thread-start request: the thread becomes running
    /// exactly when the request is accepted, and nothing else moves.
    pub open spec fn thread_start_post(self, h: u32) -> Seq<Option<KernelObject>> {
        if self.thread_start_status(h) == ZX_OK {
            self@.update(h - 1, Some(KernelObject::Thread(ThreadState::Running)))
        } else {
            self@
        }
    }

    /// The status code that the set-profile entry point reports. Handle
    /// validity is judged before object kind, for both handles, so an
    /// invalid handle always surfaces as a bad-handle failure; a non-zero
    /// options word is the only argument the kernel currently rejects.
    pub open spec fn set_profile_status(self, thread: u32, profile: u32, options: u32) -> i32 {
        if !self.valid_handle(thread) {
            ZX_ERR_BAD_HANDLE
        } else if !self.valid_handle(profile) {
            ZX_ERR_BAD_HANDLE
        } else if !(self.object_of(thread) is Thread) {
            ZX_ERR_WRONG_TYPE
        } else if !(self.object_of(profile) is Profile) {
            ZX_ERR_WRONG_TYPE
        } else if options != 0 {
            ZX_ERR_INVALID_ARGS
        } else {
            ZX_OK
        }
    }

    /// The status code that the handle-close entry point reports: closing
    /// the never-valid handle value is accepted and does nothing; any other
    /// value must name a live object.
    pub open spec fn close_status(self, h: u32) -> i32 {
        if h == INVALID_HANDLE {
            ZX_OK
        } else if !self.valid_handle(h) {
            ZX_ERR_BAD_HANDLE
        } else {
            ZX_OK
        }
    }

    /// The table after a close request: the slot of a live handle is left
    /// empty for good.
    pub open spec fn close_post(self, h: u32) -> Seq<Option<KernelObject>> {
        if self.valid_handle(h) {
            self@.update(h - 1, None)
        } else {
            self@
        }
    }

    /// The table after the thread that `h` names exits: a running thread
    /// becomes terminated, and nothing else moves.
    pub open spec fn thread_exit_post(self, h: u32) -> Seq<Option<KernelObject>> {
        if self.is_thread(h) && self.thread_state_of(h) == ThreadState::Running {
            self@.update(h - 1, Some(KernelObject::Thread(ThreadState::Terminated)))
        } else {
            self@
        }
    }

    /// A kernel whose handle table holds nothing: every handle value is
    /// invalid.
    pub fn new() -> (k: Kernel)
        ensures
            k@ == Seq::<Option<KernelObject>>::empty(),
    {
        Kernel { slots: Vec::new() }
    }

    /// Whether `h` currently names a live object.
    pub fn handle_is_valid(&self, h: u32) -> (r: bool)
        ensures
            r == self.valid_handle(h),
    {
        h != 0 && (h as usize) <= self.slots.len() && self.slots[h as usize - 1].is_some()
    }

    /// Allocate a handle to a fresh thread object in the created state.
    ///
    /// The new handle value never named an object before. The request fails
    /// only when the table has run out of handle values.
    pub fn create_thread(&mut self) -> (r: Result<Handle, Status>)
        ensures
            old(self)@.len() < MAX_HANDLES ==> (r matches Ok(h) && h@ == old(self)@.len() + 1
                && !old(self).valid_handle(h@)),
            old(self)@.len() < MAX_HANDLES ==> final(self)@ == old(self)@.push(
                Some(KernelObject::Thread(ThreadState::Created)),
            ),
            old(self)@.len() >= MAX_HANDLES ==> r == Err::<Handle, Status>(Status::NoMemory)
                && final(self)@ == old(self)@,
    {
        if self.slots.len() >= MAX_HANDLES {
            return Err(Status::NoMemory);
        }
        self.slots.push(Some(KernelObject::Thread(ThreadState::Created)));
        let raw: usize = self.slots.len();
        Ok(Handle::from_raw(raw as u32))
    }

    /// Allocate a handle to a fresh profile object.
    ///
    /// The new handle value never named an object before. The request fails
    /// only when the table has run out of handle values.
    pub fn create_profile(&mut self) -> (r: Result<Handle, Status>)
        ensures
            old(self)@.len() < MAX_HANDLES ==> (r matches Ok(h) && h@ == old(self)@.len() + 1
                && !old(self).valid_handle(h@)),
            old(self)@.len() < MAX_HANDLES ==> final(self)@ == old(self)@.push(
                Some(KernelObject::Profile),
            ),
            old(self)@.len() >= MAX_HANDLES ==> r == Err::<Handle, Status>(Status::NoMemory)
                && final(self)@ == old(self)@,
    {
        if self.slots.len() >= MAX_HANDLES {
            return Err(Status::NoMemory);
        }
        self.slots.push(Some(KernelObject::Profile));
        let raw: usize = self.slots.len();
        Ok(Handle::from_raw(raw as u32))
    }

    /// Ask the kernel to start the thread that `h` names.
    ///
    /// The entry address, stack pointer and the two arguments are accepted
    /// untyped and uninterpreted, exactly as the entry point takes them:
    /// the wrapper performs no validation of them beyond what the kernel
    /// itself enforces, and this model kernel enforces none.
    #[allow(unused_variables)]
    pub fn thread_start(
        &mut self,
        h: u32,
        thread_entry: usize,
        stack: usize,
        arg1: usize,
        arg2: usize,
    ) -> (status: i32)
        ensures
            status == old(self).thread_start_status(h),
            final(self)@ == old(self).thread_start_post(h),
    {
        if h == 0 || (h as usize) > self.slots.len() {
            return ZX_ERR_BAD_HANDLE;
        }
        let idx: usize = h as usize - 1;
        match self.slots[idx] {
            None => ZX_ERR_BAD_HANDLE,
            Some(KernelObject::Profile) => ZX_ERR_WRONG_TYPE,
            Some(KernelObject::Thread(ThreadState::Created)) => {
                self.slots[idx] = Some(KernelObject::Thread(ThreadState::Running));
                ZX_OK
            },
            Some(KernelObject::Thread(_)) => ZX_ERR_BAD_STATE,
        }
    }

    /// Ask the kernel to apply the profile that `profile` names to the
    /// thread that `thread` names.
    ///
    /// The scheduling effect is entirely inside the kernel scheduler: no
    /// state observable through this table changes, whatever the outcome.
    pub fn object_set_profile(&mut self, thread: u32, profile: u32, options: u32) -> (status: i32)
        ensures
            status == old(self).set_profile_status(thread, profile, options),
            final(self)@ == old(self)@,
    {
        if !self.handle_is_valid(thread) {
            return ZX_ERR_BAD_HANDLE;
        }
        if !self.handle_is_valid(profile) {
            return ZX_ERR_BAD_HANDLE;
        }
        let thread_is_thread = match self.slots[thread as usize - 1] {
            Some(KernelObject::Thread(_)) => true,
            _ => false,
        };
        if !thread_is_thread {
            return ZX_ERR_WRONG_TYPE;
        }
        let profile_is_profile = match self.slots[profile as usize - 1] {
            Some(KernelObject::Profile) => true,
            _ => false,
        };
        if !profile_is_profile {
            return ZX_ERR_WRONG_TYPE;
        }
        if options != 0 {
            return ZX_ERR_INVALID_ARGS;
        }
        ZX_OK
    }

    /// Release a handle back to the kernel.
    ///
    /// Takes the handle by value: ownership ends here, and the slot it
    /// named stays empty, so the same value can never be released twice.
    pub fn close(&mut self, h: Handle) -> (status: i32)
        ensures
            status == old(self).close_status(h@),
            final(self)@ == old(self).close_post(h@),
    {
        let raw = h.into_raw();
        if raw == INVALID_HANDLE {
            return ZX_OK;
        }
        if (raw as usize) > self.slots.len() {
            return ZX_ERR_BAD_HANDLE;
        }
        let idx: usize = raw as usize - 1;
        if self.slots[idx].is_none() {
            return ZX_ERR_BAD_HANDLE;
        }
        self.slots[idx] = None;
        ZX_OK
    }

    /// The kernel-side effect of the thread-exit entry point: the running
    /// thread that made the call, named here by `h`, becomes terminated.
    ///
    /// The entry point itself never returns to its caller and reports no
    /// status; only the table's change is modelled.
    pub fn thread_exit(&mut self, h: u32)
        ensures
            final(self)@ == old(self).thread_exit_post(h),
    {
        if h == 0 || (h as usize) > self.slots.len() {
            return;
        }
        let idx: usize = h as usize - 1;
        match self.slots[idx] {
            Some(KernelObject::Thread(ThreadState::Running)) => {
                self.slots[idx] = Some(KernelObject::Thread(ThreadState::Terminated));
            },
            _ => {},
        }
    }
}

/// Law: an operation through an invalid handle — never allocated, or
/// already closed — reports exactly the bad-handle failure: never success,
/// and never a different error kind. It holds whichever of the two handles
/// is the invalid one, and whatever the options word says.
pub proof fn lemma_set_profile_invalid_handle(k: Kernel, thread: u32, profile: u32, options: u32)
    requires
        !k.valid_handle(thread) || !k.valid_handle(profile),
    ensures
        k.set_profile_status(thread, profile, options) == ZX_ERR_BAD_HANDLE,
        ok_spec(k.set_profile_status(thread, profile, options)) == Err::<(), Status>(
            Status::BadHandle,
        ),
{
}

/// Law: a thread that is past the created state — already started, or
/// already terminated — never starts again. The request reports the
/// state-conflict failure; it never silently succeeds.
pub proof fn lemma_start_after_started_fails(k: Kernel, h: u32)
    requires
        k.is_thread(h),
        k.thread_state_of(h) != ThreadState::Created,
    ensures
        k.thread_start_status(h) == ZX_ERR_BAD_STATE,
        ok_spec(k.thread_start_status(h)) is Err,
{
}

/// Law: once the kernel accepts a start request for a thread, a second
/// start request on the same handle reports the state-conflict failure.
pub proof fn lemma_second_start_fails(before: Kernel, after: Kernel, h: u32)
    requires
        before.thread_start_status(h) == ZX_OK,
        after@ == before.thread_start_post(h),
    ensures
        after.thread_start_status(h) == ZX_ERR_BAD_STATE,
{
}

/// Law: a zero options word never causes a failure of its own. With a live
/// thread and a live profile it is accepted outright, and any failure it
/// does report is reported unchanged for every other options word.
pub proof fn lemma_options_zero_legal(k: Kernel, thread: u32, profile: u32, options: u32)
    ensures
        k.is_thread(thread) && k.is_profile(profile) ==> k.set_profile_status(thread, profile, 0)
            == ZX_OK,
        k.set_profile_status(thread, profile, 0) != ZX_OK ==> k.set_profile_status(
            thread,
            profile,
            options,
        ) == k.set_profile_status(thread, profile, 0),
{
}

/// Law: a handle is released exactly once. Releasing a live handle is
/// accepted and empties its slot, so the same value is invalid from then
/// on: a second release reports the bad-handle failure, and so does every
/// later operation through the value.
pub proof fn lemma_close_releases_once(before: Kernel, after: Kernel, h: u32)
    requires
        h != INVALID_HANDLE,
        before.valid_handle(h),
        after@ == before.close_post(h),
    ensures
        before.close_status(h) == ZX_OK,
        !after.valid_handle(h),
        after.close_status(h) == ZX_ERR_BAD_HANDLE,
{
}

} // verus!
