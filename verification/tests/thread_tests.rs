use zircon_threads::handle::Handle;
use zircon_threads::kernel::Kernel;
use zircon_threads::profile::Profile;
use zircon_threads::status::{Status, ZX_ERR_BAD_HANDLE, ZX_OK};
use zircon_threads::thread::Thread;

#[test]
fn set_profile_invalid() {
    let mut kernel = Kernel::new();
    let thread = Thread::from_handle(kernel.create_thread().unwrap());
    let profile = Profile::from(Handle::invalid());
    assert_eq!(thread.set_profile(&mut kernel, profile, 0), Err(Status::BadHandle));
}

#[test]
fn set_profile_invalid_every_time() {
    let mut kernel = Kernel::new();
    let thread = Thread::from_handle(kernel.create_thread().unwrap());
    let first = Profile::from(Handle::invalid());
    assert_eq!(thread.set_profile(&mut kernel, first, 0), Err(Status::BadHandle));
    let second = Profile::from(Handle::invalid());
    assert_eq!(thread.set_profile(&mut kernel, second, 0), Err(Status::BadHandle));
}

#[test]
fn set_profile_never_allocated_handle() {
    let mut kernel = Kernel::new();
    let thread = Thread::from_handle(Handle::from_raw(7));
    let profile = Profile::from(Handle::from_raw(9));
    assert_eq!(thread.set_profile(&mut kernel, profile, 0), Err(Status::BadHandle));
}

#[test]
fn set_profile_closed_handle() {
    let mut kernel = Kernel::new();
    let thread_handle = kernel.create_thread().unwrap();
    let raw = thread_handle.raw_handle();
    assert_eq!(kernel.close(thread_handle), ZX_OK);
    let thread = Thread::from_handle(Handle::from_raw(raw));
    let profile = Profile::from_handle(kernel.create_profile().unwrap());
    assert_eq!(thread.set_profile(&mut kernel, profile, 0), Err(Status::BadHandle));
}

#[test]
fn set_profile_accepts_zero_options() {
    let mut kernel = Kernel::new();
    let thread = Thread::from_handle(kernel.create_thread().unwrap());
    let profile = Profile::from_handle(kernel.create_profile().unwrap());
    assert_eq!(thread.set_profile(&mut kernel, profile, 0), Ok(()));
}

#[test]
fn set_profile_rejects_nonzero_options() {
    let mut kernel = Kernel::new();
    let thread = Thread::from_handle(kernel.create_thread().unwrap());
    let profile = Profile::from_handle(kernel.create_profile().unwrap());
    assert_eq!(thread.set_profile(&mut kernel, profile, 5), Err(Status::InvalidArgs));
}

#[test]
fn set_profile_wrong_object_kinds() {
    let mut kernel = Kernel::new();
    let thread_handle = kernel.create_thread().unwrap();
    let profile_handle = kernel.create_profile().unwrap();
    let thread_raw = thread_handle.raw_handle();

    // A thread facade over a profile object: the thread handle is live but
    // names the wrong kind of object.
    let not_a_thread = Thread::from_handle(profile_handle);
    let profile_over_thread = Profile::from_handle(Handle::from_raw(thread_raw));
    assert_eq!(
        not_a_thread.set_profile(&mut kernel, profile_over_thread, 0),
        Err(Status::WrongType)
    );

    // A profile facade over a thread object, applied to a real thread.
    let thread = Thread::from_handle(thread_handle);
    let not_a_profile = Profile::from_handle(Handle::from_raw(thread_raw));
    assert_eq!(thread.set_profile(&mut kernel, not_a_profile, 0), Err(Status::WrongType));
}

#[test]
fn start_accepted_once() {
    let mut kernel = Kernel::new();
    let thread = Thread::from_handle(kernel.create_thread().unwrap());
    assert_eq!(thread.start(&mut kernel, 0x1000, 0x2000, 0, 0), Ok(()));
    assert_eq!(thread.start(&mut kernel, 0x1000, 0x2000, 0, 0), Err(Status::BadState));
}

#[test]
fn start_invalid_handle() {
    let mut kernel = Kernel::new();
    let thread = Thread::from_handle(Handle::invalid());
    assert_eq!(thread.start(&mut kernel, 0x1000, 0x2000, 0, 0), Err(Status::BadHandle));
}

#[test]
fn start_wrong_type() {
    let mut kernel = Kernel::new();
    let profile_handle = kernel.create_profile().unwrap();
    let not_a_thread = Thread::from_handle(profile_handle);
    assert_eq!(not_a_thread.start(&mut kernel, 0x1000, 0x2000, 0, 0), Err(Status::WrongType));
}

#[test]
fn start_after_exit_fails() {
    let mut kernel = Kernel::new();
    let thread = Thread::from_handle(kernel.create_thread().unwrap());
    assert_eq!(thread.start(&mut kernel, 0x1000, 0x2000, 0, 0), Ok(()));
    kernel.thread_exit(thread.raw_handle());
    assert_eq!(thread.start(&mut kernel, 0x1000, 0x2000, 0, 0), Err(Status::BadState));
}

#[test]
fn close_releases_exactly_once() {
    let mut kernel = Kernel::new();
    let handle = kernel.create_thread().unwrap();
    let raw = handle.raw_handle();
    assert_eq!(kernel.close(handle), ZX_OK);
    assert_eq!(kernel.close(Handle::from_raw(raw)), ZX_ERR_BAD_HANDLE);
}

#[test]
fn close_invalid_handle_value_is_accepted() {
    let mut kernel = Kernel::new();
    assert_eq!(kernel.close(Handle::invalid()), ZX_OK);
    assert_eq!(kernel.close(Handle::from_raw(3)), ZX_ERR_BAD_HANDLE);
}

#[test]
fn fresh_handles_are_distinct() {
    let mut kernel = Kernel::new();
    let first = kernel.create_thread().unwrap();
    let second = kernel.create_profile().unwrap();
    assert_ne!(first.raw_handle(), second.raw_handle());
    assert!(!first.is_invalid());
    assert!(!second.is_invalid());
}
