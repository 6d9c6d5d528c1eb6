use zircon_threads::handle::{Handle, INVALID_HANDLE};
use zircon_threads::profile::Profile;
use zircon_threads::status::{
    ok, Status, ZX_ERR_ACCESS_DENIED, ZX_ERR_BAD_HANDLE, ZX_ERR_BAD_STATE, ZX_ERR_INVALID_ARGS,
    ZX_ERR_NO_MEMORY, ZX_ERR_WRONG_TYPE, ZX_OK,
};
use zircon_threads::thread::Thread;

#[test]
fn thread_handle_round_trip() {
    let handle = Handle::from_raw(42);
    let thread = Thread::from_handle(handle);
    let back = thread.into_handle();
    assert_eq!(back.raw_handle(), 42);
    assert_eq!(back, Handle::from_raw(42));
}

#[test]
fn thread_handle_round_trip_through_from() {
    let thread = Thread::from(Handle::from_raw(11));
    assert_eq!(thread.raw_handle(), 11);
    let back = Handle::from(thread);
    assert_eq!(back, Handle::from_raw(11));
}

#[test]
fn profile_handle_round_trip() {
    let profile = Profile::from(Handle::from_raw(5));
    assert_eq!(profile.raw_handle(), 5);
    let back = profile.into_handle();
    assert_eq!(back.raw_handle(), 5);
}

#[test]
fn invalid_handle_value() {
    let handle = Handle::invalid();
    assert!(handle.is_invalid());
    assert_eq!(handle.raw_handle(), INVALID_HANDLE);
    assert_eq!(Handle::from_raw(0), Handle::invalid());
    assert!(!Handle::from_raw(1).is_invalid());
    assert_eq!(Handle::from_raw(9).into_raw(), 9);
}

#[test]
fn ok_translates_success() {
    assert_eq!(ok(ZX_OK), Ok(()));
}

#[test]
fn ok_translates_each_documented_code() {
    assert_eq!(ok(ZX_ERR_BAD_HANDLE), Err(Status::BadHandle));
    assert_eq!(ok(ZX_ERR_WRONG_TYPE), Err(Status::WrongType));
    assert_eq!(ok(ZX_ERR_INVALID_ARGS), Err(Status::InvalidArgs));
    assert_eq!(ok(ZX_ERR_BAD_STATE), Err(Status::BadState));
    assert_eq!(ok(ZX_ERR_ACCESS_DENIED), Err(Status::AccessDenied));
    assert_eq!(ok(ZX_ERR_NO_MEMORY), Err(Status::NoMemory));
}

#[test]
fn ok_keeps_undocumented_codes() {
    assert_eq!(ok(-9999), Err(Status::Other(-9999)));
    assert_eq!(ok(17), Err(Status::Other(17)));
}

#[test]
fn status_codes_survive_the_round_trip() {
    assert_eq!(Status::BadHandle.code(), ZX_ERR_BAD_HANDLE);
    assert_eq!(Status::WrongType.code(), ZX_ERR_WRONG_TYPE);
    assert_eq!(Status::InvalidArgs.code(), ZX_ERR_INVALID_ARGS);
    assert_eq!(Status::BadState.code(), ZX_ERR_BAD_STATE);
    assert_eq!(Status::AccessDenied.code(), ZX_ERR_ACCESS_DENIED);
    assert_eq!(Status::NoMemory.code(), ZX_ERR_NO_MEMORY);
    assert_eq!(Status::Other(-9999).code(), -9999);
    for raw in [-9999, -30, -20, -12, -11, -10, -4, 1, 17] {
        assert_eq!(ok(raw).unwrap_err().code(), raw);
    }
}
