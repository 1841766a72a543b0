use winrt::result::{
    E_ABORT, E_ACCESSDENIED, E_FAIL, E_HANDLE, E_INVALIDARG, E_NOINTERFACE, E_NOTIMPL,
    E_OUTOFMEMORY, E_POINTER, E_UNEXPECTED, S_OK,
};
use winrt::Error;

fn named() -> Vec<(Error, u32)> {
    vec![
        (Error::OperationAborted, 0x80004004),
        (Error::AccessDenied, 0x80070005),
        (Error::UnspecifiedFailure, 0x80004005),
        (Error::InvalidHandle, 0x80070006),
        (Error::InvalidArgument, 0x80070057),
        (Error::NoSuchInterface, 0x80004002),
        (Error::NotImplemented, 0x80004001),
        (Error::OutOfMemory, 0x8007000E),
        (Error::InvalidPointer, 0x80004003),
        (Error::UnexpectedFailure, 0x8000FFFF),
    ]
}

#[test]
fn status_constants_have_their_documented_values() {
    assert_eq!(S_OK, 0);
    assert_eq!(E_ABORT, 0x80004004u32 as i32);
    assert_eq!(E_ACCESSDENIED, 0x80070005u32 as i32);
    assert_eq!(E_FAIL, 0x80004005u32 as i32);
    assert_eq!(E_HANDLE, 0x80070006u32 as i32);
    assert_eq!(E_INVALIDARG, 0x80070057u32 as i32);
    assert_eq!(E_NOINTERFACE, 0x80004002u32 as i32);
    assert_eq!(E_NOTIMPL, 0x80004001u32 as i32);
    assert_eq!(E_OUTOFMEMORY, 0x8007000Eu32 as i32);
    assert_eq!(E_POINTER, 0x80004003u32 as i32);
    assert_eq!(E_UNEXPECTED, 0x8000FFFFu32 as i32);
}

#[test]
fn as_hresult_gives_each_named_kind_its_status() {
    for (error, status) in named() {
        assert_eq!(error.as_hresult(), status as i32);
        assert!(error.as_hresult() < 0);
    }
}

#[test]
fn from_hresult_gives_each_named_status_its_kind() {
    for (error, status) in named() {
        assert_eq!(Error::from_hresult(status as i32), error);
    }
}

#[test]
fn named_kinds_round_trip() {
    for (error, _) in named() {
        assert_eq!(Error::from_hresult(error.as_hresult()), error);
    }
}

#[test]
fn unnamed_status_becomes_the_catch_all() {
    for status in [0x8000000Au32 as i32, -1, 1, 42, i32::MIN, i32::MAX, 0x80070002u32 as i32] {
        assert_eq!(Error::from_hresult(status), Error::Other(status));
        assert_eq!(Error::Other(status).as_hresult(), status);
    }
}

#[test]
fn success_status_has_no_name() {
    assert_eq!(Error::from_hresult(S_OK), Error::Other(0));
}

#[test]
fn status_round_trips_through_its_error() {
    let mut statuses: Vec<i32> = named().into_iter().map(|(_, s)| s as i32).collect();
    statuses.extend([0, 1, -1, 7, i32::MIN, i32::MAX]);
    for status in statuses {
        assert_eq!(Error::from_hresult(status).as_hresult(), status);
    }
}

#[test]
fn catch_all_around_a_named_status_comes_back_named() {
    let wrapped = Error::Other(E_FAIL);
    assert_eq!(wrapped.as_hresult(), E_FAIL);
    assert_eq!(Error::from_hresult(wrapped.as_hresult()), Error::UnspecifiedFailure);
}

#[test]
fn neighbours_of_named_statuses_are_unnamed() {
    for (_, status) in named() {
        let status = status as i32;
        for near in [status - 1, status + 1] {
            if named().iter().all(|(_, s)| *s as i32 != near) {
                assert_eq!(Error::from_hresult(near), Error::Other(near));
            }
        }
    }
}
