use winrt::result::{E_NOINTERFACE, S_OK};
use winrt::{ComIid, ComObject, Guid, IAgileObject, IRestrictedErrorInfo, IUnknown};

const ADDR: usize = 0x7ff0_1000;

fn stranger() -> Guid {
    Guid { data1: 0xDEADBEEF, data2: 1, data3: 2, data4: [3, 4, 5, 6, 7, 8, 9, 10] }
}

#[test]
fn new_object_has_one_reference() {
    let object = ComObject::new(ADDR, vec![*IRestrictedErrorInfo::iid()]);
    assert_eq!(object.addr(), ADDR);
    assert_eq!(object.ref_count(), 1);
    assert!(!object.is_destroyed());
}

#[test]
fn object_answers_for_its_interfaces_and_the_root() {
    let object = ComObject::new(ADDR, vec![*IRestrictedErrorInfo::iid(), *IAgileObject::iid()]);
    assert!(object.implements(IUnknown::iid()));
    assert!(object.implements(IRestrictedErrorInfo::iid()));
    assert!(object.implements(IAgileObject::iid()));
    assert!(!object.implements(&stranger()));
}

#[test]
fn object_without_interfaces_still_answers_for_the_root() {
    let object = ComObject::new(ADDR, Vec::new());
    assert!(object.implements(IUnknown::iid()));
    assert!(!object.implements(IAgileObject::iid()));
}

#[test]
fn query_interface_that_succeeds_takes_a_reference() {
    let mut object = ComObject::new(ADDR, vec![*IAgileObject::iid()]);
    assert_eq!(object.query_interface(IAgileObject::iid()), (S_OK, ADDR));
    assert_eq!(object.ref_count(), 2);
    assert_eq!(object.query_interface(IUnknown::iid()), (S_OK, ADDR));
    assert_eq!(object.ref_count(), 3);
}

#[test]
fn query_interface_that_fails_changes_nothing() {
    let mut object = ComObject::new(ADDR, vec![*IAgileObject::iid()]);
    assert_eq!(object.query_interface(IRestrictedErrorInfo::iid()), (E_NOINTERFACE, 0));
    assert_eq!(object.ref_count(), 1);
    assert_eq!(object.addr(), ADDR);
    assert!(!object.is_destroyed());
    assert!(object.implements(IAgileObject::iid()));
}

#[test]
fn add_ref_and_release_return_the_new_count() {
    let mut object = ComObject::new(ADDR, Vec::new());
    assert_eq!(object.add_ref(), 2);
    assert_eq!(object.add_ref(), 3);
    assert_eq!(object.release(), 2);
    assert_eq!(object.release(), 1);
    assert_eq!(object.ref_count(), 1);
    assert!(!object.is_destroyed());
}

#[test]
fn last_release_destroys_the_object() {
    let mut object = ComObject::new(ADDR, Vec::new());
    assert_eq!(object.release(), 0);
    assert!(object.is_destroyed());
    assert_eq!(object.ref_count(), 0);
}

#[test]
fn as_many_releases_as_add_refs_restore_the_count() {
    for n in [0u32, 1, 2, 17, 1000] {
        let mut object = ComObject::new(ADDR, vec![*IAgileObject::iid()]);
        object.add_ref();
        let before = object.ref_count();
        for k in 0..n {
            assert_eq!(object.add_ref(), before + k + 1);
        }
        for k in 0..n {
            assert!(!object.is_destroyed());
            assert_eq!(object.release(), before + n - k - 1);
        }
        assert_eq!(object.ref_count(), before);
        assert!(!object.is_destroyed());
    }
}
