use winrt::{ComIid, ComInterface, Guid, IAgileObject, IRestrictedErrorInfo, IUnknown};

fn iid_of<T: ComIid>() -> Guid {
    *T::iid()
}

fn same_table<A, B>() -> bool
where
    A: ComInterface,
    B: ComInterface<Vtbl = A::Vtbl>,
{
    true
}

#[test]
fn root_interface_identifier() {
    assert_eq!(
        *IUnknown::iid(),
        Guid { data1: 0x00000000, data2: 0x0000, data3: 0x0000, data4: [0xC0, 0, 0, 0, 0, 0, 0, 0x46] }
    );
}

#[test]
fn restricted_error_info_identifier() {
    assert_eq!(
        *IRestrictedErrorInfo::iid(),
        Guid {
            data1: 0x82BA7092,
            data2: 0x4C88,
            data3: 0x427D,
            data4: [0xA7, 0xBC, 0x16, 0xDD, 0x93, 0xFE, 0xB6, 0x7E]
        }
    );
}

#[test]
fn agile_object_identifier() {
    assert_eq!(
        *IAgileObject::iid(),
        Guid {
            data1: 0x94EA2B94,
            data2: 0xE9CC,
            data3: 0x49E0,
            data4: [0xC0, 0xFF, 0xEE, 0x64, 0xCA, 0x8F, 0x5B, 0x90]
        }
    );
}

#[test]
fn identifiers_are_pairwise_distinct() {
    let ids = [iid_of::<IUnknown>(), iid_of::<IRestrictedErrorInfo>(), iid_of::<IAgileObject>()];
    for i in 0..ids.len() {
        for j in 0..ids.len() {
            assert_eq!(ids[i] == ids[j], i == j);
        }
    }
}

#[test]
fn identifier_lookup_is_stable() {
    assert_eq!(iid_of::<IAgileObject>(), iid_of::<IAgileObject>());
    assert_eq!(iid_of::<IUnknown>(), *IUnknown::iid());
    assert_eq!(IUnknown::iid(), IUnknown::iid());
}

#[test]
fn agile_object_shares_the_table_of_the_root_interface() {
    assert!(same_table::<IUnknown, IAgileObject>());
}
