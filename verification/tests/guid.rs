use winrt::Guid;

fn sample() -> Guid {
    Guid {
        data1: 0x82BA7092,
        data2: 0x4C88,
        data3: 0x427D,
        data4: [0xA7, 0xBC, 0x16, 0xDD, 0x93, 0xFE, 0xB6, 0x7E],
    }
}

#[test]
fn guid_equals_itself_and_its_copy() {
    let a = sample();
    let b = a;
    assert!(a == a);
    assert!(a == b);
    assert_eq!(a, sample());
}

#[test]
fn guid_differs_when_a_word_differs() {
    let a = sample();
    assert_ne!(a, Guid { data1: a.data1 ^ 1, ..a });
    assert_ne!(a, Guid { data2: a.data2 ^ 0x8000, ..a });
    assert_ne!(a, Guid { data3: a.data3 + 1, ..a });
}

#[test]
fn guid_differs_when_any_single_byte_differs() {
    let a = sample();
    for i in 0..8 {
        let mut bytes = a.data4;
        bytes[i] ^= 0x01;
        let b = Guid { data4: bytes, ..a };
        assert!(a != b);
        assert!(!(a == b));
    }
}

#[test]
fn zero_guid_is_not_the_root_identifier() {
    let zero = Guid { data1: 0, data2: 0, data3: 0, data4: [0; 8] };
    let root = Guid { data1: 0, data2: 0, data3: 0, data4: [0xC0, 0, 0, 0, 0, 0, 0, 0x46] };
    assert_ne!(zero, root);
}
