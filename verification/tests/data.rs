use can_frame::Data;

#[test]
fn new_accepts_every_length_up_to_eight() {
    let source: [u8; 8] = [10, 11, 12, 13, 14, 15, 16, 17];
    for n in 0..=8usize {
        let data = Data::new(&source[..n]).unwrap();
        assert_eq!(data.len(), n);
        assert_eq!(data.is_empty(), n == 0);
        assert_eq!(data.as_ref(), &source[..n]);
    }
}

#[test]
fn new_rejects_nine_bytes() {
    assert_eq!(Data::new(&[0u8; 9]), None);
}

#[test]
fn new_rejects_long_slices_without_truncating() {
    let long = vec![7u8; 64];
    assert!(Data::new(&long).is_none());
    assert!(Data::new(&long[..8]).is_some());
}

#[test]
fn empty_has_no_bytes() {
    let data = Data::empty();
    assert_eq!(data.len(), 0);
    assert!(data.is_empty());
    assert_eq!(data.as_ref(), &[] as &[u8]);
    assert_eq!(data, Data::new(&[]).unwrap());
}

#[test]
fn from_array_of_zero_bytes() {
    let data = Data::from([]);
    assert_eq!(data.len(), 0);
    assert_eq!(data.as_ref(), &[] as &[u8]);
}

#[test]
fn from_array_of_one_byte() {
    let data = Data::from([0xA1]);
    assert_eq!(data.len(), 1);
    assert_eq!(data.as_ref(), &[0xA1]);
}

#[test]
fn from_array_of_two_bytes() {
    let data = Data::from([1, 2]);
    assert_eq!(data.len(), 2);
    assert_eq!(data.as_ref(), &[1, 2]);
}

#[test]
fn from_array_of_three_bytes() {
    let data = Data::from([1, 2, 3]);
    assert_eq!(data.len(), 3);
    assert_eq!(data.as_ref(), &[1, 2, 3]);
}

#[test]
fn from_array_of_four_bytes() {
    let data = Data::from([4, 3, 2, 1]);
    assert_eq!(data.len(), 4);
    assert_eq!(data.as_ref(), &[4, 3, 2, 1]);
}

#[test]
fn from_array_of_five_bytes() {
    let data = Data::from([0, 0, 0, 0, 5]);
    assert_eq!(data.len(), 5);
    assert_eq!(data.as_ref(), &[0, 0, 0, 0, 5]);
}

#[test]
fn from_array_of_six_bytes() {
    let data = Data::from([6, 5, 4, 3, 2, 1]);
    assert_eq!(data.len(), 6);
    assert_eq!(data.as_ref(), &[6, 5, 4, 3, 2, 1]);
}

#[test]
fn from_array_of_seven_bytes() {
    let data = Data::from([1, 2, 3, 4, 5, 6, 7]);
    assert_eq!(data.len(), 7);
    assert_eq!(data.as_ref(), &[1, 2, 3, 4, 5, 6, 7]);
}

#[test]
fn from_array_of_eight_bytes() {
    let data = Data::from([0xFF, 2, 3, 4, 5, 6, 7, 0x80]);
    assert_eq!(data.len(), 8);
    assert!(!data.is_empty());
    assert_eq!(data.as_ref(), &[0xFF, 2, 3, 4, 5, 6, 7, 0x80]);
}

#[test]
fn into_gives_the_same_payload_as_new() {
    let data: Data = [9, 8, 7].into();
    assert_eq!(data, Data::new(&[9, 8, 7]).unwrap());
}

#[test]
fn deref_is_bounded_by_the_length() {
    let data = Data::from([5, 6]);
    let bytes: &[u8] = &data;
    assert_eq!(bytes.len(), 2);
    assert_eq!(bytes, &[5, 6]);
    assert_eq!(data[0], 5);
    assert_eq!(data[1], 6);
    assert_eq!(data.iter().count(), 2);
    assert_eq!(data.get(2), None);
}

#[test]
fn writing_through_the_view_keeps_the_length() {
    let mut data = Data::from([1, 2, 3]);
    data.as_mut()[0] = 9;
    data[2] = 7;
    assert_eq!(data.len(), 3);
    assert_eq!(data.as_ref(), &[9, 2, 7]);
    for byte in data.iter_mut() {
        *byte += 1;
    }
    assert_eq!(data.as_ref(), &[10, 3, 8]);
    assert_eq!(data.as_mut().len(), 3);
}

#[test]
fn mutable_view_of_an_empty_payload_is_empty() {
    let mut data = Data::empty();
    assert!(data.as_mut().is_empty());
    let view: &mut [u8] = &mut data;
    assert_eq!(view.len(), 0);
}

#[test]
fn equality_compares_the_payload_bytes() {
    assert_eq!(Data::from([1, 2, 3]), Data::new(&[1, 2, 3]).unwrap());
    assert_ne!(Data::from([1, 2, 3]), Data::from([1, 2, 4]));
    assert_ne!(Data::from([1, 2, 3]), Data::from([1, 2]));
    assert_ne!(Data::from([0]), Data::empty());
    assert_ne!(Data::from([1, 2, 3]), Data::from([1, 2, 3, 0]));
}

#[test]
fn equality_after_shrinking_the_content_to_zeros() {
    let mut a = Data::from([4, 5]);
    a[0] = 0;
    a[1] = 0;
    assert_eq!(a, Data::from([0, 0]));
    assert_ne!(a, Data::empty());
}

#[test]
fn copies_are_independent() {
    let a = Data::from([1, 2]);
    let mut b = a;
    b[0] = 3;
    assert_eq!(a.as_ref(), &[1, 2]);
    assert_eq!(b.as_ref(), &[3, 2]);
    assert_eq!(a.clone(), a);
}
