use compute::data::Data;

#[test]
fn slice_size_matches_bytes() {
    let d = Data::Slice(vec![1u8, 2, 3, 4, 5, 6, 7, 8]);
    assert_eq!(d.size(), 8);
    assert_eq!(d.bytes(), vec![1u8, 2, 3, 4, 5, 6, 7, 8]);
    assert_eq!(d.bytes().len(), d.size());
}

#[test]
fn single_size_matches_bytes() {
    let d = Data::Single(vec![42u8, 0, 0, 0]);
    assert_eq!(d.size(), 4);
    assert_eq!(d.bytes(), vec![42u8, 0, 0, 0]);
    assert_eq!(d.bytes().len(), d.size());
}

#[test]
fn empty_is_zero_filled() {
    let d = Data::Empty(5);
    assert_eq!(d.size(), 5);
    assert_eq!(d.bytes(), vec![0u8; 5]);
    assert_eq!(d.bytes().len(), d.size());
}

#[test]
fn empty_zero_boundary() {
    let d = Data::Empty(0);
    assert_eq!(d.size(), 0);
    assert_eq!(d.bytes(), Vec::<u8>::new());
}

#[test]
fn from_vec_keeps_bytes() {
    let d = Data::from(vec![9u8, 8, 7]);
    assert!(matches!(d, Data::Slice(_)));
    assert_eq!(d.size(), 3);
    assert_eq!(d.bytes(), vec![9u8, 8, 7]);
}
