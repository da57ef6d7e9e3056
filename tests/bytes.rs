use rocksdb_rs::bytes::{char_ptr_to_bytes, char_ptr_to_bytes_and_size, default_slice, Slice};

#[test]
fn from_raw_with_size_zero_reports_zero() {
    let slice = Slice::from_raw_with_size(b"", 0);
    assert_eq!(slice.size(), 0);
    assert_eq!(slice.data(), b"\0");
    let slice = Slice::from_raw_with_size(b"abc\0def", 0);
    assert_eq!(slice.size(), 0);
}

#[test]
fn from_raw_with_size_keeps_interior_nul() {
    let slice = Slice::from_raw_with_size(b"ab\0cd-ignored", 5);
    assert_eq!(slice.size(), 5);
    assert_eq!(slice.data(), b"ab\0cd\0");
}

#[test]
fn from_raw_null_is_empty() {
    let slice = Slice::from_raw(None);
    assert_eq!(slice.size(), 0);
    assert_eq!(slice.data(), b"\0");
    assert_eq!(slice, default_slice());
    assert_eq!(slice, Slice::default());
}

#[test]
fn from_raw_scans_for_terminator() {
    let slice = Slice::from_raw(Some(b"hello\0world\0"));
    assert_eq!(slice.size(), 5);
    assert_eq!(slice.data(), b"hello\0");
    let slice = Slice::from_raw(Some(b"\0"));
    assert_eq!(slice.size(), 0);
    assert_eq!(slice.data(), b"\0");
}

#[test]
fn slice_setters() {
    let mut slice = Slice::from_raw(Some(b"abc\0"));
    slice.set_size(1);
    assert_eq!(slice.size(), 1);
    assert_eq!(slice.data(), b"abc\0");
    slice.set_data(b"xy\0z");
    assert_eq!(slice.data(), b"xy\0");
    assert_eq!(slice.size(), 1);
}

#[test]
fn char_ptr_copies() {
    assert_eq!(char_ptr_to_bytes(None), Vec::<u8>::new());
    assert_eq!(char_ptr_to_bytes(Some(b"key\0rest")), b"key\0".to_vec());
    assert_eq!(char_ptr_to_bytes_and_size(None), (Vec::new(), 0));
    assert_eq!(char_ptr_to_bytes_and_size(Some(b"key\0")), (b"key\0".to_vec(), 3));
}
