use jni_bindgen::flatten::Handle;
use jni_bindgen::slices::{
    vodozemac_byte_slice_copy_into, vodozemac_byte_slice_free, vodozemac_byte_slice_len,
    vodozemac_ptr_slice_copy_into, vodozemac_ptr_slice_free, vodozemac_ptr_slice_len, ByteSlice,
    PtrSlice,
};

#[test]
fn byte_slice_length() {
    let s: ByteSlice = vec![1u8, 2, 3, 4, 5].into_boxed_slice();
    assert_eq!(vodozemac_byte_slice_len(&s), 5);
    let empty: ByteSlice = Vec::new().into_boxed_slice();
    assert_eq!(vodozemac_byte_slice_len(&empty), 0);
    vodozemac_byte_slice_free(Box::new(s));
}

#[test]
fn byte_slice_copy_from_offset() {
    let s: ByteSlice = vec![1u8, 2, 3, 4, 5].into_boxed_slice();
    let mut out = [0u8; 3];
    vodozemac_byte_slice_copy_into(&s, 2, Some(&mut out[..]), 3);
    assert_eq!(out, [3, 4, 5]);
    let mut whole = [0u8; 5];
    vodozemac_byte_slice_copy_into(&s, 0, Some(&mut whole[..]), 5);
    assert_eq!(whole, [1, 2, 3, 4, 5]);
}

#[test]
fn byte_slice_copy_nothing() {
    let s: ByteSlice = vec![9u8, 8].into_boxed_slice();
    vodozemac_byte_slice_copy_into(&s, 0, None, 2);
    let mut out = [7u8; 2];
    vodozemac_byte_slice_copy_into(&s, 0, Some(&mut out[..]), 0);
    assert_eq!(out, [7, 7]);
}

#[test]
fn ptr_slice_copy() {
    let handles: PtrSlice = vec![
        Handle::new(0x10).unwrap(),
        Handle::new(0x20).unwrap(),
        Handle::new(0x30).unwrap(),
    ]
    .into_boxed_slice();
    assert_eq!(vodozemac_ptr_slice_len(&handles), 3);
    let mut out = [Handle::new(1).unwrap(); 2];
    vodozemac_ptr_slice_copy_into(&handles, 1, Some(&mut out[..]), 2);
    assert_eq!(out[0].addr(), 0x20);
    assert_eq!(out[1].addr(), 0x30);
    vodozemac_ptr_slice_free(Box::new(handles));
}
