use jni_bindgen::flatten::{
    AsUsize, CErrorStr, CResult, CSlice, Chain, ChainExact, CollectIntoArray, Either, Handle, ZST,
};
use jni_bindgen::marshal::result_longs;
use jni_bindgen::records::{
    DecryptedMessage, DehydratedDeviceResult, IdentityKeys, InboundCreationResult, OlmMessage,
    OneTimeKeyGenerationResult,
};

fn h(addr: usize) -> Handle {
    Handle::new(addr).unwrap()
}

fn bytes(addr: usize, len: usize) -> CSlice<u8> {
    CSlice::from_parts(h(addr), len)
}

#[test]
fn null_address_is_no_handle() {
    assert!(Handle::new(0).is_none());
    assert_eq!(h(0x1000).addr(), 0x1000);
}

#[test]
fn handle_and_slice_words() {
    assert_eq!(h(0x10).as_usize(), vec![0x10]);
    assert_eq!(Handle::word_count(), 1);
    assert_eq!(bytes(0x20, 7).as_usize(), vec![0x20, 7]);
    assert_eq!(CSlice::<u8>::word_count(), 2);
    assert_eq!(CErrorStr(bytes(0x30, 5)).as_usize(), vec![0x30, 5]);
    assert_eq!(ZST.as_usize(), Vec::<usize>::new());
    assert_eq!(ZST::word_count(), 0);
}

#[test]
fn tagged_result_words() {
    type R = CResult<CSlice<u8>, Handle>;
    let ok: R = CResult::Success(bytes(0x40, 3));
    let err: R = CResult::Failure(h(0x50));
    assert_eq!(ok.as_usize(), vec![0, 0x40, 3]);
    assert_eq!(err.as_usize(), vec![1, 0x50]);
    assert_eq!(R::word_count(), 3);
    let ok_buf = result_longs(&ok);
    let err_buf = result_longs(&err);
    assert_eq!(ok_buf.len(), 3);
    assert_eq!(err_buf.len(), 3);
    assert_eq!(&ok_buf[..], &[0, 0x40, 3]);
    assert_eq!(&err_buf[..2], &[1, 0x50]);
}

#[test]
fn unit_success_result() {
    type R = CResult<ZST, CErrorStr>;
    assert_eq!(R::word_count(), 3);
    let ok: R = CResult::Success(ZST);
    assert_eq!(ok.as_usize(), vec![0]);
    let buf = result_longs(&ok);
    assert_eq!(buf.len(), 3);
    assert_eq!(buf[0], 0);
    let err: R = CResult::Failure(CErrorStr(bytes(0x60, 11)));
    assert_eq!(result_longs(&err), vec![1, 0x60, 11]);
}

#[test]
fn result_buffer_has_arity_three() {
    type R = CResult<CSlice<u8>, CErrorStr>;
    assert_eq!(R::word_count(), 3);
    let ok: R = CResult::Success(bytes(0x70, 4));
    let buf = result_longs(&ok);
    assert_eq!(buf, vec![0, 0x70, 4]);
}

#[test]
fn arity_is_the_same_on_every_call() {
    type R = CResult<DecryptedMessage, CErrorStr>;
    let first = R::word_count();
    let second = R::word_count();
    assert_eq!(first, second);
    assert_eq!(first, 4);
    let a: R = CResult::Success(DecryptedMessage { plaintext: bytes(0x80, 2), message_index: 9 });
    let b: R = CResult::Failure(CErrorStr(bytes(0x90, 1)));
    assert_eq!(result_longs(&a).len(), result_longs(&b).len());
}

#[test]
fn result_from_std_result() {
    let ok: CResult<u32, u8> = CResult::from(Ok::<u32, u8>(5));
    assert!(matches!(ok, CResult::Success(5)));
    let err: CResult<u32, u8> = CResult::from(Err::<u32, u8>(2));
    assert!(matches!(err, CResult::Failure(2)));
}

#[test]
fn either_and_chain_words() {
    let left: Either<Handle, CSlice<u8>> = Either::Left(h(0xa0));
    let right: Either<Handle, CSlice<u8>> = Either::Right(bytes(0xb0, 6));
    assert_eq!(left.as_usize(), vec![0xa0]);
    assert_eq!(right.as_usize(), vec![0xb0, 6]);
    assert_eq!(Either::<Handle, CSlice<u8>>::word_count(), 2);
    let chained: Chain<Handle, CSlice<u8>> = h(0xc0).chain_exact(bytes(0xd0, 8));
    assert_eq!(chained.as_usize(), vec![0xc0, 0xd0, 8]);
    assert_eq!(Chain::<Handle, CSlice<u8>>::word_count(), 3);
}

#[test]
fn collect_pads_to_length() {
    let out = vec![4i64, 5].collect_into_array(5);
    assert_eq!(out.len(), 5);
    assert_eq!(&out[..2], &[4, 5]);
    let exact = vec![1i64, 2, 3].collect_into_array(3);
    assert_eq!(exact, vec![1, 2, 3]);
    let empty = Vec::<i64>::new().collect_into_array(0);
    assert!(empty.is_empty());
}

#[test]
fn record_words() {
    let m = DecryptedMessage { plaintext: bytes(0x100, 12), message_index: 7 };
    assert_eq!(m.as_usize(), vec![0x100, 12, 7]);
    let d = DehydratedDeviceResult { ciphertext: bytes(0x200, 30), nonce: bytes(0x300, 16) };
    assert_eq!(d.as_usize(), vec![0x200, 30, 0x300, 16]);
    assert_eq!(DehydratedDeviceResult::word_count(), 4);
    let k = IdentityKeys { ed25519: h(0x400), curve25519: h(0x500) };
    assert_eq!(k.as_usize(), vec![0x400, 0x500]);
    let c = InboundCreationResult { plaintext: bytes(0x600, 3), session: h(0x700) };
    assert_eq!(c.as_usize(), vec![0x600, 3, 0x700]);
    let g = OneTimeKeyGenerationResult {
        created: CSlice::from_parts(h(0x800), 2),
        removed: CSlice::from_parts(h(0x900), 0),
    };
    assert_eq!(g.as_usize(), vec![0x800, 2, 0x900, 0]);
}

#[test]
fn olm_message_words() {
    let normal = OlmMessage::new(h(0x11), None);
    assert_eq!(normal.as_usize(), vec![0, 0x11]);
    let pre_key = OlmMessage::new(h(0x11), Some(h(0x22)));
    assert_eq!(pre_key.as_usize(), vec![1, 0x11, 0x22]);
    assert_eq!(OlmMessage::word_count(), 3);
    assert_eq!(result_longs(&normal).len(), 3);
}

#[test]
fn unit_becomes_empty_success() {
    let z = ZST::from(());
    assert!(z.as_usize().is_empty());
    let r: CResult<ZST, CErrorStr> = CResult::from(Ok::<ZST, CErrorStr>(z));
    assert_eq!(r.as_usize(), vec![0]);
}
