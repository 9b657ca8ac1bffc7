use vstd::prelude::*;
use vstd::slice::slice_subrange;

use crate::flatten::{max_arity, AsUsize, CResult, CollectIntoArray, Handle};

verus! {

/// Failures while moving data across the boundary.
#[derive(Clone, Copy, Debug, PartialEq, Eq, Structural)]
pub enum MarshalError {
    /// A region that reaches past the end of the hosted array.
    OutOfBounds,
}

/// An element type that crosses the boundary inside a typed hosted array.
/// Its hosted counterpart has the same width and the same bits, read as a
/// signed integer: a byte array for 1-byte elements, a short array for 2,
/// an int array for 4, a long array for 8.
pub trait BoundaryElem: Copy + Sized {
    type Host: Copy;

    /// The hosted element with the same bits.
    spec fn host_of(v: Self) -> Self::Host;

    /// The native element with the same bits.
    spec fn native_of(h: Self::Host) -> Self;

    spec fn zero_value() -> Self;

    proof fn lemma_native_host(v: Self)
        ensures
            Self::native_of(Self::host_of(v)) == v,
    ;

    proof fn lemma_host_native(h: Self::Host)
        ensures
            Self::host_of(Self::native_of(h)) == h,
    ;

    fn to_host(v: Self) -> (r: Self::Host)
        ensures
            r == Self::host_of(v),
    ;

    fn to_native(h: Self::Host) -> (r: Self)
        ensures
            r == Self::native_of(h),
    ;

    fn zero() -> (r: Self)
        ensures
            r == Self::zero_value(),
    ;
}

impl BoundaryElem for u8 {
    type Host = i8;

    open spec fn host_of(v: u8) -> i8 {
        v as i8
    }

    open spec fn native_of(h: i8) -> u8 {
        h as u8
    }

    open spec fn zero_value() -> u8 {
        0
    }

    proof fn lemma_native_host(v: u8) {
        assert((v as i8) as u8 == v) by (bit_vector);
    }

    proof fn lemma_host_native(h: i8) {
        assert((h as u8) as i8 == h) by (bit_vector);
    }

    fn to_host(v: u8) -> (r: i8) {
        v as i8
    }

    fn to_native(h: i8) -> (r: u8) {
        h as u8
    }

    fn zero() -> (r: u8) {
        0
    }
}

impl BoundaryElem for u16 {
    type Host = i16;

    open spec fn host_of(v: u16) -> i16 {
        v as i16
    }

    open spec fn native_of(h: i16) -> u16 {
        h as u16
    }

    open spec fn zero_value() -> u16 {
        0
    }

    proof fn lemma_native_host(v: u16) {
        assert((v as i16) as u16 == v) by (bit_vector);
    }

    proof fn lemma_host_native(h: i16) {
        assert((h as u16) as i16 == h) by (bit_vector);
    }

    fn to_host(v: u16) -> (r: i16) {
        v as i16
    }

    fn to_native(h: i16) -> (r: u16) {
        h as u16
    }

    fn zero() -> (r: u16) {
        0
    }
}

impl BoundaryElem for u32 {
    type Host = i32;

    open spec fn host_of(v: u32) -> i32 {
        v as i32
    }

    open spec fn native_of(h: i32) -> u32 {
        h as u32
    }

    open spec fn zero_value() -> u32 {
        0
    }

    proof fn lemma_native_host(v: u32) {
        assert((v as i32) as u32 == v) by (bit_vector);
    }

    proof fn lemma_host_native(h: i32) {
        assert((h as u32) as i32 == h) by (bit_vector);
    }

    fn to_host(v: u32) -> (r: i32) {
        v as i32
    }

    fn to_native(h: i32) -> (r: u32) {
        h as u32
    }

    fn zero() -> (r: u32) {
        0
    }
}

impl BoundaryElem for u64 {
    type Host = i64;

    open spec fn host_of(v: u64) -> i64 {
        v as i64
    }

    open spec fn native_of(h: i64) -> u64 {
        h as u64
    }

    open spec fn zero_value() -> u64 {
        0
    }

    proof fn lemma_native_host(v: u64) {
        assert((v as i64) as u64 == v) by (bit_vector);
    }

    proof fn lemma_host_native(h: i64) {
        assert((h as u64) as i64 == h) by (bit_vector);
    }

    fn to_host(v: u64) -> (r: i64) {
        v as i64
    }

    fn to_native(h: i64) -> (r: u64) {
        h as u64
    }

    fn zero() -> (r: u64) {
        0
    }
}

/// Native elements as the hosted runtime sees them.
pub open spec fn host_seq<N: BoundaryElem>(s: Seq<N>) -> Seq<N::Host> {
    s.map_values(|v: N| N::host_of(v))
}

/// Hosted elements as native code sees them.
pub open spec fn native_seq<N: BoundaryElem>(s: Seq<N::Host>) -> Seq<N> {
    s.map_values(|h: N::Host| N::native_of(h))
}

/// Native elements in the hosted element type, one by one.
pub fn native_to_host<N: BoundaryElem>(native: &[N]) -> (r: Vec<N::Host>)
    ensures
        r@ == host_seq(native@),
{
    let mut r: Vec<N::Host> = Vec::new();
    let mut i: usize = 0;
    while i < native.len()
        invariant
            i <= native@.len(),
            r@ == host_seq(native@.subrange(0, i as int)),
        decreases native@.len() - i,
    {
        r.push(N::to_host(native[i]));
        assert(r@ =~= host_seq(native@.subrange(0, i as int + 1)));
        i += 1;
    }
    assert(native@.subrange(0, native@.len() as int) =~= native@);
    r
}

/// Hosted elements in the native element type, one by one.
pub fn host_to_native<N: BoundaryElem>(host: &[N::Host]) -> (r: Vec<N>)
    ensures
        r@ == native_seq::<N>(host@),
{
    let mut r: Vec<N> = Vec::new();
    let mut i: usize = 0;
    while i < host.len()
        invariant
            i <= host@.len(),
            r@ == native_seq::<N>(host@.subrange(0, i as int)),
        decreases host@.len() - i,
    {
        r.push(N::to_native(host[i]));
        assert(r@ =~= native_seq::<N>(host@.subrange(0, i as int + 1)));
        i += 1;
    }
    assert(host@.subrange(0, host@.len() as int) =~= host@);
    r
}

/// The native copy of `len` elements of a hosted array from `offset` on, as
/// the hosted side makes it for an expanded slice or a read-only fixed array;
/// an error where the region reaches past the end of the array.
pub fn copy_region<N: BoundaryElem>(host: &[N::Host], offset: u32, len: u32) -> (r: Result<
    Vec<N>,
    MarshalError,
>)
    ensures
        offset as int + len as int <= host@.len() <==> r is Ok,
        r matches Ok(v) ==> v@ == native_seq::<N>(
            host@.subrange(offset as int, offset as int + len as int),
        ),
        r matches Err(e) ==> e == MarshalError::OutOfBounds,
{
    let n = host.len();
    if offset as usize > n || len as usize > n - offset as usize {
        return Err(MarshalError::OutOfBounds);
    }
    let start = offset as usize;
    let mut r: Vec<N> = Vec::new();
    let mut i: usize = 0;
    while i < len as usize
        invariant
            n == host@.len(),
            start == offset,
            start + len <= n,
            i <= len,
            r@ == native_seq::<N>(host@.subrange(start as int, start + i)),
        decreases len - i,
    {
        r.push(N::to_native(host[start + i]));
        assert(r@ =~= native_seq::<N>(host@.subrange(start as int, start + i + 1)));
        i += 1;
    }
    Ok(r)
}

/// The slice that the flat side rebuilds from an address and a length: empty
/// for length zero, the first `len` elements of the buffer otherwise.
pub fn slice_view<T>(native: &[T], len: u32) -> (r: &[T])
    requires
        len as int <= native@.len(),
    ensures
        r@ == native@.subrange(0, len as int),
{
    if len == 0 {
        assert(native@.subrange(0, 0) =~= Seq::<T>::empty());
        &[]
    } else {
        slice_subrange(native, 0, len as usize)
    }
}

/// The native array of `n` zero elements that a mutable fixed array starts
/// from.
pub fn zeroed<N: BoundaryElem>(n: usize) -> (r: Vec<N>)
    ensures
        r@ == Seq::new(n as nat, |i: int| N::zero_value()),
{
    let mut r: Vec<N> = Vec::new();
    while r.len() < n
        invariant
            r@.len() <= n,
            forall|i: int| 0 <= i < r@.len() ==> r@[i] == N::zero_value(),
        decreases n - r@.len(),
    {
        r.push(N::zero());
    }
    assert(r@ =~= Seq::new(n as nat, |i: int| N::zero_value()));
    r
}

/// Writes a native array back into the start of the hosted array it was made
/// from, as the hosted side does after the call for a mutable fixed array of
/// any element width. The hosted array then shows the native contents as
/// they were after the call; an error, with the hosted array untouched, where
/// it is shorter.
pub fn copy_back<N: BoundaryElem>(host: &mut Vec<N::Host>, native: &[N]) -> (r: Result<
    (),
    MarshalError,
>)
    ensures
        r is Ok <==> native@.len() <= old(host)@.len(),
        r is Ok ==> final(host)@ == host_seq(native@) + old(host)@.subrange(
            native@.len() as int,
            old(host)@.len() as int,
        ),
        r is Err ==> final(host)@ == old(host)@ && r == Err::<(), MarshalError>(
            MarshalError::OutOfBounds,
        ),
{
    if native.len() > host.len() {
        return Err(MarshalError::OutOfBounds);
    }
    let ghost start = host@;
    let mut i: usize = 0;
    while i < native.len()
        invariant
            native@.len() <= start.len(),
            i <= native@.len(),
            host@.len() == start.len(),
            forall|j: int| 0 <= j < i ==> host@[j] == N::host_of(#[trigger] native@[j]),
            forall|j: int| i <= j < start.len() ==> #[trigger] host@[j] == start[j],
        decreases native@.len() - i,
    {
        host.set(i, N::to_host(native[i]));
        i += 1;
    }
    assert(host@ =~= host_seq(native@) + start.subrange(native@.len() as int, start.len() as int));
    Ok(())
}

/// The hosted long that stands for an optional handle: zero when absent, the
/// bits of the address otherwise.
pub open spec fn optional_handle_long(h: Option<Handle>) -> i64 {
    match h {
        None => 0,
        Some(h) => h.address() as i64,
    }
}

pub fn encode_optional_handle(h: Option<Handle>) -> (r: i64)
    ensures
        r == optional_handle_long(h),
{
    match h {
        None => 0,
        Some(x) => x.addr() as i64,
    }
}

/// The address that a hosted long stands for, if any: the long's bits as
/// an address, absent when those are null.
pub open spec fn decoded_address(v: i64) -> Option<usize> {
    if v as usize == 0 {
        None
    } else {
        Some(v as usize)
    }
}

/// The address of an optional handle, if any.
pub open spec fn handle_address(h: Option<Handle>) -> Option<usize> {
    match h {
        None => None,
        Some(h) => Some(h.address()),
    }
}

/// The optional handle that a hosted long stands for.
pub fn decode_optional_handle(v: i64) -> (r: Option<Handle>)
    ensures
        handle_address(r) == decoded_address(v),
{
    Handle::new(#[verifier::truncate] (v as usize))
}

proof fn lemma_address_bits(a: usize)
    ensures
        (a as i64) as usize == a,
        a != 0 ==> a as i64 != 0,
{
    assert((a as i64) as usize == a) by (bit_vector);
    assert(a != 0 ==> a as i64 != 0) by (bit_vector);
}

/// Values come back unchanged from a trip across the boundary, for every
/// element width: elements keep their bits both ways; a region copied out of
/// a hosted array from `offset` and rebuilt on the flat side as a slice holds
/// the same elements, in the same order, and has the same length, which
/// covers expanded slices and read-only fixed arrays; an optional handle
/// keeps its presence and its address.
pub proof fn lemma_round_trip<N: BoundaryElem>(
    native: Seq<N>,
    host: Seq<N::Host>,
    offset: nat,
    len: nat,
    h: Option<Handle>,
)
    requires
        offset + len <= host.len(),
        h matches Some(x) ==> x.address() != 0,
    ensures
        native_seq::<N>(host_seq(native)) == native,
        host_seq(native_seq::<N>(host)) == host,
        native_seq::<N>(host.subrange(offset as int, (offset + len) as int)).len() == len,
        host_seq(
            native_seq::<N>(host.subrange(offset as int, (offset + len) as int)).subrange(0, len as int),
        ) == host.subrange(offset as int, (offset + len) as int),
        decoded_address(optional_handle_long(h)) == handle_address(h),
{
    assert forall|i: int| 0 <= i < native.len() implies native_seq::<N>(host_seq(native))[i]
        == native[i] by {
        N::lemma_native_host(native[i]);
    }
    assert(native_seq::<N>(host_seq(native)) =~= native);
    assert forall|i: int| 0 <= i < host.len() implies host_seq(native_seq::<N>(host))[i]
        == host[i] by {
        N::lemma_host_native(host[i]);
    }
    assert(host_seq(native_seq::<N>(host)) =~= host);
    let region = host.subrange(offset as int, (offset + len) as int);
    assert(native_seq::<N>(region).subrange(0, len as int) =~= native_seq::<N>(region));
    assert forall|i: int| 0 <= i < region.len() implies host_seq(native_seq::<N>(region))[i]
        == region[i] by {
        N::lemma_host_native(region[i]);
    }
    assert(host_seq(native_seq::<N>(region)) =~= region);
    match h {
        None => {},
        Some(x) => {
            lemma_address_bits(x.address());
        },
    }
}

/// The hosted buffer of a structure-return call holds `v` when it has exactly
/// the type's slot count and starts with the value's words.
pub open spec fn frame_holds<T: AsUsize>(buf: Seq<i64>, v: T) -> bool {
    &&& buf.len() == T::arity()
    &&& forall|i: int| 0 <= i < v.words().len() ==> buf[i] == #[trigger] v.words()[i] as i64
}

/// Every word of `v` fits a hosted long.
pub open spec fn words_fit_longs<T: AsUsize>(v: T) -> bool {
    forall|i: int| 0 <= i < v.words().len() ==> #[trigger] v.words()[i] <= i64::MAX
}

fn to_longs(words: &Vec<usize>) -> (r: Vec<i64>)
    requires
        forall|i: int| 0 <= i < words@.len() ==> #[trigger] words@[i] <= i64::MAX,
    ensures
        r@.len() == words@.len(),
        forall|i: int| 0 <= i < words@.len() ==> r@[i] == #[trigger] words@[i] as i64,
{
    let mut r: Vec<i64> = Vec::new();
    let mut i: usize = 0;
    while i < words.len()
        invariant
            i <= words@.len(),
            forall|j: int| 0 <= j < words@.len() ==> #[trigger] words@[j] <= i64::MAX,
            r@.len() == i,
            forall|j: int| 0 <= j < i ==> r@[j] == #[trigger] words@[j] as i64,
        decreases words@.len() - i,
    {
        r.push(words[i] as i64);
        i += 1;
    }
    r
}

/// The buffer that the hosted side of a structure-return call fills: exactly
/// as many longs as the type has slots, starting with the value's words.
pub fn result_longs<T: AsUsize>(value: &T) -> (r: Vec<i64>)
    requires
        T::arity() <= usize::MAX,
        words_fit_longs(*value),
    ensures
        frame_holds(r@, *value),
{
    let n = T::word_count();
    let words = value.as_usize();
    proof {
        value.lemma_words_fit();
    }
    let longs = to_longs(&words);
    let r = longs.collect_into_array(n);
    assert forall|i: int| 0 <= i < value.words().len() implies r@[i] == #[trigger] value.words()[i]
        as i64 by {
        assert(r@.subrange(0, longs@.len() as int)[i] == r@[i]);
    }
    r
}

/// The slot count of a structure-return buffer depends on the type alone:
/// any two values of one type fill buffers of the same length.
pub proof fn lemma_arity_depends_on_type_alone<T: AsUsize>(
    a: T,
    b: T,
    buf_a: Seq<i64>,
    buf_b: Seq<i64>,
)
    requires
        frame_holds(buf_a, a),
        frame_holds(buf_b, b),
    ensures
        buf_a.len() == buf_b.len(),
        buf_a.len() == T::arity(),
        a.words().len() <= buf_a.len(),
        b.words().len() <= buf_b.len(),
{
    a.lemma_words_fit();
    b.lemma_words_fit();
}

/// A tagged result fills its buffer with discriminant 0 and the success words,
/// or with discriminant 1 and the failure words; the buffer always has one
/// slot more than the larger branch, whichever branch is active.
pub proof fn lemma_tagged_result_frame<T: AsUsize, E: AsUsize>(r: CResult<T, E>, buf: Seq<i64>)
    requires
        frame_holds(buf, r),
    ensures
        buf.len() == 1 + max_arity(T::arity(), E::arity()),
        r matches CResult::Success(v) ==> buf[0] == 0 && forall|i: int|
            0 <= i < v.words().len() ==> buf[1 + i] == #[trigger] v.words()[i] as i64,
        r matches CResult::Failure(e) ==> buf[0] == 1 && forall|i: int|
            0 <= i < e.words().len() ==> buf[1 + i] == #[trigger] e.words()[i] as i64,
{
    r.lemma_words_fit();
    match r {
        CResult::Success(v) => {
            assert(r.words()[0] == 0usize);
            assert forall|i: int| 0 <= i < v.words().len() implies buf[1 + i]
                == #[trigger] v.words()[i] as i64 by {
                assert(r.words()[1 + i] == v.words()[i]);
            }
        },
        CResult::Failure(e) => {
            assert(r.words()[0] == 1usize);
            assert forall|i: int| 0 <= i < e.words().len() implies buf[1 + i]
                == #[trigger] e.words()[i] as i64 by {
                assert(r.words()[1 + i] == e.words()[i]);
            }
        },
    }
}

} // verus!
