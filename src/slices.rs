use vstd::prelude::*;

use crate::flatten::Handle;

verus! {

/// An owned run of elements handed out to the hosted side.
pub type Slice<T> = Box<[T]>;

/// An owned run of bytes handed out to the hosted side.
pub type ByteSlice = Slice<u8>;

/// An owned run of handles handed out to the hosted side.
pub type PtrSlice = Slice<Handle>;

/// The 32-bit length that crosses the boundary for a slice of `n` elements,
/// cut to its low 32 bits.
pub open spec fn boundary_len(n: nat) -> u32 {
    n as u32
}

/// The elements of `slice` from `offset` on, which a copy hands out.
pub open spec fn tail_from<T>(slice: Seq<T>, offset: u32) -> Seq<T> {
    slice.subrange(offset as int, slice.len() as int)
}

/// The output holds exactly the tail of the slice from `offset`, as a copy
/// demands.
pub open spec fn copy_fits(len: nat, offset: u32, out_len: nat, length: u32) -> bool {
    &&& offset as nat <= len
    &&& len - offset as nat == length as nat
    &&& out_len == length as nat
}

/// Copies the tail of `slice` from `offset` into `out`, which is exactly as
/// long as that tail.
fn copy_tail<T: Copy>(slice: &[T], offset: u32, out: &mut [T])
    requires
        offset as nat <= slice@.len(),
        old(out)@.len() == slice@.len() - offset as nat,
    ensures
        final(out)@ == tail_from(slice@, offset),
{
    let start = offset as usize;
    let total = slice.len();
    let n = out.len();
    let mut i: usize = 0;
    while i < n
        invariant
            start == offset,
            total == slice@.len(),
            n == out@.len(),
            start + n == total,
            i <= n,
            forall|j: int| 0 <= j < i ==> out@[j] == #[trigger] slice@[start + j],
        decreases n - i,
    {
        out[i] = slice[start + i];
        i += 1;
    }
    assert forall|j: int| 0 <= j < out@.len() implies out@[j] == tail_from(slice@, offset)[j] by {
        assert(out@[j] == slice@[start + j]);
    }
    assert(out@ =~= tail_from(slice@, offset));
}

/// The number of bytes of an owned byte slice, as a 32-bit length.
pub fn vodozemac_byte_slice_len(slice: &ByteSlice) -> (r: u32)
    ensures
        r == boundary_len(slice@.len()),
{
    slice.len() as u32
}

/// Releases an owned byte slice.
pub fn vodozemac_byte_slice_free(slice: Box<ByteSlice>) {
    let _released = slice;
}

/// Copies the bytes of `slice` from `offset` on into `slice_out`. Nothing is
/// written when no output is given or the length is zero.
pub fn vodozemac_byte_slice_copy_into(
    slice: &ByteSlice,
    offset: u32,
    slice_out: Option<&mut [u8]>,
    length: u32,
)
    requires
        slice_out matches Some(out) ==> length != 0 ==> copy_fits(
            slice@.len(),
            offset,
            out@.len(),
            length,
        ),
    ensures
        slice_out matches Some(out) ==> length != 0 ==> final(out)@ == tail_from(slice@, offset),
        slice_out matches Some(out) ==> length == 0 ==> final(out)@ == out@,
{
    if length == 0 {
        return ;
    }
    match slice_out {
        Some(out) => copy_tail(slice, offset, out),
        None => {},
    }
}

/// The number of handles of an owned handle slice, as a 32-bit length.
pub fn vodozemac_ptr_slice_len(slice: &PtrSlice) -> (r: u32)
    ensures
        r == boundary_len(slice@.len()),
{
    slice.len() as u32
}

/// Releases an owned handle slice.
pub fn vodozemac_ptr_slice_free(slice: Box<PtrSlice>) {
    let _released = slice;
}

/// Copies the handles of `slice` from `offset` on into `slice_out`. Nothing
/// is written when no output is given or the length is zero.
pub fn vodozemac_ptr_slice_copy_into(
    slice: &PtrSlice,
    offset: u32,
    slice_out: Option<&mut [Handle]>,
    length: u32,
)
    requires
        slice_out matches Some(out) ==> length != 0 ==> copy_fits(
            slice@.len(),
            offset,
            out@.len(),
            length,
        ),
    ensures
        slice_out matches Some(out) ==> length != 0 ==> final(out)@ == tail_from(slice@, offset),
        slice_out matches Some(out) ==> length == 0 ==> final(out)@ == out@,
{
    if length == 0 {
        return ;
    }
    match slice_out {
        Some(out) => copy_tail(slice, offset, out),
        None => {},
    }
}

} // verus!
