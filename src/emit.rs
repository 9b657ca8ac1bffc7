use vstd::prelude::*;

use crate::binding::{prim_code, prim_code_of, ArrayLen, ParamClass, Prim, TypeCode};

verus! {

/// One parameter of the flat export.
#[derive(Clone, Copy, Debug, PartialEq, Eq, Structural)]
pub enum FlatParam {
    /// The uninitialised slot that receives the result under structure return.
    ResultSlot,
    /// Declared parameter `index`, passed as declared.
    Direct { index: usize },
    /// The address of the expanded slice at `index`.
    SlicePtr { index: usize, mutable: bool, elem: Prim },
    /// The 32-bit length of the expanded slice at `index`.
    SliceLen { index: usize },
}

/// One parameter of the hosted entry point, after the environment and class.
#[derive(Clone, Copy, Debug, PartialEq, Eq, Structural)]
pub enum HostedParam {
    /// The long array that receives the flattened result.
    ResultArray,
    /// Declared parameter `index`, a value of the given code.
    Value { index: usize, code: TypeCode },
    /// The typed array that carries declared parameter `index`; `kind` is
    /// the code of its elements.
    ArrayObject { index: usize, kind: TypeCode },
    /// The number of elements of the slice at `index`.
    Length { index: usize },
}

/// A marshaling statement that runs before the flat call.
#[derive(Clone, Copy, Debug, PartialEq, Eq, Structural)]
pub enum PreStep {
    /// Copy the first `length` elements of the hosted array into a native buffer.
    CopyRegion { index: usize, elem: Prim },
    /// Copy all elements of the hosted array, `len` of them, into a native array.
    CopyFixed { index: usize, elem: Prim, len: ArrayLen },
    /// Make a native array of `len` zero elements for the callee to fill.
    ZeroFixed { index: usize, elem: Prim, len: ArrayLen },
}

/// A marshaling statement that runs after the flat call.
#[derive(Clone, Copy, Debug, PartialEq, Eq, Structural)]
pub enum PostStep {
    /// Write the native array back into the hosted array.
    CopyBack { index: usize, elem: Prim, len: ArrayLen },
}

/// The two parameter lists and the marshaling statements of one binding.
#[derive(Debug)]
pub struct Layout {
    pub flat: Vec<FlatParam>,
    pub hosted: Vec<HostedParam>,
    pub pre: Vec<PreStep>,
    pub post: Vec<PostStep>,
}

/// The items that each parameter of `cs` contributes, in order.
pub open spec fn concat_map<T>(cs: Seq<ParamClass>, f: spec_fn(nat, ParamClass) -> Seq<T>) -> Seq<T>
    decreases cs.len(),
{
    if cs.len() == 0 {
        Seq::empty()
    } else {
        concat_map(cs.drop_last(), f) + f((cs.len() - 1) as nat, cs.last())
    }
}

/// Flat parameters of one declared parameter: a slice becomes its address and
/// length, in place; anything else passes as declared.
pub open spec fn flat_of(i: nat, c: ParamClass) -> Seq<FlatParam> {
    match c {
        ParamClass::Slice { mutable, elem } => seq![
            FlatParam::SlicePtr { index: i as usize, mutable, elem },
            FlatParam::SliceLen { index: i as usize },
        ],
        _ => seq![FlatParam::Direct { index: i as usize }],
    }
}

/// Hosted parameters of one declared parameter: a slice becomes a typed array
/// and its length, a fixed array a typed array alone, a handle a long.
pub open spec fn hosted_of(i: nat, c: ParamClass) -> Seq<HostedParam> {
    match c {
        ParamClass::Scalar(p) => seq![HostedParam::Value { index: i as usize, code: prim_code(p) }],
        ParamClass::Handle | ParamClass::OptionalHandle => seq![
            HostedParam::Value { index: i as usize, code: TypeCode::Long },
        ],
        ParamClass::Slice { elem, .. } => seq![
            HostedParam::ArrayObject { index: i as usize, kind: prim_code(elem) },
            HostedParam::Length { index: i as usize },
        ],
        ParamClass::FixedArray { elem, .. } => seq![
            HostedParam::ArrayObject { index: i as usize, kind: prim_code(elem) },
        ],
    }
}

/// Statements before the call: slices and read-only fixed arrays are copied
/// in; a mutable fixed array starts as a fresh native array.
pub open spec fn pre_of(i: nat, c: ParamClass) -> Seq<PreStep> {
    match c {
        ParamClass::Slice { elem, .. } => seq![PreStep::CopyRegion { index: i as usize, elem }],
        ParamClass::FixedArray { mutable, elem, len } => if mutable {
            seq![PreStep::ZeroFixed { index: i as usize, elem, len }]
        } else {
            seq![PreStep::CopyFixed { index: i as usize, elem, len }]
        },
        _ => Seq::empty(),
    }
}

/// Statements after the call: a mutable fixed array is copied back.
pub open spec fn post_of(i: nat, c: ParamClass) -> Seq<PostStep> {
    match c {
        ParamClass::FixedArray { mutable, elem, len } => if mutable {
            seq![PostStep::CopyBack { index: i as usize, elem, len }]
        } else {
            Seq::empty()
        },
        _ => Seq::empty(),
    }
}

pub open spec fn flat_params_spec(cs: Seq<ParamClass>, sret: bool) -> Seq<FlatParam> {
    (if sret {
        seq![FlatParam::ResultSlot]
    } else {
        Seq::empty()
    }) + concat_map(cs, |i: nat, c: ParamClass| flat_of(i, c))
}

pub open spec fn hosted_params_spec(cs: Seq<ParamClass>, sret: bool) -> Seq<HostedParam> {
    (if sret {
        seq![HostedParam::ResultArray]
    } else {
        Seq::empty()
    }) + concat_map(cs, |i: nat, c: ParamClass| hosted_of(i, c))
}

proof fn lemma_concat_map_step<T>(cs: Seq<ParamClass>, i: int, f: spec_fn(nat, ParamClass) -> Seq<T>)
    requires
        0 <= i < cs.len(),
    ensures
        concat_map(cs.subrange(0, i + 1), f) == concat_map(cs.subrange(0, i), f) + f(
            i as nat,
            cs[i],
        ),
{
    let next = cs.subrange(0, i + 1);
    assert(next.drop_last() =~= cs.subrange(0, i));
}

proof fn lemma_concat_map_prefix<T>(
    cs: Seq<ParamClass>,
    j: int,
    f: spec_fn(nat, ParamClass) -> Seq<T>,
)
    requires
        0 <= j <= cs.len(),
    ensures
        concat_map(cs.subrange(0, j), f).len() <= concat_map(cs, f).len(),
        concat_map(cs, f).subrange(0, concat_map(cs.subrange(0, j), f).len() as int) == concat_map(
            cs.subrange(0, j),
            f,
        ),
    decreases cs.len() - j,
{
    if j == cs.len() {
        assert(cs.subrange(0, j) =~= cs);
        assert(concat_map(cs, f).subrange(0, concat_map(cs, f).len() as int) =~= concat_map(cs, f));
    } else {
        lemma_concat_map_prefix(cs, j + 1, f);
        lemma_concat_map_step(cs, j, f);
        let short = concat_map(cs.subrange(0, j), f);
        let long = concat_map(cs.subrange(0, j + 1), f);
        assert(long.subrange(0, short.len() as int) =~= short);
        assert(concat_map(cs, f).subrange(0, short.len() as int) =~= long.subrange(
            0,
            short.len() as int,
        ));
    }
}

/// Where the items of parameter `i` start among the items of all parameters.
pub open spec fn offset_of<T>(cs: Seq<ParamClass>, i: int, f: spec_fn(nat, ParamClass) -> Seq<T>) -> nat {
    concat_map(cs.subrange(0, i), f).len()
}

proof fn lemma_items_of<T>(cs: Seq<ParamClass>, i: int, f: spec_fn(nat, ParamClass) -> Seq<T>)
    requires
        0 <= i < cs.len(),
    ensures
        offset_of(cs, i, f) + f(i as nat, cs[i]).len() <= concat_map(cs, f).len(),
        forall|k: int|
            0 <= k < f(i as nat, cs[i]).len() ==> concat_map(cs, f)[offset_of(cs, i, f) + k]
                == #[trigger] f(i as nat, cs[i])[k],
{
    lemma_concat_map_prefix(cs, i + 1, f);
    lemma_concat_map_step(cs, i, f);
    let all = concat_map(cs, f);
    let upto = concat_map(cs.subrange(0, i + 1), f);
    assert forall|k: int| 0 <= k < f(i as nat, cs[i]).len() implies all[offset_of(cs, i, f) + k]
        == #[trigger] f(i as nat, cs[i])[k] by {
        assert(all.subrange(0, upto.len() as int)[offset_of(cs, i, f) + k] == upto[offset_of(cs, i, f) + k]);
    }
}

/// Slice expansion: an expanded slice at position `i` stands on the flat side
/// as its address directly followed by its 32-bit length, and on the hosted
/// side as a typed array directly followed by its length. A fixed array
/// stands on the hosted side as a typed array alone: its length is part of
/// the layout, not a parameter.
pub proof fn lemma_slice_expansion(cs: Seq<ParamClass>, i: int)
    requires
        0 <= i < cs.len(),
    ensures
        cs[i] matches ParamClass::Slice { mutable, elem } ==> {
            let flat = concat_map(cs, |j: nat, c: ParamClass| flat_of(j, c));
            let hosted = concat_map(cs, |j: nat, c: ParamClass| hosted_of(j, c));
            let fo = offset_of(cs, i, |j: nat, c: ParamClass| flat_of(j, c)) as int;
            let ho = offset_of(cs, i, |j: nat, c: ParamClass| hosted_of(j, c)) as int;
            &&& fo + 1 < flat.len()
            &&& flat[fo] == FlatParam::SlicePtr { index: i as usize, mutable, elem }
            &&& flat[fo + 1] == FlatParam::SliceLen { index: i as usize }
            &&& ho + 1 < hosted.len()
            &&& hosted[ho] == HostedParam::ArrayObject { index: i as usize, kind: prim_code(elem) }
            &&& hosted[ho + 1] == HostedParam::Length { index: i as usize }
        },
        cs[i] matches ParamClass::FixedArray { elem, .. } ==> {
            let hosted = concat_map(cs, |j: nat, c: ParamClass| hosted_of(j, c));
            let ho = offset_of(cs, i, |j: nat, c: ParamClass| hosted_of(j, c)) as int;
            &&& hosted_of(i as nat, cs[i]) == seq![
                HostedParam::ArrayObject { index: i as usize, kind: prim_code(elem) },
            ]
            &&& hosted[ho] == HostedParam::ArrayObject { index: i as usize, kind: prim_code(elem) }
        },
{
    let ff = |j: nat, c: ParamClass| flat_of(j, c);
    let hf = |j: nat, c: ParamClass| hosted_of(j, c);
    lemma_items_of(cs, i, ff);
    lemma_items_of(cs, i, hf);
    match cs[i] {
        ParamClass::Slice { mutable, elem } => {
            assert(ff(i as nat, cs[i])[0] == FlatParam::SlicePtr { index: i as usize, mutable, elem });
            assert(ff(i as nat, cs[i])[1] == FlatParam::SliceLen { index: i as usize });
            assert(hf(i as nat, cs[i])[0] == HostedParam::ArrayObject {
                index: i as usize,
                kind: prim_code(elem),
            });
            assert(hf(i as nat, cs[i])[1] == HostedParam::Length { index: i as usize });
        },
        ParamClass::FixedArray { elem, .. } => {
            assert(hf(i as nat, cs[i])[0] == HostedParam::ArrayObject {
                index: i as usize,
                kind: prim_code(elem),
            });
        },
        _ => {},
    }
}

fn flat_of_exec(i: usize, c: ParamClass, out: &mut Vec<FlatParam>)
    ensures
        final(out)@ == old(out)@ + flat_of(i as nat, c),
{
    match c {
        ParamClass::Slice { mutable, elem } => {
            out.push(FlatParam::SlicePtr { index: i, mutable, elem });
            out.push(FlatParam::SliceLen { index: i });
        },
        _ => out.push(FlatParam::Direct { index: i }),
    }
    assert(final(out)@ =~= old(out)@ + flat_of(i as nat, c));
}

fn hosted_of_exec(i: usize, c: ParamClass, out: &mut Vec<HostedParam>)
    ensures
        final(out)@ == old(out)@ + hosted_of(i as nat, c),
{
    match c {
        ParamClass::Scalar(p) => out.push(HostedParam::Value { index: i, code: prim_code_of(p) }),
        ParamClass::Handle | ParamClass::OptionalHandle => out.push(
            HostedParam::Value { index: i, code: TypeCode::Long },
        ),
        ParamClass::Slice { elem, .. } => {
            out.push(HostedParam::ArrayObject { index: i, kind: prim_code_of(elem) });
            out.push(HostedParam::Length { index: i });
        },
        ParamClass::FixedArray { elem, .. } => out.push(
            HostedParam::ArrayObject { index: i, kind: prim_code_of(elem) },
        ),
    }
    assert(final(out)@ =~= old(out)@ + hosted_of(i as nat, c));
}

fn pre_of_exec(i: usize, c: ParamClass, out: &mut Vec<PreStep>)
    ensures
        final(out)@ == old(out)@ + pre_of(i as nat, c),
{
    match c {
        ParamClass::Slice { elem, .. } => out.push(PreStep::CopyRegion { index: i, elem }),
        ParamClass::FixedArray { mutable, elem, len } => {
            if mutable {
                out.push(PreStep::ZeroFixed { index: i, elem, len });
            } else {
                out.push(PreStep::CopyFixed { index: i, elem, len });
            }
        },
        _ => {},
    }
    assert(final(out)@ =~= old(out)@ + pre_of(i as nat, c));
}

fn post_of_exec(i: usize, c: ParamClass, out: &mut Vec<PostStep>)
    ensures
        final(out)@ == old(out)@ + post_of(i as nat, c),
{
    match c {
        ParamClass::FixedArray { mutable, elem, len } => {
            if mutable {
                out.push(PostStep::CopyBack { index: i, elem, len });
            }
        },
        _ => {},
    }
    assert(final(out)@ =~= old(out)@ + post_of(i as nat, c));
}

/// Lays out both entry points of a classified declaration. The flat export
/// takes the result slot first under structure return and splits each slice
/// into address and length in place; the hosted entry point takes the result
/// array first and carries each slice as an array and a length, each fixed
/// array as an array whose length is fixed by the layout.
pub fn layout(params: &Vec<ParamClass>, sret: bool) -> (r: Layout)
    ensures
        r.flat@ == flat_params_spec(params@, sret),
        r.hosted@ == hosted_params_spec(params@, sret),
        r.pre@ == concat_map(params@, |i: nat, c: ParamClass| pre_of(i, c)),
        r.post@ == concat_map(params@, |i: nat, c: ParamClass| post_of(i, c)),
{
    let mut flat: Vec<FlatParam> = Vec::new();
    let mut hosted: Vec<HostedParam> = Vec::new();
    let mut pre: Vec<PreStep> = Vec::new();
    let mut post: Vec<PostStep> = Vec::new();
    if sret {
        flat.push(FlatParam::ResultSlot);
        hosted.push(HostedParam::ResultArray);
    }
    let ghost flat_head = flat@;
    let ghost hosted_head = hosted@;
    let ghost ff = |i: nat, c: ParamClass| flat_of(i, c);
    let ghost hf = |i: nat, c: ParamClass| hosted_of(i, c);
    let ghost pf = |i: nat, c: ParamClass| pre_of(i, c);
    let ghost qf = |i: nat, c: ParamClass| post_of(i, c);
    let mut i: usize = 0;
    while i < params.len()
        invariant
            i <= params@.len(),
            ff == (|i: nat, c: ParamClass| flat_of(i, c)),
            hf == (|i: nat, c: ParamClass| hosted_of(i, c)),
            pf == (|i: nat, c: ParamClass| pre_of(i, c)),
            qf == (|i: nat, c: ParamClass| post_of(i, c)),
            flat_head == (if sret {
                seq![FlatParam::ResultSlot]
            } else {
                Seq::empty()
            }),
            hosted_head == (if sret {
                seq![HostedParam::ResultArray]
            } else {
                Seq::empty()
            }),
            flat@ == flat_head + concat_map(params@.subrange(0, i as int), ff),
            hosted@ == hosted_head + concat_map(params@.subrange(0, i as int), hf),
            pre@ == concat_map(params@.subrange(0, i as int), pf),
            post@ == concat_map(params@.subrange(0, i as int), qf),
        decreases params@.len() - i,
    {
        let c = params[i];
        let ghost flat_before = flat@;
        let ghost hosted_before = hosted@;
        flat_of_exec(i, c, &mut flat);
        hosted_of_exec(i, c, &mut hosted);
        pre_of_exec(i, c, &mut pre);
        post_of_exec(i, c, &mut post);
        proof {
            lemma_concat_map_step(params@, i as int, ff);
            lemma_concat_map_step(params@, i as int, hf);
            lemma_concat_map_step(params@, i as int, pf);
            lemma_concat_map_step(params@, i as int, qf);
            let fa = concat_map(params@.subrange(0, i as int), ff);
            let ha = concat_map(params@.subrange(0, i as int), hf);
            assert(flat@ == flat_before + ff(i as nat, c));
            assert((flat_head + fa) + ff(i as nat, c) =~= flat_head + (fa + ff(i as nat, c)));
            assert(hosted@ == hosted_before + hf(i as nat, c));
            assert((hosted_head + ha) + hf(i as nat, c) =~= hosted_head + (ha + hf(i as nat, c)));
            assert(pre@ =~= concat_map(params@.subrange(0, i as int + 1), pf));
            assert(post@ =~= concat_map(params@.subrange(0, i as int + 1), qf));
        }
        i += 1;
    }
    assert(params@.subrange(0, params@.len() as int) =~= params@);
    Layout { flat, hosted, pre, post }
}

/// An ASCII lower-case letter turned upper-case; any other byte unchanged.
pub open spec fn upper_byte(b: u8) -> u8 {
    if 97 <= b <= 122 {
        (b - 32) as u8
    } else {
        b
    }
}

/// The suffix of the name of a hosted descriptor item.
pub open spec fn hosted_suffix() -> Seq<u8> {
    seq![95u8, 74u8, 78u8, 73u8]
}

/// The name of the item that holds the hosted descriptor of flat export
/// `name`: its ASCII letters in upper case, followed by `_JNI`.
pub fn hosted_item_name(name: &[u8]) -> (r: Vec<u8>)
    ensures
        r@ == name@.map_values(|b: u8| upper_byte(b)) + hosted_suffix(),
{
    let mut r: Vec<u8> = Vec::new();
    let mut i: usize = 0;
    while i < name.len()
        invariant
            i <= name@.len(),
            r@ == name@.subrange(0, i as int).map_values(|b: u8| upper_byte(b)),
        decreases name@.len() - i,
    {
        let b = name[i];
        let u = if 97 <= b && b <= 122 {
            b - 32
        } else {
            b
        };
        r.push(u);
        assert(name@.subrange(0, i as int + 1).map_values(|b: u8| upper_byte(b)) =~= r@);
        i += 1;
    }
    assert(name@.subrange(0, name@.len() as int) =~= name@);
    r.push(95);
    r.push(74);
    r.push(78);
    r.push(73);
    assert(r@ =~= name@.map_values(|b: u8| upper_byte(b)) + hosted_suffix());
    r
}

} // verus!
