use vstd::prelude::*;

use core::marker::PhantomData;

verus! {

/// An address of a heap object owned by the flat side: never zero.
#[derive(Clone, Copy, Debug)]
pub struct Handle {
    addr: usize,
}

impl Handle {
    #[verifier::type_invariant]
    spec fn inv(&self) -> bool {
        self.addr != 0
    }

    /// The address that the handle stands for.
    pub closed spec fn address(&self) -> usize {
        self.addr
    }

    /// A handle for `addr`, or `None` for the null address.
    pub fn new(addr: usize) -> (r: Option<Handle>)
        ensures
            addr == 0 <==> r is None,
            r matches Some(h) ==> h.address() == addr,
    {
        if addr == 0 {
            None
        } else {
            Some(Handle { addr })
        }
    }

    pub fn addr(&self) -> (r: usize)
        ensures
            r == self.address(),
            r != 0,
    {
        proof {
            use_type_invariant(self);
        }
        self.addr
    }
}

/// A value that travels through the hosted result buffer as a fixed number of
/// machine words. The number is a property of the type alone: every value of
/// the type writes at most `arity()` words, and the buffer always has exactly
/// `arity()` slots.
pub trait AsUsize: Sized {
    /// The number of buffer slots reserved for any value of the type.
    spec fn arity() -> nat;

    /// The words that this value writes, in order, from the first slot.
    spec fn words(&self) -> Seq<usize>;

    proof fn lemma_words_fit(&self)
        ensures
            self.words().len() <= Self::arity(),
    ;

    fn word_count() -> (r: usize)
        requires
            Self::arity() <= usize::MAX,
        ensures
            r == Self::arity(),
    ;

    fn as_usize(&self) -> (r: Vec<usize>)
        ensures
            r@ == self.words(),
    ;
}

impl AsUsize for Handle {
    open spec fn arity() -> nat {
        1
    }

    open spec fn words(&self) -> Seq<usize> {
        seq![self.address()]
    }

    proof fn lemma_words_fit(&self) {
    }

    fn word_count() -> (r: usize) {
        1
    }

    fn as_usize(&self) -> (r: Vec<usize>) {
        let mut r: Vec<usize> = Vec::new();
        r.push(self.addr());
        r
    }
}

/// The empty success value: it writes no words.
#[derive(Clone, Copy, Debug)]
pub struct ZST;

impl From<()> for ZST {
    fn from(value: ()) -> (r: Self) {
        ZST
    }
}

impl vstd::std_specs::convert::FromSpecImpl<()> for ZST {
    open spec fn obeys_from_spec() -> bool {
        true
    }

    open spec fn from_spec(v: ()) -> Self {
        ZST
    }
}

impl AsUsize for ZST {
    open spec fn arity() -> nat {
        0
    }

    open spec fn words(&self) -> Seq<usize> {
        Seq::empty()
    }

    proof fn lemma_words_fit(&self) {
    }

    fn word_count() -> (r: usize) {
        0
    }

    fn as_usize(&self) -> (r: Vec<usize>) {
        Vec::new()
    }
}

/// A run of elements on the flat side, handed over as its address and length.
#[derive(Debug)]
pub struct CSlice<T> {
    pub ptr: Handle,
    pub len: usize,
    pub elem: PhantomData<T>,
}

impl<T> Clone for CSlice<T> {
    fn clone(&self) -> (r: Self)
        ensures
            r == *self,
    {
        CSlice { ptr: self.ptr, len: self.len, elem: PhantomData }
    }
}

impl<T> Copy for CSlice<T> {

}

impl<T> CSlice<T> {
    pub fn from_parts(ptr: Handle, len: usize) -> (r: CSlice<T>)
        ensures
            r.ptr == ptr,
            r.len == len,
    {
        CSlice { ptr, len, elem: PhantomData }
    }
}

impl<T> AsUsize for CSlice<T> {
    open spec fn arity() -> nat {
        2
    }

    open spec fn words(&self) -> Seq<usize> {
        seq![self.ptr.address(), self.len]
    }

    proof fn lemma_words_fit(&self) {
    }

    fn word_count() -> (r: usize) {
        2
    }

    fn as_usize(&self) -> (r: Vec<usize>) {
        let mut r: Vec<usize> = Vec::new();
        r.push(self.ptr.addr());
        r.push(self.len);
        r
    }
}

/// The description of a failure, as UTF-8 bytes on the flat side.
#[derive(Clone, Copy, Debug)]
pub struct CErrorStr(pub CSlice<u8>);

impl AsUsize for CErrorStr {
    open spec fn arity() -> nat {
        2
    }

    open spec fn words(&self) -> Seq<usize> {
        self.0.words()
    }

    proof fn lemma_words_fit(&self) {
    }

    fn word_count() -> (r: usize) {
        2
    }

    fn as_usize(&self) -> (r: Vec<usize>) {
        self.0.as_usize()
    }
}

/// The larger of two arities.
pub open spec fn max_arity(a: nat, b: nat) -> nat {
    if a >= b {
        a
    } else {
        b
    }
}

/// A tagged outcome: a success writes discriminant 0 and then its own words,
/// a failure writes 1 and then its own words. The slots after the active
/// variant's words hold unspecified content.
#[derive(Clone, Copy, Debug)]
pub enum CResult<T, E> {
    Success(T),
    Failure(E),
}

impl<T, E> From<Result<T, E>> for CResult<T, E> {
    fn from(value: Result<T, E>) -> (r: Self) {
        match value {
            Ok(ok) => CResult::Success(ok),
            Err(err) => CResult::Failure(err),
        }
    }
}

impl<T, E> vstd::std_specs::convert::FromSpecImpl<Result<T, E>> for CResult<T, E> {
    open spec fn obeys_from_spec() -> bool {
        true
    }

    open spec fn from_spec(v: Result<T, E>) -> Self {
        match v {
            Ok(ok) => CResult::Success(ok),
            Err(err) => CResult::Failure(err),
        }
    }
}

impl<T: AsUsize, E: AsUsize> AsUsize for CResult<T, E> {
    open spec fn arity() -> nat {
        1 + max_arity(T::arity(), E::arity())
    }

    open spec fn words(&self) -> Seq<usize> {
        match self {
            CResult::Success(v) => seq![0usize] + v.words(),
            CResult::Failure(e) => seq![1usize] + e.words(),
        }
    }

    proof fn lemma_words_fit(&self) {
        match self {
            CResult::Success(v) => v.lemma_words_fit(),
            CResult::Failure(e) => e.lemma_words_fit(),
        }
    }

    fn word_count() -> (r: usize) {
        let a = T::word_count();
        let b = E::word_count();
        if a >= b {
            1 + a
        } else {
            1 + b
        }
    }

    fn as_usize(&self) -> (r: Vec<usize>) {
        let mut r: Vec<usize> = Vec::new();
        match self {
            CResult::Success(v) => {
                r.push(0);
                let mut w = v.as_usize();
                r.append(&mut w);
            },
            CResult::Failure(e) => {
                r.push(1);
                let mut w = e.as_usize();
                r.append(&mut w);
            },
        }
        r
    }
}

/// One of two word sources, without a discriminant of its own.
#[derive(Clone, Copy, Debug)]
pub enum Either<I1, I2> {
    Left(I1),
    Right(I2),
}

impl<I1: AsUsize, I2: AsUsize> AsUsize for Either<I1, I2> {
    open spec fn arity() -> nat {
        max_arity(I1::arity(), I2::arity())
    }

    open spec fn words(&self) -> Seq<usize> {
        match self {
            Either::Left(l) => l.words(),
            Either::Right(r) => r.words(),
        }
    }

    proof fn lemma_words_fit(&self) {
        match self {
            Either::Left(l) => l.lemma_words_fit(),
            Either::Right(r) => r.lemma_words_fit(),
        }
    }

    fn word_count() -> (r: usize) {
        let a = I1::word_count();
        let b = I2::word_count();
        if a >= b {
            a
        } else {
            b
        }
    }

    fn as_usize(&self) -> (r: Vec<usize>) {
        match self {
            Either::Left(l) => l.as_usize(),
            Either::Right(r) => r.as_usize(),
        }
    }
}

/// The words of `first` followed by those of `second`.
#[derive(Clone, Copy, Debug)]
pub struct Chain<I1, I2> {
    pub first: I1,
    pub second: I2,
}

impl<I1: AsUsize, I2: AsUsize> AsUsize for Chain<I1, I2> {
    open spec fn arity() -> nat {
        I1::arity() + I2::arity()
    }

    open spec fn words(&self) -> Seq<usize> {
        self.first.words() + self.second.words()
    }

    proof fn lemma_words_fit(&self) {
        self.first.lemma_words_fit();
        self.second.lemma_words_fit();
    }

    fn word_count() -> (r: usize) {
        I1::word_count() + I2::word_count()
    }

    fn as_usize(&self) -> (r: Vec<usize>) {
        let mut r = self.first.as_usize();
        let mut w = self.second.as_usize();
        r.append(&mut w);
        r
    }
}

/// Chaining one word source after another.
pub trait ChainExact: Sized {
    fn chain_exact<O>(self, other: O) -> (r: Chain<Self, O>)
        ensures
            r.first == self,
            r.second == other,
    ;
}

impl<E: AsUsize> ChainExact for E {
    fn chain_exact<O>(self, other: O) -> (r: Chain<Self, O>) {
        Chain { first: self, second: other }
    }
}

/// Placing a run of hosted longs at the start of a buffer of a fixed length.
pub trait CollectIntoArray: Sized {
    spec fn items(&self) -> Seq<i64>;

    /// A buffer of exactly `n` longs whose first slots hold the items in order.
    /// The slots after them hold unspecified content.
    fn collect_into_array(self, n: usize) -> (r: Vec<i64>)
        requires
            self.items().len() <= n,
        ensures
            r@.len() == n,
            r@.subrange(0, self.items().len() as int) == self.items(),
    ;
}

impl CollectIntoArray for Vec<i64> {
    open spec fn items(&self) -> Seq<i64> {
        self@
    }

    fn collect_into_array(self, n: usize) -> (r: Vec<i64>) {
        let mut r = self;
        while r.len() < n
            invariant
                r@.len() <= n,
                r@.subrange(0, self@.len() as int) == self@,
                self@.len() <= r@.len(),
            decreases n - r@.len(),
        {
            r.push(0);
        }
        r
    }
}

} // verus!
