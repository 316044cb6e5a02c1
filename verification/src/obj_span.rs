//! Span types of the object layer: borrowed views over continuous data
//! (`ConstSpan`, `MutSpan`) and their lifetime-free raw form (`SpanInner`,
//! held as an address and a length).
use vstd::prelude::*;
use std::marker::PhantomData;
use std::ops::Deref;
use std::borrow::Borrow;

verus! {

/// Views one value as a slice of length one, with `std::slice::from_ref`.
///
/// The contract claims what the standard library documents: the slice holds
/// exactly that one value.
#[verifier::external_body]
fn slice_from_ref<T>(s: &T) -> (r: &[T])
    ensures
        r@ == seq![*s],
{
    std::slice::from_ref(s)
}

/// Views one value as a mutable slice of length one, with `std::slice::from_mut`.
///
/// The contract claims what the standard library documents: the slice holds
/// exactly that one value, and writing through it writes the value.
#[verifier::external_body]
fn slice_from_mut<T>(s: &mut T) -> (r: &mut [T])
    ensures
        (*r)@ == seq![*old(s)],
        (*final(r))@ == seq![*final(s)],
{
    std::slice::from_mut(s)
}

/// An immutable span.
///
/// Equivalent of an `&'a [T]`.
pub struct ConstSpan<'a, T> {
    inner: &'a [T],
}

impl<'a, T> View for ConstSpan<'a, T> {
    type V = Seq<T>;

    /// The elements the span covers.
    closed spec fn view(&self) -> Seq<T> {
        self.inner@
    }
}

impl<'a, T> ConstSpan<'a, T> {
    /// The borrowed slice the span covers.
    pub closed spec fn slice(&self) -> &'a [T] {
        self.inner
    }
}

impl<'a, T> Deref for ConstSpan<'a, T> {
    type Target = [T];

    fn deref(&self) -> (r: &[T])
        ensures
            r@ == self@,
    {
        self.inner
    }
}

impl<'a, T> Borrow<[T]> for ConstSpan<'a, T> {
    fn borrow(&self) -> &[T]
        returns
            self.slice(),
    {
        self.inner
    }
}

impl<'a, T> AsRef<[T]> for ConstSpan<'a, T> {
    fn as_ref(&self) -> (r: &[T])
        ensures
            r@ == self@,
    {
        self.inner
    }
}

impl<'a, T> Clone for ConstSpan<'a, T> {
    fn clone(&self) -> (r: Self)
        ensures
            r == *self,
    {
        ConstSpan { inner: self.inner }
    }
}

impl<'a, T> Copy for ConstSpan<'a, T> {}

impl<'a, T> Default for ConstSpan<'a, T> {
    fn default() -> (r: Self)
        ensures
            r@ == Seq::<T>::empty(),
    {
        ConstSpan { inner: &[] }
    }
}

impl<'a, T> From<&'a [T]> for ConstSpan<'a, T> {
    fn from(s: &'a [T]) -> (r: Self)
        ensures
            r.slice() == s,
    {
        ConstSpan { inner: s }
    }
}

impl<'a, T> vstd::std_specs::convert::FromSpecImpl<&'a [T]> for ConstSpan<'a, T> {
    open spec fn obeys_from_spec() -> bool {
        true
    }

    closed spec fn from_spec(v: &'a [T]) -> Self {
        ConstSpan { inner: v }
    }
}

impl<'a, T> From<&'a mut [T]> for ConstSpan<'a, T> {
    fn from(s: &'a mut [T]) -> (r: Self)
        ensures
            r@ == (*old(s))@,
    {
        ConstSpan { inner: s }
    }
}

impl<'a, T> vstd::std_specs::convert::FromSpecImpl<&'a mut [T]> for ConstSpan<'a, T> {
    open spec fn obeys_from_spec() -> bool {
        true
    }

    closed spec fn from_spec(v: &'a mut [T]) -> Self {
        ConstSpan { inner: &*v }
    }
}

impl<'a, T> From<ConstSpan<'a, T>> for &'a [T] {
    fn from(s: ConstSpan<'a, T>) -> (r: Self)
        ensures
            r == s.slice(),
    {
        s.inner
    }
}

impl<'a, T> vstd::std_specs::convert::FromSpecImpl<ConstSpan<'a, T>> for &'a [T] {
    open spec fn obeys_from_spec() -> bool {
        true
    }

    closed spec fn from_spec(v: ConstSpan<'a, T>) -> Self {
        v.slice()
    }
}

impl<'a, T> From<MutSpan<'a, T>> for ConstSpan<'a, T> {
    fn from(s: MutSpan<'a, T>) -> (r: Self)
        ensures
            r@ == s@,
    {
        ConstSpan { inner: s.inner }
    }
}

impl<'a, T> vstd::std_specs::convert::FromSpecImpl<MutSpan<'a, T>> for ConstSpan<'a, T> {
    open spec fn obeys_from_spec() -> bool {
        true
    }

    closed spec fn from_spec(v: MutSpan<'a, T>) -> Self {
        ConstSpan { inner: &*v.inner }
    }
}

/// A mutable span.
///
/// Equivalent of an `&'a mut [T]`.
pub struct MutSpan<'a, T> {
    inner: &'a mut [T],
}

impl<'a, T> View for MutSpan<'a, T> {
    type V = Seq<T>;

    /// The elements the span covers.
    closed spec fn view(&self) -> Seq<T> {
        (*self.inner)@
    }
}

impl<'a, T> Deref for MutSpan<'a, T> {
    type Target = [T];

    fn deref(&self) -> (r: &[T])
        ensures
            r@ == self@,
    {
        self.inner
    }
}

impl<'a, T> MutSpan<'a, T> {
    /// The elements the span covers, as a shared slice.
    pub closed spec fn slice(&self) -> &[T] {
        &*self.inner
    }

    /// The shared slice holds the elements the span covers.
    pub broadcast proof fn lemma_slice_view(s: MutSpan<'a, T>)
        ensures
            #[trigger] s.slice()@ == s@,
    {
    }
}

impl<'a, T> Borrow<[T]> for MutSpan<'a, T> {
    fn borrow(&self) -> &[T]
        returns
            self.slice(),
    {
        self.inner
    }
}

impl<'a, T> AsRef<[T]> for MutSpan<'a, T> {
    fn as_ref(&self) -> (r: &[T])
        ensures
            r@ == self@,
    {
        self.inner
    }
}

impl<'a, T> From<&'a mut [T]> for MutSpan<'a, T> {
    fn from(s: &'a mut [T]) -> (r: Self)
        ensures
            r@ == (*old(s))@,
    {
        MutSpan { inner: s }
    }
}

impl<'a, T> vstd::std_specs::convert::FromSpecImpl<&'a mut [T]> for MutSpan<'a, T> {
    open spec fn obeys_from_spec() -> bool {
        false
    }

    closed spec fn from_spec(v: &'a mut [T]) -> Self {
        MutSpan { inner: v }
    }
}

impl<'a, T> From<MutSpan<'a, T>> for &'a [T] {
    fn from(s: MutSpan<'a, T>) -> (r: Self)
        ensures
            r@ == s@,
    {
        s.inner
    }
}

impl<'a, T> vstd::std_specs::convert::FromSpecImpl<MutSpan<'a, T>> for &'a [T] {
    open spec fn obeys_from_spec() -> bool {
        true
    }

    closed spec fn from_spec(v: MutSpan<'a, T>) -> Self {
        &*v.inner
    }
}

/// Converts a reference to `T` into a [`ConstSpan<T>`] of length 1 (without copying).
pub fn from_ref<T>(s: &T) -> (r: ConstSpan<'_, T>)
    ensures
        r@ == seq![*s],
{
    ConstSpan { inner: slice_from_ref(s) }
}

/// Converts a reference to `T` into a [`MutSpan<T>`] of length 1 (without copying).
pub fn from_mut<T>(s: &mut T) -> (r: MutSpan<'_, T>)
    ensures
        r@ == seq![*old(s)],
{
    MutSpan { inner: slice_from_mut(s) }
}

/// A view over a continuous region of data, akin to `&[T]` and `&mut [T]`,
/// that does not track the lifetime of the data: it is held as the address of
/// the first element and the number of elements.
pub struct SpanInner<T, const MUT: bool> {
    ptr: usize,
    len: usize,
    phantom: PhantomData<T>,
}

impl<T, const MUT: bool> SpanInner<T, MUT> {
    /// The address of the first element.
    pub closed spec fn ptr(&self) -> usize {
        self.ptr
    }

    /// The number of elements.
    pub closed spec fn len(&self) -> usize {
        self.len
    }

    /// The pointer of a span is never null.
    #[verifier::type_invariant]
    spec fn inv(&self) -> bool {
        self.ptr != 0
    }

    /// Fetches the address of the first element.
    pub fn as_ptr(&self) -> (p: usize)
        ensures
            p == self.ptr(),
            p != 0,
    {
        proof {
            use_type_invariant(self);
        }
        self.ptr
    }

    /// Fetches the number of elements.
    pub fn length(&self) -> (l: usize)
        ensures
            l == self.len(),
    {
        self.len
    }
}

impl<T, const MUT: bool> Clone for SpanInner<T, MUT> {
    fn clone(&self) -> (r: Self)
        ensures
            r == *self,
    {
        proof {
            use_type_invariant(self);
        }
        SpanInner { ptr: self.ptr, len: self.len, phantom: PhantomData }
    }
}

impl<T, const MUT: bool> Copy for SpanInner<T, MUT> {}

impl<T, const MUT: bool> Default for SpanInner<T, MUT> {
    /// An empty span at the dangling, well-aligned address of `T`.
    fn default() -> (r: Self)
        ensures
            r.ptr() == vstd::layout::align_of::<T>(),
            r.len() == 0,
    {
        vstd::layout::layout_for_type_is_valid::<T>();
        SpanInner { ptr: core::mem::align_of::<T>(), len: 0, phantom: PhantomData }
    }
}

impl<T> From<SpanInner<T, true>> for SpanInner<T, false> {
    fn from(s: SpanInner<T, true>) -> (r: Self)
        ensures
            r.ptr() == s.ptr(),
            r.len() == s.len(),
    {
        proof {
            use_type_invariant(&s);
        }
        SpanInner { ptr: s.ptr, len: s.len, phantom: PhantomData }
    }
}

impl<T> vstd::std_specs::convert::FromSpecImpl<SpanInner<T, true>> for SpanInner<T, false> {
    open spec fn obeys_from_spec() -> bool {
        true
    }

    closed spec fn from_spec(v: SpanInner<T, true>) -> Self {
        SpanInner { ptr: v.ptr, len: v.len, phantom: PhantomData }
    }
}

/// Forms a [`SpanInner<T, false>`] from a non-null address and a length.
pub fn from_raw_parts_inner<T>(data: usize, len: usize) -> (r: SpanInner<T, false>)
    requires
        data != 0,
    ensures
        r.ptr() == data,
        r.len() == len,
{
    SpanInner { ptr: data, len, phantom: PhantomData }
}

/// Performs the same functionality as [from_raw_parts_inner], except
/// that a mutable [`SpanInner<T, true>`] is returned.
pub fn from_raw_parts_mut_inner<T>(data: usize, len: usize) -> (r: SpanInner<T, true>)
    requires
        data != 0,
    ensures
        r.ptr() == data,
        r.len() == len,
{
    SpanInner { ptr: data, len, phantom: PhantomData }
}

} // verus!
