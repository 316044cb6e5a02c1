//! A thread-safe reference-counting pointer that carries a caster value along
//! with the shared allocation.
use vstd::prelude::*;
use std::sync::Arc;

verus! {

/// Clones an `Arc` with `Arc::clone`: another pointer to the same allocation,
/// so it holds the same value.
#[verifier::external_body]
pub(crate) fn arc_clone<T>(a: &Arc<T>) -> (r: Arc<T>)
    ensures
        r == *a,
{
    Arc::clone(a)
}

/// Number of strong pointers to the allocation, by `Arc::strong_count`.
///
/// It depends on the other pointers that exist; since `a` is one of them it
/// is at least one.
#[verifier::external_body]
pub(crate) fn arc_strong_count<T>(a: &Arc<T>) -> (c: usize)
    ensures
        c >= 1,
{
    Arc::strong_count(a)
}

/// Number of weak pointers to the allocation, by `Arc::weak_count`.
///
/// It depends on the other pointers that exist; nothing is stated of it.
#[verifier::external_body]
pub(crate) fn arc_weak_count<T>(a: &Arc<T>) -> (c: usize) {
    Arc::weak_count(a)
}

/// Whether two `Arc`s point to the same allocation, by `Arc::ptr_eq`.
///
/// Pointers to the same allocation see the same value.
#[verifier::external_body]
fn arc_ptr_eq<T>(a: &Arc<T>, b: &Arc<T>) -> (r: bool)
    ensures
        r ==> *a == *b,
{
    Arc::ptr_eq(a, b)
}

/// Base type of the [`DynArc`] type.
pub trait DynArcBase {}

/// Caster type for [`DynArc`]: a plain value that is copied
/// along with the pointer.
pub trait DynArcCaster<T>: Copy {}

/// A thread-safe reference-counting pointer, together with its caster.
pub struct DynArc<T, C: DynArcCaster<T>> {
    caster: C,
    inner: Arc<T>,
}

impl<T, C: DynArcCaster<T>> DynArc<T, C> {
    /// The shared value.
    pub closed spec fn value(&self) -> T {
        *self.inner
    }

    /// The caster.
    pub closed spec fn spec_caster(&self) -> C {
        self.caster
    }

    /// Constructs a new `DynArc<T>`.
    pub fn new(data: T, caster: C) -> (a: Self)
        ensures
            a.value() == data,
            a.spec_caster() == caster,
    {
        DynArc { caster, inner: Arc::new(data) }
    }

    /// Consumes the `DynArc`, returning the inner `Arc` and caster.
    pub fn into_inner(this: DynArc<T, C>) -> (r: (Arc<T>, C))
        ensures
            *r.0 == this.value(),
            r.1 == this.spec_caster(),
    {
        (this.inner, this.caster)
    }

    /// Constructs a `DynArc` from an inner `Arc` and caster.
    pub fn from_inner(inner: (Arc<T>, C)) -> (a: Self)
        ensures
            a.value() == *inner.0,
            a.spec_caster() == inner.1,
    {
        DynArc { inner: inner.0, caster: inner.1 }
    }

    /// Fetches the number of weak pointers pointing to this allocation.
    pub fn weak_count(this: &DynArc<T, C>) -> (c: usize) {
        arc_weak_count(&this.inner)
    }

    /// Fetches the number of `DynArc` pointers pointing to this allocation;
    /// `this` is one of them.
    pub fn strong_count(this: &DynArc<T, C>) -> (c: usize)
        ensures
            c >= 1,
    {
        arc_strong_count(&this.inner)
    }

    /// Returns `true` if the two `DynArc`s point to the same allocation, in
    /// which case they share the value.
    pub fn ptr_eq(this: &DynArc<T, C>, other: &DynArc<T, C>) -> (r: bool)
        ensures
            r ==> this.value() == other.value(),
    {
        arc_ptr_eq(&this.inner, &other.inner)
    }

    /// A reference to the shared value.
    pub fn as_ref(&self) -> (r: &T)
        ensures
            *r == self.value(),
    {
        &*self.inner
    }
}

impl<T, C: DynArcCaster<T>> Clone for DynArc<T, C> {
    fn clone(&self) -> (a: Self)
        ensures
            a.value() == self.value(),
            a.spec_caster() == self.spec_caster(),
    {
        DynArc { caster: self.caster, inner: arc_clone(&self.inner) }
    }
}

} // verus!
