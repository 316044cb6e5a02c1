//! A non-null, read-only pointer, modelled by its address.
use vstd::prelude::*;
use std::marker::PhantomData;

verus! {

/// A type representing a `*const T` but non-zero.
///
/// The pointer is held as its address; the address is never zero.
pub struct NonNullConst<T> {
    addr: usize,
    phantom: PhantomData<T>,
}

impl<T> NonNullConst<T> {
    /// The pointer is never null.
    #[verifier::type_invariant]
    spec fn inv(&self) -> bool {
        self.addr != 0
    }

    /// The address the pointer holds.
    pub closed spec fn addr(&self) -> usize {
        self.addr
    }

    /// Creates a new `NonNullConst` that is dangling, but well-aligned:
    /// its address is the alignment of `T`.
    pub fn dangling() -> (p: NonNullConst<T>)
        ensures
            p.addr() == vstd::layout::align_of::<T>(),
    {
        vstd::layout::layout_for_type_is_valid::<T>();
        NonNullConst { addr: core::mem::align_of::<T>(), phantom: PhantomData }
    }

    /// Creates a new `NonNullConst` from an address that must not be zero.
    pub fn new_unchecked(addr: usize) -> (p: NonNullConst<T>)
        requires
            addr != 0,
        ensures
            p.addr() == addr,
    {
        NonNullConst { addr, phantom: PhantomData }
    }

    /// Creates a new `NonNullConst` if `addr` is non-null.
    pub fn new(addr: usize) -> (p: Option<NonNullConst<T>>)
        ensures
            p is Some <==> addr != 0,
            p matches Some(q) ==> q.addr() == addr,
    {
        if addr == 0 {
            None
        } else {
            Some(NonNullConst { addr, phantom: PhantomData })
        }
    }

    /// Acquires a mutable version of the pointer, as its address.
    pub fn into_mut(&self) -> (a: usize)
        ensures
            a == self.addr(),
            a != 0,
    {
        proof {
            use_type_invariant(self);
        }
        self.addr
    }

    /// Acquires the underlying pointer, as its address.
    pub fn as_ptr(self) -> (a: usize)
        ensures
            a == self.addr(),
            a != 0,
    {
        proof {
            use_type_invariant(&self);
        }
        self.addr
    }

    /// Casts to a pointer of another type at the same address.
    pub fn cast<U>(self) -> (p: NonNullConst<U>)
        ensures
            p.addr() == self.addr(),
    {
        proof {
            use_type_invariant(&self);
        }
        NonNullConst { addr: self.addr, phantom: PhantomData }
    }
}

impl<T> Clone for NonNullConst<T> {
    fn clone(&self) -> (p: Self)
        ensures
            p.addr() == self.addr(),
    {
        proof {
            use_type_invariant(self);
        }
        NonNullConst { addr: self.addr, phantom: PhantomData }
    }
}

impl<T> Copy for NonNullConst<T> {}

impl<T> PartialEq for NonNullConst<T> {
    fn eq(&self, other: &Self) -> (r: bool) {
        self.addr == other.addr
    }
}

impl<T> vstd::std_specs::cmp::PartialEqSpecImpl for NonNullConst<T> {
    open spec fn obeys_eq_spec() -> bool {
        true
    }

    open spec fn eq_spec(&self, other: &Self) -> bool {
        self.addr() == other.addr()
    }
}

impl<T> Eq for NonNullConst<T> {}

} // verus!
