//! A view over a continuous region of data, modelled by its start address
//! and element count.
use vstd::prelude::*;
use std::marker::PhantomData;

verus! {

/// An immutable span.
pub type ConstSpan<T> = Span<T, false>;

/// A mutable span.
pub type MutSpan<T> = Span<T, true>;

/// A view over a continuous region of data, akin to `&[T]` and `&mut [T]`.
///
/// The data pointer is held as its address; address zero is the null pointer.
pub struct Span<T: Copy, const MUT: bool> {
    data: usize,
    length: usize,
    phantom: PhantomData<T>,
}

impl<T: Copy, const MUT: bool> Span<T, MUT> {
    /// The address of the first element (zero for null).
    pub closed spec fn data(&self) -> usize {
        self.data
    }

    /// The number of elements.
    pub closed spec fn length(&self) -> usize {
        self.length
    }

    /// A span is empty when its pointer is null or its length is zero.
    pub open spec fn spec_is_empty(&self) -> bool {
        self.data() == 0 || self.length() == 0
    }

    /// Create a new empty span.
    pub fn new() -> (s: Self)
        ensures
            s.data() == 0,
            s.length() == 0,
    {
        Span { data: 0, length: 0, phantom: PhantomData }
    }

    /// Creates a new span from a mutable pointer (as an address) and a length.
    pub fn from_raw_parts_mut(ptr: usize, length: usize) -> (s: Self)
        ensures
            s.data() == ptr,
            s.length() == length,
    {
        Span { data: ptr, length, phantom: PhantomData }
    }

    /// Fetches the address of the elements the span points to.
    pub fn as_ptr(&self) -> (p: usize)
        ensures
            p == self.data(),
    {
        self.data
    }

    /// Retrieves the length of the span.
    pub fn len(&self) -> (l: usize)
        ensures
            l == self.length(),
    {
        self.length
    }

    /// Checks if the span is empty.
    pub fn is_empty(&self) -> (b: bool)
        ensures
            b == self.spec_is_empty(),
    {
        self.data == 0 || self.length == 0
    }
}

impl<T: Copy> Span<T, false> {
    /// Creates a new span from a pointer (as an address) and a length.
    pub fn from_raw_parts(ptr: usize, length: usize) -> (s: Self)
        ensures
            s.data() == ptr,
            s.length() == length,
    {
        Span { data: ptr, length, phantom: PhantomData }
    }
}

impl<T: Copy> Span<T, true> {
    /// Fetches the address of the elements the span points to, for writing.
    pub fn as_ptr_mut(&mut self) -> (p: usize)
        ensures
            p == old(self).data(),
            *final(self) == *old(self),
    {
        self.data
    }
}

impl<T: Copy, const MUT: bool> Clone for Span<T, MUT> {
    fn clone(&self) -> (s: Self)
        ensures
            s == *self,
    {
        Span { data: self.data, length: self.length, phantom: PhantomData }
    }
}

impl<T: Copy, const MUT: bool> Copy for Span<T, MUT> {}

impl<T: Copy, const MUT: bool> Default for Span<T, MUT> {
    fn default() -> (s: Self)
        ensures
            s.data() == 0,
            s.length() == 0,
    {
        Self::new()
    }
}

} // verus!
