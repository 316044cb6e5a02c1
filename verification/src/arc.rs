//! The raw parts of the FFI reference-counted pointers `Arc<T>` and `Weak<T>`:
//! a data pointer and a vtable pointer, both held as addresses.
use vstd::prelude::*;
use std::marker::PhantomData;
use crate::non_null_const::NonNullConst;
use crate::type_wrapper::TypeWrapper;

verus! {

/// Address of the internal drop function of an `Arc<T>`.
pub type ArcCleanupFn = TypeWrapper<usize>;

/// Address of the internal clone function of an `Arc<T>`.
pub type ArcCloneFn = TypeWrapper<usize>;

/// Address of the internal downgrade function of an `Arc<T>`.
pub type ArcDowngradeFn = TypeWrapper<usize>;

/// VTable of an `Arc<T>` type: the addresses of its three procedures.
pub struct ArcVTable<T> {
    /// Cleanup function pointer.
    pub cleanup_fn: ArcCleanupFn,
    /// Clone function pointer.
    pub clone_fn: ArcCloneFn,
    /// Downgrade function pointer.
    pub downgrade_fn: ArcDowngradeFn,
    /// The type the table belongs to.
    pub phantom: PhantomData<T>,
}

/// An atomically reference-counted value, held by its data and vtable pointers.
pub struct Arc<T> {
    data: NonNullConst<T>,
    vtable: NonNullConst<ArcVTable<T>>,
}

impl<T> Arc<T> {
    /// The data pointer.
    pub closed spec fn data(&self) -> NonNullConst<T> {
        self.data
    }

    /// The vtable pointer.
    pub closed spec fn vtable(&self) -> NonNullConst<ArcVTable<T>> {
        self.vtable
    }

    /// Consumes the `Arc<T>` and turns it into a pair of raw pointers.
    ///
    /// The result can be turned back into the `Arc<T>` with [Arc::from_raw].
    pub fn into_raw(self) -> (r: (NonNullConst<T>, NonNullConst<ArcVTable<T>>))
        ensures
            r == (self.data(), self.vtable()),
    {
        (self.data, self.vtable)
    }

    /// Creates a new `Arc<T>` from a data and vtable pointer.
    ///
    /// The pointers must originate from a call to [Arc::into_raw]
    /// or from a function in the vtable.
    pub fn from_raw(data: NonNullConst<T>, vtable: NonNullConst<ArcVTable<T>>) -> (a: Self)
        ensures
            a.data() == data,
            a.vtable() == vtable,
    {
        Arc { data, vtable }
    }
}

/// Address of the internal drop function of a `Weak<T>`.
pub type WeakCleanupFn = TypeWrapper<usize>;

/// Address of the internal clone function of a `Weak<T>`.
pub type WeakCloneFn = TypeWrapper<usize>;

/// Address of the internal upgrade function of a `Weak<T>`.
pub type WeakUpgradeFn = TypeWrapper<usize>;

/// VTable of the `Weak<T>` type: the addresses of its three procedures.
pub struct WeakVTable<T> {
    /// Cleanup function pointer.
    pub cleanup_fn: WeakCleanupFn,
    /// Clone function pointer.
    pub clone_fn: WeakCloneFn,
    /// Upgrade function pointer.
    pub upgrade_fn: WeakUpgradeFn,
    /// The type the table belongs to.
    pub phantom: PhantomData<T>,
}

/// A weak reference to a value, held by its data and vtable pointers.
pub struct Weak<T> {
    data: NonNullConst<T>,
    vtable: NonNullConst<WeakVTable<T>>,
}

impl<T> Weak<T> {
    /// The data pointer.
    pub closed spec fn data(&self) -> NonNullConst<T> {
        self.data
    }

    /// The vtable pointer.
    pub closed spec fn vtable(&self) -> NonNullConst<WeakVTable<T>> {
        self.vtable
    }

    /// Consumes the `Weak<T>` and turns it into a pair of raw pointers.
    ///
    /// The result can be turned back into the `Weak<T>` with [Weak::from_raw].
    pub fn into_raw(self) -> (r: (NonNullConst<T>, NonNullConst<WeakVTable<T>>))
        ensures
            r == (self.data(), self.vtable()),
    {
        (self.data, self.vtable)
    }

    /// Creates a new `Weak<T>` from a data and vtable pointer.
    ///
    /// The pointers must originate from a call to [Weak::into_raw]
    /// or from a function in the vtable.
    pub fn from_raw(data: NonNullConst<T>, vtable: NonNullConst<WeakVTable<T>>) -> (w: Self)
        ensures
            w.data() == data,
            w.vtable() == vtable,
    {
        Weak { data, vtable }
    }
}

/// An `Arc` is determined by its two raw pointers, so rebuilding one with
/// [Arc::from_raw] from what [Arc::into_raw] gave back yields the same `Arc`.
pub proof fn lemma_arc_raw_parts_determine<T>(a: Arc<T>, b: Arc<T>)
    requires
        a.data() == b.data(),
        a.vtable() == b.vtable(),
    ensures
        a == b,
{
}

/// A `Weak` is determined by its two raw pointers, so rebuilding one with
/// [Weak::from_raw] from what [Weak::into_raw] gave back yields the same `Weak`.
pub proof fn lemma_weak_raw_parts_determine<T>(a: Weak<T>, b: Weak<T>)
    requires
        a.data() == b.data(),
        a.vtable() == b.vtable(),
    ensures
        a == b,
{
}

/// Provider of the procedures of an `Arc<T>` vtable.
pub trait ArcVTableProvider<T> {
    /// Drops the value behind the pointer, if it was the last strong reference.
    fn cleanup(ptr: NonNullConst<T>);

    /// Increases the reference count and returns another `Arc<T>`.
    fn clone(ptr: NonNullConst<T>) -> Arc<T>;

    /// Creates a `Weak<T>` for the pointer.
    fn downgrade(ptr: NonNullConst<T>) -> Weak<T>;
}

/// Provider of the procedures of a `Weak<T>` vtable.
pub trait WeakVTableProvider<T> {
    /// Drops the weak reference behind the pointer.
    fn cleanup(ptr: NonNullConst<T>);

    /// Returns another `Weak<T>` to the same value.
    fn clone(ptr: NonNullConst<T>) -> Weak<T>;

    /// Tries to create an `Arc<T>` for the pointer.
    fn upgrade(ptr: NonNullConst<T>) -> crate::optional::Optional<Arc<T>>;
}

} // verus!
