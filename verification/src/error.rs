//! The raw parts of the FFI error types: a data pointer (possibly null) and a
//! vtable pointer, both held as addresses.
use vstd::prelude::*;
use crate::non_null_const::NonNullConst;
use crate::type_wrapper::TypeWrapper;

verus! {

/// Opaque structure representing an error.
pub struct ErrorData {
    dummy: (),
}

/// Address of the internal drop function of an `Error`.
pub type CleanupFn = TypeWrapper<usize>;

/// Address of the internal source function of an `Error` and `ErrorRef`.
pub type SourceFn = TypeWrapper<usize>;

/// Address of the internal display function of an `Error` and `ErrorRef`.
pub type DisplayInfoFn = TypeWrapper<usize>;

/// Address of the internal debug function of an `Error` and `ErrorRef`.
pub type DebugInfoFn = TypeWrapper<usize>;

/// Error vtable: the addresses of its four procedures.
#[derive(Clone, Copy, PartialEq, Eq, Structural, PartialOrd, Ord, Hash, Debug)]
pub struct ErrorVTable {
    /// Cleanup function pointer.
    pub cleanup_fn: CleanupFn,
    /// Source function pointer.
    pub source_fn: SourceFn,
    /// Display function pointer.
    pub display_info_fn: DisplayInfoFn,
    /// Debug function pointer.
    pub debug_info_fn: DebugInfoFn,
}

/// Unowned error value.
pub struct ErrorRef {
    data: Option<NonNullConst<ErrorData>>,
    vtable: NonNullConst<ErrorVTable>,
}

impl ErrorRef {
    /// The data pointer, if any.
    pub closed spec fn data(&self) -> Option<NonNullConst<ErrorData>> {
        self.data
    }

    /// The vtable pointer.
    pub closed spec fn vtable(&self) -> NonNullConst<ErrorVTable> {
        self.vtable
    }

    /// Consumes the `ErrorRef` and turns it into a pair of raw pointers.
    ///
    /// The result can be turned back into the `ErrorRef` with [ErrorRef::from_raw].
    pub fn into_raw(self) -> (r: (Option<NonNullConst<ErrorData>>, NonNullConst<ErrorVTable>))
        ensures
            r == (self.data(), self.vtable()),
    {
        (self.data, self.vtable)
    }

    /// Creates a new `ErrorRef` from a data and vtable pointer.
    ///
    /// The pointers must originate from a call to [ErrorRef::into_raw]
    /// or from a function in the vtable.
    pub fn from_raw(data: Option<NonNullConst<ErrorData>>, vtable: NonNullConst<ErrorVTable>) -> (e: Self)
        ensures
            e.data() == data,
            e.vtable() == vtable,
    {
        ErrorRef { data, vtable }
    }
}

impl Clone for ErrorRef {
    fn clone(&self) -> (e: Self)
        ensures
            e == *self,
    {
        ErrorRef { data: self.data, vtable: self.vtable }
    }
}

impl Copy for ErrorRef {}

/// Owned error value.
pub struct Error {
    internal: ErrorRef,
}

impl Error {
    /// The data pointer, if any.
    pub closed spec fn data(&self) -> Option<NonNullConst<ErrorData>> {
        self.internal.data()
    }

    /// The vtable pointer.
    pub closed spec fn vtable(&self) -> NonNullConst<ErrorVTable> {
        self.internal.vtable()
    }

    /// Consumes the `Error` and turns it into a pair of raw pointers.
    ///
    /// The result can be turned back into the `Error` with [Error::from_raw].
    pub fn into_raw(self) -> (r: (Option<NonNullConst<ErrorData>>, NonNullConst<ErrorVTable>))
        ensures
            r == (self.data(), self.vtable()),
    {
        self.internal.into_raw()
    }

    /// Creates a new `Error` from a data and vtable pointer.
    ///
    /// The pointers must originate from a call to [Error::into_raw]
    /// or from a function in the vtable.
    pub fn from_raw(data: Option<NonNullConst<ErrorData>>, vtable: NonNullConst<ErrorVTable>) -> (e: Self)
        ensures
            e.data() == data,
            e.vtable() == vtable,
    {
        Error { internal: ErrorRef::from_raw(data, vtable) }
    }
}

/// Types with available error vtables: the procedures behind an error.
pub trait AsErrorVTable {
    /// Cleanup function.
    fn cleanup_fn(data: Option<NonNullConst<ErrorData>>);

    /// Source function.
    fn source_fn(data: Option<NonNullConst<ErrorData>>) -> crate::optional::Optional<ErrorRef>;

    /// Display function.
    fn display_info_fn(data: Option<NonNullConst<ErrorData>>) -> crate::error_info::ErrorInfo;

    /// Debug function.
    fn debug_info_fn(data: Option<NonNullConst<ErrorData>>) -> crate::error_info::ErrorInfo;
}

} // verus!
