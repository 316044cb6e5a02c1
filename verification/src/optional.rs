//! An FFI-safe optional value.
use vstd::prelude::*;

verus! {

/// An optional value.
#[derive(Copy, PartialEq, PartialOrd, Eq, Ord, Debug, Hash)]
pub enum Optional<T> {
    /// Empty variant.
    Empty,
    /// `T` variant.
    Value(T),
}

/// The native option that corresponds to an `Optional`.
pub open spec fn to_option<T>(o: Optional<T>) -> Option<T> {
    match o {
        Optional::Empty => Option::None,
        Optional::Value(v) => Option::Some(v),
    }
}

impl<T> Optional<T> {
    /// Returns `true` if the optional contains a value.
    pub fn is_some(&self) -> (b: bool)
        ensures
            b <==> self is Value,
    {
        match self {
            Optional::Value(_) => true,
            Optional::Empty => false,
        }
    }

    /// Returns `true` if the optional is empty.
    pub fn is_none(&self) -> (b: bool)
        ensures
            b <==> self is Empty,
    {
        match self {
            Optional::Value(_) => false,
            Optional::Empty => true,
        }
    }

    /// Maps the `Optional<T>` to `Optional<&T>`.
    pub fn as_ref(&self) -> (r: Optional<&T>)
        ensures
            match *self {
                Optional::Empty => r is Empty,
                Optional::Value(v) => r == Optional::Value(&v),
            },
    {
        match self {
            Optional::Empty => Optional::Empty,
            Optional::Value(val) => Optional::Value(val),
        }
    }

    /// Maps the `Optional<T>` to `Optional<&mut T>`: a write through the
    /// returned reference lands in the optional.
    pub fn as_mut(&mut self) -> (r: Optional<&mut T>)
        ensures
            *old(self) is Empty ==> r is Empty && *final(self) is Empty,
            *old(self) is Value ==> {
                &&& r is Value
                &&& *r->0 == old(self)->0
                &&& *final(self) == Optional::Value(*final(r->0))
            },
    {
        match self {
            Optional::Empty => Optional::Empty,
            Optional::Value(val) => Optional::Value(val),
        }
    }

    /// Returns the contained value; the optional must hold one.
    ///
    /// `msg` is the message to report when it is empty; verified callers
    /// never reach that case.
    pub fn expect(self, msg: &str) -> (v: T)
        requires
            self is Value,
        ensures
            self == Optional::Value(v),
    {
        match self {
            Optional::Value(val) => val,
            Optional::Empty => {
                proof { assert(false); }
                vstd::pervasive::unreached()
            },
        }
    }

    /// Returns the contained value; the optional must hold one.
    pub fn unwrap(self) -> (v: T)
        requires
            self is Value,
        ensures
            self == Optional::Value(v),
    {
        match self {
            Optional::Value(val) => val,
            Optional::Empty => {
                proof { assert(false); }
                vstd::pervasive::unreached()
            },
        }
    }

    /// Returns the contained value or a default.
    pub fn unwrap_or(self, default: T) -> (v: T)
        ensures
            match self {
                Optional::Empty => v == default,
                Optional::Value(x) => v == x,
            },
    {
        match self {
            Optional::Empty => default,
            Optional::Value(val) => val,
        }
    }

    /// Returns the contained value or computes it from a closure.
    pub fn unwrap_or_else<F: FnOnce() -> T>(self, f: F) -> (v: T)
        requires
            self is Empty ==> f.requires(()),
        ensures
            match self {
                Optional::Empty => f.ensures((), v),
                Optional::Value(x) => v == x,
            },
    {
        match self {
            Optional::Empty => f(),
            Optional::Value(val) => val,
        }
    }

    /// Maps an `Optional<T>` to `Optional<U>` by applying a function to the contained value.
    pub fn map<U, F: FnOnce(T) -> U>(self, f: F) -> (r: Optional<U>)
        requires
            self matches Optional::Value(x) ==> f.requires((x,)),
        ensures
            match self {
                Optional::Empty => r is Empty,
                Optional::Value(x) => r matches Optional::Value(y) && f.ensures((x,), y),
            },
    {
        match self {
            Optional::Empty => Optional::Empty,
            Optional::Value(val) => Optional::Value(f(val)),
        }
    }

    /// Returns the application of the closure to the contained value or a default value.
    pub fn map_or<U, F: FnOnce(T) -> U>(self, default: U, f: F) -> (r: U)
        requires
            self matches Optional::Value(x) ==> f.requires((x,)),
        ensures
            match self {
                Optional::Empty => r == default,
                Optional::Value(x) => f.ensures((x,), r),
            },
    {
        match self {
            Optional::Empty => default,
            Optional::Value(val) => f(val),
        }
    }

    /// Applies a function to the contained value (if any), or computes a default (if not).
    pub fn map_or_else<U, D: FnOnce() -> U, F: FnOnce(T) -> U>(self, default: D, f: F) -> (r: U)
        requires
            self is Empty ==> default.requires(()),
            self matches Optional::Value(x) ==> f.requires((x,)),
        ensures
            match self {
                Optional::Empty => default.ensures((), r),
                Optional::Value(x) => f.ensures((x,), r),
            },
    {
        match self {
            Optional::Empty => default(),
            Optional::Value(val) => f(val),
        }
    }

    /// Transforms the `Optional<T>` into a `Result<T, E>`.
    pub fn ok_or<E>(self, err: E) -> (r: Result<T, E>)
        ensures
            match self {
                Optional::Empty => r == Err::<T, E>(err),
                Optional::Value(x) => r == Ok::<T, E>(x),
            },
    {
        match self {
            Optional::Empty => Err(err),
            Optional::Value(x) => Ok(x),
        }
    }

    /// Transforms the `Optional<T>` into a `Result<T, E>` by mapping the contained value or
    /// computing an error value from a closure.
    pub fn ok_or_else<E, F: FnOnce() -> E>(self, f: F) -> (r: Result<T, E>)
        requires
            self is Empty ==> f.requires(()),
        ensures
            match self {
                Optional::Empty => r matches Err(e) && f.ensures((), e),
                Optional::Value(x) => r == Ok::<T, E>(x),
            },
    {
        match self {
            Optional::Empty => Err(f()),
            Optional::Value(x) => Ok(x),
        }
    }

    /// Maps the `Optional<T>` to the native `Option<T>`.
    pub fn into_rust(self) -> (r: Option<T>)
        ensures
            r == to_option(self),
    {
        match self {
            Optional::Empty => None,
            Optional::Value(x) => Some(x),
        }
    }
}

impl<T: Clone> Clone for Optional<T> {
    fn clone(&self) -> (r: Self)
        ensures
            match *self {
                Optional::Empty => r is Empty,
                Optional::Value(x) => r matches Optional::Value(y) && cloned::<T>(x, y),
            },
    {
        match self {
            Optional::Empty => Optional::Empty,
            Optional::Value(x) => Optional::Value(x.clone()),
        }
    }
}

impl<T> Default for Optional<T> {
    fn default() -> (r: Self)
        ensures
            r is Empty,
    {
        Optional::Empty
    }
}

impl<T> From<T> for Optional<T> {
    fn from(val: T) -> (r: Self) {
        Optional::Value(val)
    }
}

impl<T> vstd::std_specs::convert::FromSpecImpl<T> for Optional<T> {
    open spec fn obeys_from_spec() -> bool {
        true
    }

    open spec fn from_spec(v: T) -> Self {
        Optional::Value(v)
    }
}

impl<T> From<Option<T>> for Optional<T> {
    fn from(val: Option<T>) -> (r: Self) {
        match val {
            None => Optional::Empty,
            Some(x) => Optional::Value(x),
        }
    }
}

impl<T> vstd::std_specs::convert::FromSpecImpl<Option<T>> for Optional<T> {
    open spec fn obeys_from_spec() -> bool {
        true
    }

    open spec fn from_spec(v: Option<T>) -> Self {
        match v {
            Option::None => Optional::Empty,
            Option::Some(x) => Optional::Value(x),
        }
    }
}

impl<T> From<Optional<T>> for Option<T> {
    fn from(val: Optional<T>) -> (r: Self) {
        val.into_rust()
    }
}

impl<T> vstd::std_specs::convert::FromSpecImpl<Optional<T>> for Option<T> {
    open spec fn obeys_from_spec() -> bool {
        true
    }

    open spec fn from_spec(v: Optional<T>) -> Self {
        to_option(v)
    }
}

/// Converting a native option into an `Optional` and back gives the same
/// option, and the other way round.
pub proof fn lemma_option_round_trip<T>(o: Option<T>, x: Optional<T>)
    ensures
        to_option(<Optional<T> as vstd::std_specs::convert::FromSpec<Option<T>>>::from_spec(o)) == o,
        <Optional<T> as vstd::std_specs::convert::FromSpec<Option<T>>>::from_spec(to_option(x)) == x,
{
}

} // verus!
