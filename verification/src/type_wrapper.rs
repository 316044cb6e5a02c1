//! A transparent wrapper around a value.
use vstd::prelude::*;

verus! {

/// Wrapper around a type.
///
/// Is used to give a value (here: a function's address) its own type.
#[derive(Clone, Copy, PartialEq, Eq, Structural, PartialOrd, Ord, Hash, Debug)]
pub struct TypeWrapper<T>(pub T);

} // verus!
