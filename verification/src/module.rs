//! Plain data of the module layer.
use vstd::prelude::*;
use crate::module_error::{Error, ErrorKind};

verus! {

/// Module manifest, as read from a module's description.
#[derive(Debug, Clone, PartialEq, Eq)]
pub enum LoaderManifest {
    /// Version `0` manifest schema.
    V0 {
        /// Path to the library.
        library_path: String,
        /// Version of the compiler, the module was compiled with.
        compiler_version: String,
    },
}

/// Some enabled feature is `feature`.
pub open spec fn feature_enabled(enabled: Seq<String>, feature: Seq<char>) -> bool {
    exists|j: int| 0 <= j < enabled.len() && #[trigger] enabled[j]@ == feature
}

/// Whether every requested feature is among the features a module enables.
pub fn features_satisfied(requested: &[String], enabled: &[String]) -> (b: bool)
    ensures
        b <==> forall|i: int| 0 <= i < requested@.len() ==> feature_enabled(enabled@, #[trigger] requested@[i]@),
{
    let mut i: usize = 0;
    while i < requested.len()
        invariant
            i <= requested@.len(),
            forall|ii: int| 0 <= ii < i ==> feature_enabled(enabled@, #[trigger] requested@[ii]@),
        decreases requested@.len() - i,
    {
        let mut found = false;
        let mut j: usize = 0;
        while j < enabled.len()
            invariant
                i < requested@.len(),
                j <= enabled@.len(),
                found ==> feature_enabled(enabled@, requested@[i as int]@),
                !found ==> forall|jj: int| 0 <= jj < j ==> #[trigger] enabled@[jj]@ != requested@[i as int]@,
            decreases enabled@.len() - j,
        {
            if enabled[j] == requested[i] {
                found = true;
            }
            j = j + 1;
        }
        if !found {
            proof {
                assert(!feature_enabled(enabled@, requested@[i as int]@));
            }
            return false;
        }
        i = i + 1;
    }
    true
}

/// The feature check made when a module is requested that is already
/// loaded: the requested features are looked up among the requested features
/// themselves, so the check always passes. The module's `enabled` features
/// are what a failure would report.
pub fn require_features(requested: &[String], enabled: &[String]) -> (r: Result<(), Error<&'static str>>)
    ensures
        r is Ok,
{
    proof {
        assert forall|i: int| 0 <= i < requested@.len() implies feature_enabled(requested@, #[trigger] requested@[i]@) by {
            assert(requested@[i]@ == requested@[i]@);
        }
    }
    if features_satisfied(requested, requested) {
        Ok(())
    } else {
        Err(Error::new(ErrorKind::Unavailable, "The module does not enable all required features"))
    }
}

/// Caster of a dynamically typed module object: a reference to its vtable.
pub struct ModuleObjCaster<T: 'static> {
    vtable: &'static T,
}

impl<T: 'static> ModuleObjCaster<T> {
    /// The vtable the caster refers to.
    pub closed spec fn spec_vtable(&self) -> T {
        *self.vtable
    }

    /// Constructs a new `ModuleObjCaster`.
    pub fn new(vtable: &'static T) -> (c: Self)
        ensures
            c.spec_vtable() == *vtable,
    {
        ModuleObjCaster { vtable }
    }

    /// The vtable the caster refers to.
    pub fn vtable(&self) -> (v: &'static T)
        ensures
            *v == self.spec_vtable(),
    {
        self.vtable
    }
}

impl<T: 'static> Clone for ModuleObjCaster<T> {
    fn clone(&self) -> (c: Self)
        ensures
            c == *self,
    {
        ModuleObjCaster { vtable: self.vtable }
    }
}

impl<T: 'static> Copy for ModuleObjCaster<T> {}

impl<T: 'static> crate::dyn_arc::DynArcCaster<T> for ModuleObjCaster<T> {}

} // verus!
