//! Checked casts of type-erased objects, by interface and by object id.
use vstd::prelude::*;
use crate::ptr::{DynObj, ObjMetadata, ObjMetadataInterface, ObjectId, from_raw_parts};
use crate::uuid::Uuid;

verus! {

/// Casting error: the object that could not be cast, what was required and
/// what was available.
pub struct CastError<T> {
    /// Object.
    pub obj: T,
    /// Required name.
    pub required: &'static str,
    /// Required id.
    pub required_id: Uuid,
    /// Available name.
    pub available: &'static str,
    /// Available id.
    pub available_id: Uuid,
}

/// Reinterprets the metadata of an object for another interface.
fn retag<Dyn: ?Sized, U: ?Sized>(m: ObjMetadata<Dyn>) -> (r: ObjMetadata<U>)
    ensures
        r.head() == m.head(),
{
    ObjMetadata::new(m.vtable())
}

/// Casts the interface of the object to `U`.
///
/// Succeeds exactly when the object's vtable implements interface `U`; the
/// cast keeps the address and the vtable. On failure the error carries the
/// object, the required interface and the one that was available.
pub fn try_cast<U: ObjMetadataInterface, Dyn: ?Sized>(obj: DynObj<Dyn>) -> (r: Result<DynObj<U>, CastError<DynObj<Dyn>>>)
    ensures
        r is Ok <==> obj.meta().head().__internal_interface_id@ == U::spec_interface_id(),
        r matches Ok(o) ==> o.addr() == obj.addr() && o.meta().head() == obj.meta().head(),
        r matches Err(e) ==> {
            &&& e.obj == obj
            &&& e.required_id@ == U::spec_interface_id()
            &&& e.available_id@ == obj.meta().head().__internal_interface_id@
            &&& e.available == obj.meta().head().__internal_interface_name.as_slice()
        },
{
    let m = crate::ptr::metadata(obj);
    if m.is_interface::<U>() {
        Ok(from_raw_parts(obj.as_addr(), retag(m)))
    } else {
        Err(
            CastError {
                obj,
                required: U::interface_name(),
                required_id: U::interface_id(),
                available: m.interface_name(),
                available_id: m.interface_id(),
            },
        )
    }
}

/// Casts the object to the address of a concrete `O`.
///
/// Succeeds exactly when the object is an `O`, with the object's address. On
/// failure the error carries the object, the required object type and the
/// one that was available.
pub fn try_cast_obj<O: ObjectId, Dyn: ?Sized>(obj: DynObj<Dyn>) -> (r: Result<usize, CastError<DynObj<Dyn>>>)
    ensures
        r is Ok <==> obj.meta().head().__internal_object_id@ == O::spec_object_id(),
        r matches Ok(p) ==> p == obj.addr(),
        r matches Err(e) ==> {
            &&& e.obj == obj
            &&& e.required_id@ == O::spec_object_id()
            &&& e.available_id@ == obj.meta().head().__internal_object_id@
            &&& e.available == obj.meta().head().__internal_object_name.as_slice()
        },
{
    let m = crate::ptr::metadata(obj);
    if m.is::<O>() {
        Ok(obj.as_addr())
    } else {
        Err(
            CastError {
                obj,
                required: O::object_name(),
                required_id: O::object_id(),
                available: m.object_name(),
                available_id: m.object_id(),
            },
        )
    }
}

} // verus!
