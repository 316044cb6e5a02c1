//! Object pointers: a data address together with metadata that refers to the
//! object's vtable head (size, alignment, object and interface identity).
use vstd::prelude::*;
use std::marker::PhantomData;
use crate::obj_str::ConstStr;
use crate::uuid::Uuid;

verus! {

/// The bytes of an object or interface id, as used in specifications.
///
/// Implementations of [`ObjectId`] and [`ObjMetadataInterface`] name their
/// id with it; outside verified code that item is never called at run time.
pub type IdBytes = Seq<u8>;

/// Specifies a new object type: its unique id and its name.
pub trait ObjectId {
    /// The id of the object, as bytes.
    spec fn spec_object_id() -> IdBytes;

    /// Unique id of the object.
    fn object_id() -> (id: Uuid)
        ensures
            id@ == Self::spec_object_id(),
    ;

    /// Name of the object.
    fn object_name() -> &'static str;
}

/// Specifies a new interface type: its unique id and its name.
pub trait ObjMetadataInterface {
    /// The id of the interface, as bytes.
    spec fn spec_interface_id() -> IdBytes;

    /// Unique id of the interface.
    fn interface_id() -> (id: Uuid)
        ensures
            id@ == Self::spec_interface_id(),
    ;

    /// Name of the interface.
    fn interface_name() -> &'static str;
}

/// The common head of all vtables.
pub struct VTableHead {
    /// Address of the dropping procedure for the object, if it needs one.
    pub __internal_drop_in_place: Option<usize>,
    /// Size of the object.
    pub __internal_object_size: usize,
    /// Alignment of the object.
    pub __internal_object_alignment: usize,
    /// Unique object id.
    pub __internal_object_id: [u8; 16],
    /// Name of the underlying object type.
    pub __internal_object_name: ConstStr<'static>,
    /// Unique interface id.
    pub __internal_interface_id: [u8; 16],
    /// Name of the interface type.
    pub __internal_interface_name: ConstStr<'static>,
    /// Offset from the downcasted vtable pointer to the current vtable pointer.
    pub __internal_vtable_offset: usize,
}

impl VTableHead {
    /// Constructs a new vtable head describing object `T` implementing
    /// interface `Dyn`, embedded at `offset` bytes into the full vtable.
    pub fn new_embedded<T: ObjectId, Dyn: ObjMetadataInterface>(
        drop_in_place: Option<usize>,
        offset: usize,
    ) -> (h: VTableHead)
        ensures
            h.__internal_drop_in_place == drop_in_place,
            h.__internal_object_size == vstd::layout::size_of::<T>(),
            h.__internal_object_alignment == vstd::layout::align_of::<T>(),
            h.__internal_object_id@ == T::spec_object_id(),
            h.__internal_interface_id@ == Dyn::spec_interface_id(),
            call_ensures(T::object_name, (), h.__internal_object_name.as_slice()),
            call_ensures(Dyn::interface_name, (), h.__internal_interface_name.as_slice()),
            h.__internal_vtable_offset == offset,
    {
        vstd::layout::layout_for_type_is_valid::<T>();
        let object_id = T::object_id();
        let interface_id = Dyn::interface_id();
        let object_name_fn = T::object_name;
        let interface_name_fn = Dyn::interface_name;
        let object_name = object_name_fn();
        let interface_name = interface_name_fn();
        VTableHead {
            __internal_drop_in_place: drop_in_place,
            __internal_object_size: core::mem::size_of::<T>(),
            __internal_object_alignment: core::mem::align_of::<T>(),
            __internal_object_id: *object_id.as_bytes(),
            __internal_object_name: ConstStr::from(object_name),
            __internal_interface_id: *interface_id.as_bytes(),
            __internal_interface_name: ConstStr::from(interface_name),
            __internal_vtable_offset: offset,
        }
    }

    /// Constructs a new vtable head that is not embedded into another vtable.
    pub fn new<T: ObjectId, Dyn: ObjMetadataInterface>(drop_in_place: Option<usize>) -> (h: VTableHead)
        ensures
            h.__internal_drop_in_place == drop_in_place,
            h.__internal_object_size == vstd::layout::size_of::<T>(),
            h.__internal_object_alignment == vstd::layout::align_of::<T>(),
            h.__internal_object_id@ == T::spec_object_id(),
            h.__internal_interface_id@ == Dyn::spec_interface_id(),
            call_ensures(T::object_name, (), h.__internal_object_name.as_slice()),
            call_ensures(Dyn::interface_name, (), h.__internal_interface_name.as_slice()),
            h.__internal_vtable_offset == 0,
    {
        Self::new_embedded::<T, Dyn>(drop_in_place, 0)
    }
}

/// The metadata for a `Dyn` object type: a reference to the vtable head.
pub struct ObjMetadata<Dyn: ?Sized> {
    vtable_ptr: &'static VTableHead,
    phantom: PhantomData<Dyn>,
}

impl<Dyn: ?Sized> ObjMetadata<Dyn> {
    /// The vtable head the metadata refers to.
    pub closed spec fn head(&self) -> VTableHead {
        *self.vtable_ptr
    }

    /// Constructs a new `ObjMetadata` with a given vtable.
    pub fn new(vtable: &'static VTableHead) -> (m: Self)
        ensures
            m.head() == *vtable,
    {
        ObjMetadata { vtable_ptr: vtable, phantom: PhantomData }
    }

    /// Returns the vtable head.
    pub fn vtable(self) -> (v: &'static VTableHead)
        ensures
            *v == self.head(),
    {
        self.vtable_ptr
    }

    /// Returns if the contained type is `U`.
    pub fn is<U: ObjectId>(self) -> (b: bool)
        ensures
            b <==> self.head().__internal_object_id@ == U::spec_object_id(),
    {
        let id = U::object_id();
        self.object_id().equals(&id)
    }

    /// Returns if the interface `U` is implemented.
    pub fn is_interface<U: ObjMetadataInterface>(self) -> (b: bool)
        ensures
            b <==> self.head().__internal_interface_id@ == U::spec_interface_id(),
    {
        let id = U::interface_id();
        self.interface_id().equals(&id)
    }

    /// Returns the size of the type associated with this vtable.
    pub fn size_of(self) -> (s: usize)
        ensures
            s == self.head().__internal_object_size,
    {
        self.vtable_ptr.__internal_object_size
    }

    /// Returns the alignment of the type associated with this vtable.
    pub fn align_of(self) -> (a: usize)
        ensures
            a == self.head().__internal_object_alignment,
    {
        self.vtable_ptr.__internal_object_alignment
    }

    /// Returns the id of the type associated with this vtable.
    pub fn object_id(self) -> (id: Uuid)
        ensures
            id@ == self.head().__internal_object_id@,
    {
        Uuid::from_bytes(self.vtable_ptr.__internal_object_id)
    }

    /// Returns the name of the type associated with this vtable.
    pub fn object_name(self) -> (n: &'static str)
        ensures
            n == self.head().__internal_object_name.as_slice(),
    {
        self.vtable_ptr.__internal_object_name.into()
    }

    /// Returns the id of the interface implemented with this vtable.
    pub fn interface_id(self) -> (id: Uuid)
        ensures
            id@ == self.head().__internal_interface_id@,
    {
        Uuid::from_bytes(self.vtable_ptr.__internal_interface_id)
    }

    /// Returns the name of the interface implemented with this vtable.
    pub fn interface_name(self) -> (n: &'static str)
        ensures
            n == self.head().__internal_interface_name.as_slice(),
    {
        self.vtable_ptr.__internal_interface_name.into()
    }

    /// Offset from the downcasted vtable pointer to the current vtable.
    pub fn vtable_offset(self) -> (o: usize)
        ensures
            o == self.head().__internal_vtable_offset,
    {
        self.vtable_ptr.__internal_vtable_offset
    }
}

impl<Dyn: ?Sized> Clone for ObjMetadata<Dyn> {
    fn clone(&self) -> (m: Self)
        ensures
            m == *self,
    {
        ObjMetadata { vtable_ptr: self.vtable_ptr, phantom: PhantomData }
    }
}

impl<Dyn: ?Sized> Copy for ObjMetadata<Dyn> {}

/// A pointer to a type-erased object: the address of its data together with
/// its metadata.
pub struct DynObj<Dyn: ?Sized> {
    ptr: usize,
    metadata: ObjMetadata<Dyn>,
}

impl<Dyn: ?Sized> DynObj<Dyn> {
    /// The address of the object's data.
    pub closed spec fn addr(&self) -> usize {
        self.ptr
    }

    /// The object's metadata.
    pub closed spec fn meta(&self) -> ObjMetadata<Dyn> {
        self.metadata
    }

    /// Returns the address of the object's data.
    pub fn as_addr(&self) -> (a: usize)
        ensures
            a == self.addr(),
    {
        self.ptr
    }

    /// Returns if the contained type is `U`.
    pub fn is<U: ObjectId>(&self) -> (b: bool)
        ensures
            b <==> self.meta().head().__internal_object_id@ == U::spec_object_id(),
    {
        self.metadata.is::<U>()
    }

    /// Returns the address of the object if it is of type `U`.
    pub fn downcast<U: ObjectId>(&self) -> (r: Option<usize>)
        ensures
            r is Some <==> self.meta().head().__internal_object_id@ == U::spec_object_id(),
            r matches Some(p) ==> p == self.addr(),
    {
        if self.is::<U>() {
            Some(self.ptr)
        } else {
            None
        }
    }

    /// Returns if the interface `U` is implemented.
    pub fn is_interface<U: ObjMetadataInterface>(&self) -> (b: bool)
        ensures
            b <==> self.meta().head().__internal_interface_id@ == U::spec_interface_id(),
    {
        self.metadata.is_interface::<U>()
    }
}

impl<Dyn: ?Sized> Clone for DynObj<Dyn> {
    fn clone(&self) -> (o: Self)
        ensures
            o == *self,
    {
        DynObj { ptr: self.ptr, metadata: self.metadata }
    }
}

impl<Dyn: ?Sized> Copy for DynObj<Dyn> {}

/// Forms an object pointer from a data address and metadata.
pub fn from_raw_parts<Dyn: ?Sized>(ptr: usize, metadata: ObjMetadata<Dyn>) -> (o: DynObj<Dyn>)
    ensures
        o.addr() == ptr,
        o.meta() == metadata,
{
    DynObj { ptr, metadata }
}

/// Forms a mutable object pointer from a data address and metadata.
pub fn from_raw_parts_mut<Dyn: ?Sized>(ptr: usize, metadata: ObjMetadata<Dyn>) -> (o: DynObj<Dyn>)
    ensures
        o.addr() == ptr,
        o.meta() == metadata,
{
    DynObj { ptr, metadata }
}

/// Extracts the metadata component of the pointer.
pub fn metadata<Dyn: ?Sized>(ptr: DynObj<Dyn>) -> (m: ObjMetadata<Dyn>)
    ensures
        m == ptr.meta(),
{
    ptr.metadata
}

/// Raw representation of an immutable object: a non-null data address and
/// the metadata.
pub struct RawObj<Dyn: ?Sized> {
    ptr: usize,
    metadata: ObjMetadata<Dyn>,
}

impl<Dyn: ?Sized> RawObj<Dyn> {
    /// The data address of a raw object is never null.
    #[verifier::type_invariant]
    spec fn inv(&self) -> bool {
        self.ptr != 0
    }

    /// The address of the object's data.
    pub closed spec fn addr(&self) -> usize {
        self.ptr
    }

    /// The object's metadata.
    pub closed spec fn meta(&self) -> ObjMetadata<Dyn> {
        self.metadata
    }
}

/// Raw representation of a mutable object: a non-null data address and
/// the metadata.
pub struct RawObjMut<Dyn: ?Sized> {
    ptr: usize,
    metadata: ObjMetadata<Dyn>,
}

impl<Dyn: ?Sized> RawObjMut<Dyn> {
    /// The data address of a raw object is never null.
    #[verifier::type_invariant]
    spec fn inv(&self) -> bool {
        self.ptr != 0
    }

    /// The address of the object's data.
    pub closed spec fn addr(&self) -> usize {
        self.ptr
    }

    /// The object's metadata.
    pub closed spec fn meta(&self) -> ObjMetadata<Dyn> {
        self.metadata
    }
}

/// Forms a raw object from a non-null data address and metadata.
pub fn raw_from_raw_parts<Dyn: ?Sized>(ptr: usize, metadata: ObjMetadata<Dyn>) -> (r: RawObj<Dyn>)
    requires
        ptr != 0,
    ensures
        r.addr() == ptr,
        r.meta() == metadata,
{
    RawObj { ptr, metadata }
}

/// Forms a mutable raw object from a non-null data address and metadata.
pub fn raw_from_raw_parts_mut<Dyn: ?Sized>(ptr: usize, metadata: ObjMetadata<Dyn>) -> (r: RawObjMut<Dyn>)
    requires
        ptr != 0,
    ensures
        r.addr() == ptr,
        r.meta() == metadata,
{
    RawObjMut { ptr, metadata }
}

/// Constructs a [`RawObj<T>`] from a non-null object pointer.
pub fn into_raw<Dyn: ?Sized>(ptr: DynObj<Dyn>) -> (r: RawObj<Dyn>)
    requires
        ptr.addr() != 0,
    ensures
        r.addr() == ptr.addr(),
        r.meta() == ptr.meta(),
{
    raw_from_raw_parts(ptr.ptr, metadata(ptr))
}

/// Constructs an object pointer from a [`RawObj<T>`].
pub fn from_raw<Dyn: ?Sized>(ptr: RawObj<Dyn>) -> (o: DynObj<Dyn>)
    ensures
        o.addr() == ptr.addr(),
        o.addr() != 0,
        o.meta() == ptr.meta(),
{
    proof {
        use_type_invariant(&ptr);
    }
    from_raw_parts(ptr.ptr, ptr.metadata)
}

/// Constructs a [`RawObjMut<T>`] from a non-null mutable object pointer.
pub fn into_raw_mut<Dyn: ?Sized>(ptr: DynObj<Dyn>) -> (r: RawObjMut<Dyn>)
    requires
        ptr.addr() != 0,
    ensures
        r.addr() == ptr.addr(),
        r.meta() == ptr.meta(),
{
    raw_from_raw_parts_mut(ptr.ptr, metadata(ptr))
}

/// Constructs a mutable object pointer from a [`RawObjMut<T>`].
pub fn from_raw_mut<Dyn: ?Sized>(ptr: RawObjMut<Dyn>) -> (o: DynObj<Dyn>)
    ensures
        o.addr() == ptr.addr(),
        o.addr() != 0,
        o.meta() == ptr.meta(),
{
    proof {
        use_type_invariant(&ptr);
    }
    from_raw_parts_mut(ptr.ptr, ptr.metadata)
}

/// Returns the size of the type associated with the object's vtable.
pub fn size_of_val<Dyn: ?Sized>(obj: DynObj<Dyn>) -> (s: usize)
    ensures
        s == obj.meta().head().__internal_object_size,
{
    metadata(obj).size_of()
}

/// Retrieves the alignment of the object.
pub fn align_of_val<Dyn: ?Sized>(obj: DynObj<Dyn>) -> (a: usize)
    ensures
        a == obj.meta().head().__internal_object_alignment,
{
    metadata(obj).align_of()
}

/// Returns the id of the type associated with the object's vtable.
pub fn object_id<Dyn: ?Sized>(obj: DynObj<Dyn>) -> (id: Uuid)
    ensures
        id@ == obj.meta().head().__internal_object_id@,
{
    metadata(obj).object_id()
}

/// Returns the name of the type associated with the object's vtable.
pub fn object_name<Dyn: ?Sized>(obj: DynObj<Dyn>) -> (n: &'static str)
    ensures
        n == obj.meta().head().__internal_object_name.as_slice(),
{
    metadata(obj).object_name()
}

/// Returns the id of the interface implemented with the object's vtable.
pub fn interface_id<Dyn: ?Sized>(obj: DynObj<Dyn>) -> (id: Uuid)
    ensures
        id@ == obj.meta().head().__internal_interface_id@,
{
    metadata(obj).interface_id()
}

/// Returns the name of the interface implemented with the object's vtable.
pub fn interface_name<Dyn: ?Sized>(obj: DynObj<Dyn>) -> (n: &'static str)
    ensures
        n == obj.meta().head().__internal_interface_name.as_slice(),
{
    metadata(obj).interface_name()
}

/// Taking a raw object apart and putting it back keeps its address and metadata.
pub proof fn lemma_raw_round_trip<Dyn: ?Sized>(o: DynObj<Dyn>, r: RawObj<Dyn>, back: DynObj<Dyn>)
    requires
        r.addr() == o.addr(),
        r.meta() == o.meta(),
        back.addr() == r.addr(),
        back.meta() == r.meta(),
    ensures
        back == o,
{
}

/// Marks that the layout of a type is compatible with an [`ObjMetadata`]:
/// it starts with a [`VTableHead`].
pub trait ObjMetadataCompatible {}

impl ObjMetadataCompatible for VTableHead {}

/// Indicates that an object can be coerced to a [`DynObj`]: it provides the
/// vtable describing the interface and the object.
pub trait FetchVTable<Dyn: ?Sized>: ObjectId {
    /// Returns a static reference to the vtable describing the interface and object.
    fn fetch_interface() -> &'static VTableHead;
}

/// Trait for upcasting a vtable.
///
/// The upcasting operation must maintain the ids and names of the object
/// and of the interface it started from.
pub trait CastSuper<Dyn: ?Sized> {
    /// Retrieves a super vtable to the same object.
    fn cast_super(obj: ObjMetadata<Self>) -> ObjMetadata<Dyn>;
}

/// Marker for types compatible with the custom pointer types.
pub trait ObjPtrCompat {}

/// Marker trait indicating that a type `T` is compatible with the marker.
pub trait MarkerCompatible<T> {}

} // verus!
