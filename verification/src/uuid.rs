//! Unique identifiers of objects and interfaces.
use vstd::prelude::*;

verus! {

/// Builds a UUID from its four fields with `uuid::Uuid::from_fields` and
/// returns its 16 bytes (`uuid::Uuid::as_bytes`).
///
/// The contract states what the `uuid` source shows: the bytes are `d1`, `d2`
/// and `d3` in big-endian order, followed by the 8 bytes of `d4`.
#[verifier::external_body]
fn uuid_from_fields(d1: u32, d2: u16, d3: u16, d4: [u8; 8]) -> (r: [u8; 16])
    ensures
        r@ == be_bytes_u32(d1) + be_bytes_u16(d2) + be_bytes_u16(d3) + d4@,
{
    *::uuid::Uuid::from_fields(d1, d2, d3, &d4).as_bytes()
}

/// The big-endian bytes of a `u32`.
pub open spec fn be_bytes_u32(v: u32) -> Seq<u8> {
    seq![(v >> 24) as u8, (v >> 16) as u8, (v >> 8) as u8, v as u8]
}

/// The big-endian bytes of a `u16`.
pub open spec fn be_bytes_u16(v: u16) -> Seq<u8> {
    seq![(v >> 8) as u8, v as u8]
}

/// The big-endian bytes of a `u64`.
pub open spec fn be_bytes_u64(v: u64) -> Seq<u8> {
    seq![
        (v >> 56) as u8,
        (v >> 48) as u8,
        (v >> 40) as u8,
        (v >> 32) as u8,
        (v >> 24) as u8,
        (v >> 16) as u8,
        (v >> 8) as u8,
        v as u8,
    ]
}

/// A universally unique identifier, held as its 16 bytes in big-endian order.
#[derive(Clone, Copy)]
pub struct Uuid {
    bytes: [u8; 16],
}

impl View for Uuid {
    type V = Seq<u8>;

    /// The 16 bytes of the identifier.
    closed spec fn view(&self) -> Seq<u8> {
        self.bytes@
    }
}

impl Uuid {
    /// An identifier always has 16 bytes.
    pub broadcast proof fn lemma_len(u: Uuid)
        ensures
            #[trigger] u@.len() == 16,
    {
    }

    /// Creates a UUID from its 16 bytes.
    pub fn from_bytes(bytes: [u8; 16]) -> (u: Uuid)
        ensures
            u@ == bytes@,
    {
        Uuid { bytes }
    }

    /// The nil UUID (all zeros).
    pub fn nil() -> (u: Uuid)
        ensures
            u@ == Seq::new(16, |i: int| 0u8),
    {
        let u = Uuid { bytes: [0u8; 16] };
        assert(u@ =~= Seq::new(16, |i: int| 0u8));
        u
    }

    /// The 16 bytes of the UUID.
    pub fn as_bytes(&self) -> (b: &[u8; 16])
        ensures
            b@ == self@,
    {
        &self.bytes
    }

    /// Returns `true` if both UUIDs hold the same bytes.
    pub fn equals(&self, other: &Uuid) -> (r: bool)
        ensures
            r <==> self@ == other@,
    {
        let mut i: usize = 0;
        while i < 16
            invariant
                i <= 16,
                self@.len() == 16,
                other@.len() == 16,
                forall|j: int| 0 <= j < i ==> self@[j] == other@[j],
            decreases 16 - i,
        {
            if self.bytes[i] != other.bytes[i] {
                return false;
            }
            i = i + 1;
        }
        assert(self@ =~= other@);
        true
    }
}

impl PartialEq for Uuid {
    fn eq(&self, other: &Self) -> (r: bool) {
        self.equals(other)
    }
}

impl vstd::std_specs::cmp::PartialEqSpecImpl for Uuid {
    open spec fn obeys_eq_spec() -> bool {
        true
    }

    open spec fn eq_spec(&self, other: &Self) -> bool {
        self@ == other@
    }
}

impl Eq for Uuid {}

/// Constructs a new [`Uuid`] from its fields; `d4` supplies the last 8 bytes
/// in big-endian order.
pub fn new_uuid(d1: u32, d2: u16, d3: u16, d4: u64) -> (u: Uuid)
    ensures
        u@ == be_bytes_u32(d1) + be_bytes_u16(d2) + be_bytes_u16(d3) + be_bytes_u64(d4),
{
    let tail: [u8; 8] = [
        (d4 >> 56) as u8,
        (d4 >> 48) as u8,
        (d4 >> 40) as u8,
        (d4 >> 32) as u8,
        (d4 >> 24) as u8,
        (d4 >> 16) as u8,
        (d4 >> 8) as u8,
        d4 as u8,
    ];
    assert(tail@ =~= be_bytes_u64(d4));
    Uuid { bytes: uuid_from_fields(d1, d2, d3, tail) }
}

} // verus!
