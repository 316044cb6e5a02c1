//! String types of the object layer: borrowed UTF-8 views (`ConstStr`,
//! `MutStr`) and their lifetime-free raw form (`StrInner`).
use vstd::prelude::*;
use vstd::utf8::*;
use vstd::string::*;
use std::ops::Deref;
use std::borrow::Borrow;
use crate::obj_span::SpanInner;
use crate::text::{str_from_utf8, bytes_equal};

verus! {

broadcast use vstd::utf8::group_utf8_lib;

/// Checks a mutable byte slice with `std::str::from_utf8_mut`.
///
/// The contract claims what the standard library documents: the call succeeds
/// exactly on valid UTF-8 input and then hands back a string slice over the
/// same bytes.
#[verifier::external_body]
fn str_from_utf8_mut<'a>(bytes: &'a mut [u8]) -> (res: Result<&'a mut str, std::str::Utf8Error>)
    ensures
        res is Ok <==> valid_utf8((*old(bytes))@),
        res matches Ok(s) ==> (*s).spec_bytes() == (*old(bytes))@,
{
    std::str::from_utf8_mut(bytes)
}

/// A ‘string slice’, akin to `&str`.
///
/// String slices are always valid UTF-8.
pub struct ConstStr<'a> {
    inner: &'a str,
}

impl<'a> View for ConstStr<'a> {
    type V = Seq<char>;

    /// The characters of the string.
    closed spec fn view(&self) -> Seq<char> {
        self.inner@
    }
}

impl<'a> ConstStr<'a> {
    /// The borrowed string slice.
    pub closed spec fn as_slice(&self) -> &'a str {
        self.inner
    }
}

impl<'a> Deref for ConstStr<'a> {
    type Target = str;

    fn deref(&self) -> (r: &str)
        ensures
            r@ == self@,
    {
        self.inner
    }
}

impl<'a> Borrow<str> for ConstStr<'a> {
    fn borrow(&self) -> &str
        returns
            self.as_slice(),
    {
        self.inner
    }
}

impl<'a> Clone for ConstStr<'a> {
    fn clone(&self) -> (r: Self)
        ensures
            r == *self,
    {
        ConstStr { inner: self.inner }
    }
}

impl<'a> Copy for ConstStr<'a> {}

impl<'a> Default for ConstStr<'a> {
    fn default() -> (r: Self)
        ensures
            r@ == Seq::<char>::empty(),
    {
        let s: &str = "";
        proof {
            reveal_strlit("");
        }
        ConstStr { inner: s }
    }
}

impl<'a> From<&'a str> for ConstStr<'a> {
    fn from(s: &'a str) -> (r: Self)
        ensures
            r.as_slice() == s,
    {
        ConstStr { inner: s }
    }
}

impl<'a> vstd::std_specs::convert::FromSpecImpl<&'a str> for ConstStr<'a> {
    open spec fn obeys_from_spec() -> bool {
        true
    }

    closed spec fn from_spec(v: &'a str) -> Self {
        ConstStr { inner: v }
    }
}

impl<'a> From<&'a mut str> for ConstStr<'a> {
    fn from(s: &'a mut str) -> (r: Self)
        ensures
            r@ == (*old(s))@,
    {
        ConstStr { inner: s }
    }
}

impl<'a> vstd::std_specs::convert::FromSpecImpl<&'a mut str> for ConstStr<'a> {
    open spec fn obeys_from_spec() -> bool {
        true
    }

    closed spec fn from_spec(v: &'a mut str) -> Self {
        ConstStr { inner: &*v }
    }
}

impl<'a> From<MutStr<'a>> for ConstStr<'a> {
    fn from(s: MutStr<'a>) -> (r: Self)
        ensures
            r@ == s@,
    {
        ConstStr { inner: s.inner }
    }
}

impl<'a> vstd::std_specs::convert::FromSpecImpl<MutStr<'a>> for ConstStr<'a> {
    open spec fn obeys_from_spec() -> bool {
        true
    }

    closed spec fn from_spec(v: MutStr<'a>) -> Self {
        ConstStr { inner: &*v.inner }
    }
}

impl<'a> From<ConstStr<'a>> for &'a str {
    fn from(s: ConstStr<'a>) -> (r: Self)
        ensures
            r == s.as_slice(),
    {
        s.inner
    }
}

impl<'a> vstd::std_specs::convert::FromSpecImpl<ConstStr<'a>> for &'a str {
    open spec fn obeys_from_spec() -> bool {
        true
    }

    closed spec fn from_spec(v: ConstStr<'a>) -> Self {
        v.inner
    }
}

impl<'a, 'b> PartialEq<ConstStr<'b>> for ConstStr<'a> {
    fn eq(&self, other: &ConstStr<'b>) -> (r: bool) {
        proof {
            encode_utf8_decode_utf8(self@);
            encode_utf8_decode_utf8(other@);
        }
        bytes_equal(self.inner.as_bytes(), other.inner.as_bytes())
    }
}

impl<'a, 'b> vstd::std_specs::cmp::PartialEqSpecImpl<ConstStr<'b>> for ConstStr<'a> {
    open spec fn obeys_eq_spec() -> bool {
        true
    }

    open spec fn eq_spec(&self, other: &ConstStr<'b>) -> bool {
        self@ == other@
    }
}

impl<'a> Eq for ConstStr<'a> {}

/// A ‘string slice’, akin to `&mut str`.
///
/// String slices are always valid UTF-8.
pub struct MutStr<'a> {
    inner: &'a mut str,
}

impl<'a> View for MutStr<'a> {
    type V = Seq<char>;

    /// The characters of the string.
    closed spec fn view(&self) -> Seq<char> {
        (*self.inner)@
    }
}

impl<'a> Deref for MutStr<'a> {
    type Target = str;

    fn deref(&self) -> (r: &str)
        ensures
            r@ == self@,
    {
        self.inner
    }
}

impl<'a> MutStr<'a> {
    /// The string, as a shared string slice.
    pub closed spec fn as_slice(&self) -> &str {
        &*self.inner
    }

    /// The shared string slice holds the characters of the string.
    pub broadcast proof fn lemma_as_slice_view(s: MutStr<'a>)
        ensures
            #[trigger] s.as_slice()@ == s@,
    {
    }
}

impl<'a> Borrow<str> for MutStr<'a> {
    fn borrow(&self) -> &str
        returns
            self.as_slice(),
    {
        self.inner
    }
}

impl<'a> From<&'a mut str> for MutStr<'a> {
    fn from(s: &'a mut str) -> (r: Self)
        ensures
            r@ == (*old(s))@,
    {
        MutStr { inner: s }
    }
}

impl<'a> vstd::std_specs::convert::FromSpecImpl<&'a mut str> for MutStr<'a> {
    /// The impl's own `ensures` states its result.
    open spec fn obeys_from_spec() -> bool {
        false
    }

    closed spec fn from_spec(v: &'a mut str) -> Self {
        MutStr { inner: v }
    }
}

impl<'a> From<MutStr<'a>> for &'a str {
    fn from(s: MutStr<'a>) -> (r: Self)
        ensures
            r@ == s@,
    {
        s.inner
    }
}

impl<'a> vstd::std_specs::convert::FromSpecImpl<MutStr<'a>> for &'a str {
    open spec fn obeys_from_spec() -> bool {
        true
    }

    closed spec fn from_spec(v: MutStr<'a>) -> Self {
        &*v.inner
    }
}

impl<'a, 'b> PartialEq<MutStr<'b>> for MutStr<'a> {
    fn eq(&self, other: &MutStr<'b>) -> (r: bool) {
        proof {
            encode_utf8_decode_utf8(self@);
            encode_utf8_decode_utf8(other@);
        }
        bytes_equal(self.inner.as_bytes(), other.inner.as_bytes())
    }
}

impl<'a, 'b> vstd::std_specs::cmp::PartialEqSpecImpl<MutStr<'b>> for MutStr<'a> {
    open spec fn obeys_eq_spec() -> bool {
        true
    }

    open spec fn eq_spec(&self, other: &MutStr<'b>) -> bool {
        self@ == other@
    }
}

impl<'a> Eq for MutStr<'a> {}

impl<'a, 'b> PartialEq<MutStr<'b>> for ConstStr<'a> {
    fn eq(&self, other: &MutStr<'b>) -> (r: bool) {
        proof {
            encode_utf8_decode_utf8(self@);
            encode_utf8_decode_utf8(other@);
        }
        bytes_equal(self.inner.as_bytes(), other.inner.as_bytes())
    }
}

impl<'a, 'b> vstd::std_specs::cmp::PartialEqSpecImpl<MutStr<'b>> for ConstStr<'a> {
    open spec fn obeys_eq_spec() -> bool {
        true
    }

    open spec fn eq_spec(&self, other: &MutStr<'b>) -> bool {
        self@ == other@
    }
}

impl<'a, 'b> PartialEq<&'b str> for ConstStr<'a> {
    fn eq(&self, other: &&'b str) -> (r: bool) {
        proof {
            encode_utf8_decode_utf8(self@);
            encode_utf8_decode_utf8(other@);
        }
        bytes_equal(self.inner.as_bytes(), other.as_bytes())
    }
}

impl<'a, 'b> vstd::std_specs::cmp::PartialEqSpecImpl<&'b str> for ConstStr<'a> {
    open spec fn obeys_eq_spec() -> bool {
        true
    }

    open spec fn eq_spec(&self, other: &&'b str) -> bool {
        self@ == other@
    }
}

impl<'a, 'b> PartialEq<ConstStr<'b>> for MutStr<'a> {
    fn eq(&self, other: &ConstStr<'b>) -> (r: bool) {
        proof {
            encode_utf8_decode_utf8(self@);
            encode_utf8_decode_utf8(other@);
        }
        bytes_equal(self.inner.as_bytes(), other.inner.as_bytes())
    }
}

impl<'a, 'b> vstd::std_specs::cmp::PartialEqSpecImpl<ConstStr<'b>> for MutStr<'a> {
    open spec fn obeys_eq_spec() -> bool {
        true
    }

    open spec fn eq_spec(&self, other: &ConstStr<'b>) -> bool {
        self@ == other@
    }
}

impl<'a, 'b> PartialEq<&'b str> for MutStr<'a> {
    fn eq(&self, other: &&'b str) -> (r: bool) {
        proof {
            encode_utf8_decode_utf8(self@);
            encode_utf8_decode_utf8(other@);
        }
        bytes_equal(self.inner.as_bytes(), other.as_bytes())
    }
}

impl<'a, 'b> vstd::std_specs::cmp::PartialEqSpecImpl<&'b str> for MutStr<'a> {
    open spec fn obeys_eq_spec() -> bool {
        true
    }

    open spec fn eq_spec(&self, other: &&'b str) -> bool {
        self@ == other@
    }
}

/// A ‘string slice’, akin to `&str` and `&mut str`, that does not track the
/// lifetime of its bytes.
pub struct StrInner<const MUT: bool> {
    inner: SpanInner<u8, MUT>,
}

impl<const MUT: bool> StrInner<MUT> {
    /// The raw span of the bytes.
    pub closed spec fn span(&self) -> SpanInner<u8, MUT> {
        self.inner
    }
}

impl<const MUT: bool> Clone for StrInner<MUT> {
    fn clone(&self) -> (r: Self)
        ensures
            r == *self,
    {
        StrInner { inner: self.inner }
    }
}

impl<const MUT: bool> Copy for StrInner<MUT> {}

impl From<StrInner<true>> for StrInner<false> {
    fn from(s: StrInner<true>) -> (r: Self)
        ensures
            r.span().ptr() == s.span().ptr(),
            r.span().len() == s.span().len(),
    {
        StrInner { inner: SpanInner::from(s.inner) }
    }
}

impl vstd::std_specs::convert::FromSpecImpl<StrInner<true>> for StrInner<false> {
    open spec fn obeys_from_spec() -> bool {
        true
    }

    closed spec fn from_spec(v: StrInner<true>) -> Self {
        StrInner { inner: <SpanInner<u8, false> as vstd::std_specs::convert::FromSpec<SpanInner<u8, true>>>::from_spec(v.inner) }
    }
}

/// Converts a slice of bytes to a string slice.
///
/// Succeeds exactly when the bytes are valid UTF-8.
pub fn from_utf8(data: &[u8]) -> (r: Result<ConstStr<'_>, std::str::Utf8Error>)
    ensures
        r is Ok <==> valid_utf8(data@),
        r matches Ok(s) ==> s@ == decode_utf8(data@),
{
    match str_from_utf8(data) {
        Ok(s) => {
            proof {
                encode_utf8_decode_utf8(s@);
            }
            Ok(ConstStr { inner: s })
        },
        Err(e) => Err(e),
    }
}

/// Converts a mutable slice of bytes to a mutable string slice.
///
/// Succeeds exactly when the bytes are valid UTF-8.
pub fn from_utf8_mut(data: &mut [u8]) -> (r: Result<MutStr<'_>, std::str::Utf8Error>)
    ensures
        r is Ok <==> valid_utf8((*old(data))@),
        r matches Ok(s) ==> s@ == decode_utf8((*old(data))@),
{
    match str_from_utf8_mut(data) {
        Ok(s) => {
            proof {
                encode_utf8_decode_utf8((*s)@);
            }
            Ok(MutStr { inner: s })
        },
        Err(e) => Err(e),
    }
}

/// Converts a slice of bytes that must be valid UTF-8 to a string slice.
pub fn from_utf8_unchecked(data: &[u8]) -> (r: ConstStr<'_>)
    requires
        valid_utf8(data@),
    ensures
        r@ == decode_utf8(data@),
{
    ConstStr { inner: crate::text::bytes_as_str(data) }
}

} // verus!
