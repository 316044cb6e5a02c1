//! A fixed-capacity string that always holds valid UTF-8.
use vstd::prelude::*;
use vstd::utf8::*;
use vstd::string::*;
use crate::text::{str_from_utf8, bytes_equal, copy_bytes, bytes_as_str, append_decimal, char_text, decimal_chars};

verus! {

broadcast use {vstd::utf8::group_utf8_lib, vstd::seq::group_seq_axioms};

/// `a + b`, or `usize::MAX` where the sum does not fit.
pub open spec fn saturating_sum(a: nat, b: nat) -> usize {
    if a + b <= usize::MAX {
        (a + b) as usize
    } else {
        usize::MAX
    }
}

/// The UTF-8 encoding of one character, as a byte sequence.
pub open spec fn char_bytes(ch: char) -> Seq<u8> {
    encode_utf8(seq![ch])
}

/// Encodes one character as UTF-8.
pub fn encode_char(ch: char) -> (bytes: Vec<u8>)
    ensures
        bytes@ == char_bytes(ch),
        1 <= bytes@.len() <= 4,
{
    let s: u32 = ch as u32;
    proof {
        char_is_scalar(ch);
        assert(encode_utf8(seq![ch]) == encode_scalar(ch as u32) + encode_utf8(seq![ch].drop_first()));
        assert(seq![ch].drop_first() =~= Seq::<char>::empty());
    }
    let mut bytes: Vec<u8> = Vec::new();
    if s <= 0x7F {
        bytes.push((s & 0x7F) as u8);
        assert(bytes@ =~= encode_scalar(s));
    } else if s <= 0x7FF {
        bytes.push(0xC0u8 | ((s >> 6) & 0x1F) as u8);
        bytes.push(0x80u8 | (s & 0x3F) as u8);
        assert(bytes@ =~= encode_scalar(s));
    } else if s <= 0xFFFF {
        bytes.push(0xE0u8 | ((s >> 12) & 0x0F) as u8);
        bytes.push(0x80u8 | ((s >> 6) & 0x3F) as u8);
        bytes.push(0x80u8 | (s & 0x3F) as u8);
        assert(bytes@ =~= encode_scalar(s));
    } else {
        bytes.push(0xF0u8 | ((s >> 18) & 0x7) as u8);
        bytes.push(0x80u8 | ((s >> 12) & 0x3F) as u8);
        bytes.push(0x80u8 | ((s >> 6) & 0x3F) as u8);
        bytes.push(0x80u8 | (s & 0x3F) as u8);
        assert(bytes@ =~= encode_scalar(s));
    }
    bytes
}

/// A statically sized `String`.
///
/// The string contains valid `UTF-8` characters and never more than `LEN` bytes.
pub struct ArrayString<const LEN: usize> {
    data: Vec<u8>,
}

impl<const LEN: usize> View for ArrayString<LEN> {
    type V = Seq<u8>;

    /// The bytes of the string's contents.
    closed spec fn view(&self) -> Seq<u8> {
        self.data@
    }
}

impl<const LEN: usize> ArrayString<LEN> {
    /// Well-formedness: the contents fit the capacity and are valid UTF-8.
    pub open spec fn wf(&self) -> bool {
        &&& self@.len() <= LEN
        &&& valid_utf8(self@)
    }

    /// Every `ArrayString` is well-formed.
    #[verifier::type_invariant]
    spec fn inv(&self) -> bool {
        self.wf()
    }

    /// The characters of the string.
    pub open spec fn chars(&self) -> Seq<char> {
        decode_utf8(self@)
    }

    /// Creates an empty `ArrayString`.
    pub fn new() -> (s: Self)
        ensures
            s.wf(),
            s@ == Seq::<u8>::empty(),
    {
        ArrayString { data: Vec::new() }
    }

    /// Extracts the capacity of the `ArrayString`.
    pub fn capacity(&self) -> (c: usize)
        ensures
            c == LEN,
    {
        LEN
    }

    /// Extracts the length of the `ArrayString` in bytes.
    pub fn len(&self) -> (l: usize)
        ensures
            l == self@.len(),
    {
        self.data.len()
    }

    /// Returns `true` if this `ArrayString` has a length of zero, and `false` otherwise.
    pub fn is_empty(&self) -> (b: bool)
        ensures
            b <==> self@.len() == 0,
    {
        self.len() == 0
    }

    /// Clears the content and the length of this `ArrayString`.
    pub fn clear(&mut self)
        ensures
            final(self).wf(),
            final(self)@ == Seq::<u8>::empty(),
    {
        self.data = Vec::new();
    }

    /// Returns a byte slice of this `ArrayString`'s contents.
    pub fn as_bytes(&self) -> (b: &[u8])
        ensures
            b@ == self@,
    {
        self.data.as_slice()
    }

    /// Extracts a string slice containing the entire `ArrayString`.
    pub fn as_str(&self) -> (s: &str)
        ensures
            s.spec_bytes() == self@,
            s@ == self.chars(),
    {
        proof {
            use_type_invariant(self);
        }
        bytes_as_str(self.data.as_slice())
    }

    /// Appends bytes that are known to keep the contents valid and in capacity.
    fn append_bytes(&mut self, bytes: &[u8])
        requires
            old(self)@.len() + bytes@.len() <= LEN,
            valid_utf8(old(self)@ + bytes@),
        ensures
            final(self)@ == old(self)@ + bytes@,
    {
        let mut data: Vec<u8> = Vec::new();
        std::mem::swap(&mut data, &mut self.data);
        let mut i: usize = 0;
        while i < bytes.len()
            invariant
                i <= bytes@.len(),
                data@ == old(self)@ + bytes@.subrange(0, i as int),
            decreases bytes@.len() - i,
        {
            data.push(bytes[i]);
            assert(bytes@.subrange(0, i + 1) =~= bytes@.subrange(0, i as int).push(bytes@[i as int]));
            i = i + 1;
        }
        assert(bytes@.subrange(0, bytes@.len() as int) =~= bytes@);
        self.data = data;
    }

    /// Converts a slice of bytes to an `ArrayString` without checking
    /// that the string contains valid UTF-8 or the required capacity;
    /// both are the caller's obligation.
    pub fn from_utf8_unchecked(slice: &[u8]) -> (s: Self)
        requires
            valid_utf8(slice@),
            slice@.len() <= LEN,
        ensures
            s.wf(),
            s@ == slice@,
    {
        let mut string = Self::new();
        assert(string@ + slice@ =~= slice@);
        string.append_bytes(slice);
        assert(string@ =~= slice@);
        string
    }

    /// Converts a slice of bytes to an `ArrayString`.
    ///
    /// If the slice contains valid UTF-8, and it fits in the allocated capacity,
    /// it is copied into the `ArrayString`.
    pub fn from_utf8(slice: &[u8]) -> (r: Result<Self, FromUtf8Error>)
        ensures
            r is Ok <==> (slice@.len() <= LEN && valid_utf8(slice@)),
            r matches Ok(s) ==> s.wf() && s@ == slice@,
            slice@.len() > LEN ==> r == Err::<Self, FromUtf8Error>(
                FromUtf8Error::CapacityError { available: LEN, required: slice@.len() as usize },
            ),
            slice@.len() <= LEN && !valid_utf8(slice@) ==> r matches Err(FromUtf8Error::Utf8Error(_)),
    {
        if slice.len() > LEN {
            return Err(FromUtf8Error::CapacityError { available: LEN, required: slice.len() });
        }
        match str_from_utf8(slice) {
            Ok(_) => Ok(Self::from_utf8_unchecked(slice)),
            Err(e) => Err(FromUtf8Error::Utf8Error(e)),
        }
    }

    /// Tries to push a string at the end of the `ArrayString`.
    ///
    /// On failure the contents are left untouched.
    pub fn push_str<'a>(&mut self, string: &'a str) -> (r: Result<(), PushStrError<'a>>)
        ensures
            final(self).wf(),
            r is Ok <==> old(self)@.len() + string.spec_bytes().len() <= LEN,
            r is Ok ==> final(self)@ == old(self)@ + string.spec_bytes(),
            r matches Err(e) ==> {
                &&& final(self)@ == old(self)@
                &&& e.spec_str() == string
                &&& e.spec_available() == LEN
                &&& e.spec_required() == saturating_sum(old(self)@.len(), string.spec_bytes().len())
            },
    {
        proof {
            use_type_invariant(&*self);
        }
        let slice = string.as_bytes();
        if slice.len() > LEN - self.data.len() {
            return Err(
                PushStrError {
                    str: string,
                    available_capacity: LEN,
                    required_capacity: self.data.len().saturating_add(slice.len()),
                },
            );
        }
        proof {
            encode_utf8_valid_utf8(string@);
            valid_utf8_concat(self@, slice@);
        }
        self.append_bytes(slice);
        Ok(())
    }

    /// Tries to push a character at the end of the `ArrayString`.
    ///
    /// On failure the contents are left untouched.
    pub fn push(&mut self, ch: char) -> (r: Result<(), PushErr>)
        ensures
            final(self).wf(),
            r is Ok <==> old(self)@.len() + char_bytes(ch).len() <= LEN,
            r is Ok ==> final(self)@ == old(self)@ + char_bytes(ch),
            r matches Err(e) ==> {
                &&& final(self)@ == old(self)@
                &&& e.spec_char() == ch
                &&& e.spec_available() == LEN
                &&& e.spec_required() == saturating_sum(old(self)@.len(), char_bytes(ch).len())
            },
    {
        proof {
            use_type_invariant(&*self);
        }
        let bytes = encode_char(ch);
        if bytes.len() > LEN - self.data.len() {
            return Err(
                PushErr {
                    ch,
                    available_capacity: LEN,
                    required_capacity: self.data.len().saturating_add(bytes.len()),
                },
            );
        }
        proof {
            encode_utf8_valid_utf8(seq![ch]);
            valid_utf8_concat(self@, bytes@);
        }
        self.append_bytes(bytes.as_slice());
        Ok(())
    }
}

impl<const LEN: usize> Clone for ArrayString<LEN> {
    fn clone(&self) -> (s: Self)
        ensures
            s@ == self@,
    {
        proof {
            use_type_invariant(self);
        }
        ArrayString { data: copy_bytes(self.data.as_slice()) }
    }
}

impl<const LEN: usize> Default for ArrayString<LEN> {
    fn default() -> (s: Self)
        ensures
            s.wf(),
            s@ == Seq::<u8>::empty(),
    {
        Self::new()
    }
}

impl<const LEN: usize> PartialEq for ArrayString<LEN> {
    fn eq(&self, other: &Self) -> (r: bool) {
        bytes_equal(self.data.as_slice(), other.data.as_slice())
    }
}

impl<const LEN: usize> vstd::std_specs::cmp::PartialEqSpecImpl for ArrayString<LEN> {
    open spec fn obeys_eq_spec() -> bool {
        true
    }

    open spec fn eq_spec(&self, other: &Self) -> bool {
        self@ == other@
    }
}

impl<const LEN: usize> Eq for ArrayString<LEN> {}

impl<'a, const LEN: usize> TryFrom<&'a str> for ArrayString<LEN> {
    type Error = PushStrError<'a>;

    fn try_from(value: &'a str) -> (r: Result<Self, PushStrError<'a>>)
        ensures
            r is Ok <==> value.spec_bytes().len() <= LEN,
            r matches Ok(s) ==> s.wf() && s@ == value.spec_bytes(),
            r matches Err(e) ==> {
                &&& e.spec_str() == value
                &&& e.spec_available() == LEN
                &&& e.spec_required() == saturating_sum(0, value.spec_bytes().len())
            },
    {
        let mut string = Self::new();
        match string.push_str(value) {
            Ok(()) => {
                assert(string@ =~= value.spec_bytes());
                Ok(string)
            },
            Err(e) => Err(e),
        }
    }
}

impl<'a, const LEN: usize> vstd::std_specs::convert::TryFromSpecImpl<&'a str> for ArrayString<LEN> {
    open spec fn obeys_try_from_spec() -> bool {
        false
    }

    open spec fn try_from_spec(v: &'a str) -> Result<Self, PushStrError<'a>> {
        arbitrary()
    }
}

impl<const LEN: usize> vstd::std_specs::convert::TryFromSpecImpl<char> for ArrayString<LEN> {
    open spec fn obeys_try_from_spec() -> bool {
        false
    }

    open spec fn try_from_spec(v: char) -> Result<Self, PushErr> {
        arbitrary()
    }
}

impl<const LEN: usize> TryFrom<char> for ArrayString<LEN> {
    type Error = PushErr;

    fn try_from(value: char) -> (r: Result<Self, PushErr>)
        ensures
            r is Ok <==> char_bytes(value).len() <= LEN,
            r matches Ok(s) ==> s.wf() && s@ == char_bytes(value),
            r matches Err(e) ==> {
                &&& e.spec_char() == value
                &&& e.spec_available() == LEN
                &&& e.spec_required() == saturating_sum(0, char_bytes(value).len())
            },
    {
        let mut string = Self::new();
        match string.push(value) {
            Ok(()) => {
                assert(string@ =~= char_bytes(value));
                Ok(string)
            },
            Err(e) => Err(e),
        }
    }
}

/// An error resulting from [ArrayString::from_utf8].
pub enum FromUtf8Error {
    /// An UTF-8 encoding error.
    Utf8Error(std::str::Utf8Error),
    /// A capacity error.
    CapacityError {
        /// Available capacity in bytes.
        available: usize,
        /// required capacity in bytes.
        required: usize,
    },
}

/// An error resulting from [ArrayString::push_str].
pub struct PushStrError<'a> {
    pub(crate) str: &'a str,
    pub(crate) available_capacity: usize,
    pub(crate) required_capacity: usize,
}

/// An error resulting from [ArrayString::push].
pub struct PushErr {
    pub(crate) ch: char,
    pub(crate) available_capacity: usize,
    pub(crate) required_capacity: usize,
}

impl<'a> PushStrError<'a> {
    /// The string that did not fit.
    pub closed spec fn spec_str(&self) -> &'a str {
        self.str
    }

    /// The capacity that was available.
    pub closed spec fn spec_available(&self) -> usize {
        self.available_capacity
    }

    /// The capacity that would have been needed.
    pub closed spec fn spec_required(&self) -> usize {
        self.required_capacity
    }

    /// Extracts the string slice that caused the error.
    pub fn as_str(&self) -> (s: &'a str)
        ensures
            s == self.spec_str(),
    {
        self.str
    }

    /// Extracts the available capacity of the `ArrayString` that caused the error.
    pub fn available_capacity(&self) -> (c: usize)
        ensures
            c == self.spec_available(),
    {
        self.available_capacity
    }

    /// Extracts the required capacity that `ArrayString` would have needed.
    pub fn required_capacity(&self) -> (c: usize)
        ensures
            c == self.spec_required(),
    {
        self.required_capacity
    }
}

impl PushErr {
    /// The character that did not fit.
    pub closed spec fn spec_char(&self) -> char {
        self.ch
    }

    /// The capacity that was available.
    pub closed spec fn spec_available(&self) -> usize {
        self.available_capacity
    }

    /// The capacity that would have been needed.
    pub closed spec fn spec_required(&self) -> usize {
        self.required_capacity
    }

    /// Extracts the character that caused the error.
    pub fn as_char(&self) -> (c: char)
        ensures
            c == self.spec_char(),
    {
        self.ch
    }

    /// Extracts the available capacity of the `ArrayString` that caused the error.
    pub fn available_capacity(&self) -> (c: usize)
        ensures
            c == self.spec_available(),
    {
        self.available_capacity
    }

    /// Extracts the required capacity that `ArrayString` would have needed.
    pub fn required_capacity(&self) -> (c: usize)
        ensures
            c == self.spec_required(),
    {
        self.required_capacity
    }
}

/// The message of a capacity error: the available and the required capacity
/// in decimal notation.
pub open spec fn capacity_message(available: nat, required: nat) -> Seq<char> {
    "capacity exceeded: available "@ + decimal_chars(available) + ", required "@
        + decimal_chars(required)
}

/// Writes the message of a capacity error.
fn capacity_text(available: usize, required: usize) -> (s: String)
    ensures
        s@ == capacity_message(available as nat, required as nat),
{
    let mut s = String::from_str("capacity exceeded: available ");
    append_decimal(&mut s, available);
    s.append(", required ");
    append_decimal(&mut s, required);
    s
}

impl FromUtf8Error {
    /// The message that describes the error.
    pub fn to_string(&self) -> (s: String)
        ensures
            match self {
                FromUtf8Error::Utf8Error(e) => to_string_from_display_ensures::<std::str::Utf8Error>(e, s),
                FromUtf8Error::CapacityError { available, required } =>
                    s@ == capacity_message(*available as nat, *required as nat),
            },
    {
        match self {
            FromUtf8Error::Utf8Error(e) => e.to_string(),
            FromUtf8Error::CapacityError { available, required } => capacity_text(*available, *required),
        }
    }
}

impl<'a> PushStrError<'a> {
    /// The message that describes the error, ending with the string that did
    /// not fit.
    pub fn to_string(&self) -> (s: String)
        ensures
            s@ == capacity_message(self.spec_available() as nat, self.spec_required() as nat)
                + ", string "@ + self.spec_str()@,
    {
        let mut s = capacity_text(self.available_capacity, self.required_capacity);
        s.append(", string ");
        s.append(self.str);
        s
    }
}

impl PushErr {
    /// The message that describes the error, ending with the character that
    /// did not fit.
    pub fn to_string(&self) -> (s: String)
        ensures
            s@ == capacity_message(self.spec_available() as nat, self.spec_required() as nat)
                + ", char "@ + seq![self.spec_char()],
    {
        let mut s = capacity_text(self.available_capacity, self.required_capacity);
        s.append(", char ");
        let c = char_text(self.ch);
        s.append(c.as_str());
        s
    }
}

} // verus!
