//! Error information: an owned, valid UTF-8 message.
use vstd::prelude::*;
use vstd::utf8::*;
use vstd::string::*;
use crate::text::{copy_bytes, bytes_as_str};

verus! {

broadcast use vstd::utf8::group_utf8_lib;

/// Error info: the message of an error.
pub struct ErrorInfo {
    message: Vec<u8>,
}

impl View for ErrorInfo {
    type V = Seq<u8>;

    /// The bytes of the message.
    closed spec fn view(&self) -> Seq<u8> {
        self.message@
    }
}

impl ErrorInfo {
    /// The message is always valid UTF-8.
    #[verifier::type_invariant]
    spec fn inv(&self) -> bool {
        valid_utf8(self.message@)
    }

    /// Creates the error info of a boxed message.
    pub fn from(v: Box<&str>) -> (e: Self)
        ensures
            e@ == (*v).spec_bytes(),
    {
        let s: &str = *v;
        proof {
            encode_utf8_valid_utf8(s@);
        }
        ErrorInfo { message: copy_bytes(s.as_bytes()) }
    }

    /// Consumes the `ErrorInfo` and hands out its message, which
    /// [`ErrorInfo::from_raw`] turns back into the same `ErrorInfo`.
    pub fn into_raw(self) -> (raw: Vec<u8>)
        ensures
            raw@ == self@,
            valid_utf8(raw@),
    {
        proof {
            use_type_invariant(&self);
        }
        self.message
    }

    /// Creates an `ErrorInfo` from a message handed out by
    /// [`ErrorInfo::into_raw`]; the message must be valid UTF-8.
    pub fn from_raw(raw: Vec<u8>) -> (e: Self)
        requires
            valid_utf8(raw@),
        ensures
            e@ == raw@,
    {
        ErrorInfo { message: raw }
    }

    /// Fetches the bytes of the error string.
    pub fn as_str(&self) -> (b: &[u8])
        ensures
            b@ == self@,
            valid_utf8(b@),
    {
        proof {
            use_type_invariant(self);
        }
        self.message.as_slice()
    }

    /// Fetches the error string.
    pub fn as_ref(&self) -> (s: &str)
        ensures
            s.spec_bytes() == self@,
    {
        proof {
            use_type_invariant(self);
        }
        bytes_as_str(self.message.as_slice())
    }
}

impl Clone for ErrorInfo {
    fn clone(&self) -> (e: Self)
        ensures
            e@ == self@,
    {
        proof {
            use_type_invariant(self);
        }
        ErrorInfo { message: copy_bytes(self.message.as_slice()) }
    }
}

/// Opaque structure representing an error info.
pub struct ErrorInfoData {
    dummy: (),
}

/// Error info vtable: the addresses of its three procedures.
#[derive(Clone, Copy, PartialEq, Eq, Structural, PartialOrd, Ord, Hash, Debug)]
pub struct ErrorInfoVTable {
    /// Cleanup function pointer.
    pub cleanup_fn: crate::type_wrapper::TypeWrapper<usize>,
    /// Clone function pointer.
    pub clone_fn: crate::type_wrapper::TypeWrapper<usize>,
    /// AsStr function pointer.
    pub as_str_fn: crate::type_wrapper::TypeWrapper<usize>,
}

/// Types with available error info vtables: the procedures behind an error info.
pub trait AsErrorInfoVTable {
    /// Cleanup function.
    fn cleanup_fn(ptr: Option<crate::non_null_const::NonNullConst<ErrorInfoData>>);

    /// Clone function.
    fn clone_fn(
        ptr: Option<crate::non_null_const::NonNullConst<ErrorInfoData>>,
    ) -> Option<crate::non_null_const::NonNullConst<ErrorInfoData>>;

    /// As-str function.
    fn as_str_fn(ptr: Option<crate::non_null_const::NonNullConst<ErrorInfoData>>) -> crate::span::ConstSpan<u8>;
}

} // verus!
