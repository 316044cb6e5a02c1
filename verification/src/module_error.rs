//! Errors of the module layer: a kind, optionally with an inner error.
use vstd::prelude::*;

verus! {

/// gRPC status codes used by [`Error`].
#[derive(Clone, Copy, Debug, PartialEq, Eq, Structural, Hash, Ord, PartialOrd)]
pub enum ErrorKind {
    /// The operation was cancelled.
    Cancelled,
    /// Unknown error.
    Unknown,
    /// Client specified an invalid argument.
    InvalidArgument,
    /// Deadline expired before operation could complete.
    DeadlineExceeded,
    /// Some requested entity was not found.
    NotFound,
    /// The entity that a client attempted to create already exists.
    AlreadyExists,
    /// The caller does not have permission to execute the specified operation.
    PermissionDenied,
    /// Some resource has been exhausted.
    ResourceExhausted,
    /// The system is not in a state required for the operation's execution.
    FailedPrecondition,
    /// The operation was aborted.
    Aborted,
    /// The operation was attempted past the valid range.
    OutOfRange,
    /// The operation is not implemented or is not supported/enabled.
    Unimplemented,
    /// Internal error.
    Internal,
    /// The service is currently unavailable.
    Unavailable,
    /// Unrecoverable data loss or corruption.
    DataLoss,
    /// The request does not have valid authentication credentials for the operation.
    Unauthenticated,
}

/// The gRPC status code of each kind.
pub open spec fn kind_code(kind: ErrorKind) -> i8 {
    match kind {
        ErrorKind::Cancelled => 1,
        ErrorKind::Unknown => 2,
        ErrorKind::InvalidArgument => 3,
        ErrorKind::DeadlineExceeded => 4,
        ErrorKind::NotFound => 5,
        ErrorKind::AlreadyExists => 6,
        ErrorKind::PermissionDenied => 7,
        ErrorKind::ResourceExhausted => 8,
        ErrorKind::FailedPrecondition => 9,
        ErrorKind::Aborted => 10,
        ErrorKind::OutOfRange => 11,
        ErrorKind::Unimplemented => 12,
        ErrorKind::Internal => 13,
        ErrorKind::Unavailable => 14,
        ErrorKind::DataLoss => 15,
        ErrorKind::Unauthenticated => 16,
    }
}

/// The gRPC status codes from 1 on, in the order of their numbers:
/// `grpc_status_order()[c - 1]` is the kind with status code `c`.
pub open spec fn grpc_status_order() -> Seq<ErrorKind> {
    seq![
        ErrorKind::Cancelled,
        ErrorKind::Unknown,
        ErrorKind::InvalidArgument,
        ErrorKind::DeadlineExceeded,
        ErrorKind::NotFound,
        ErrorKind::AlreadyExists,
        ErrorKind::PermissionDenied,
        ErrorKind::ResourceExhausted,
        ErrorKind::FailedPrecondition,
        ErrorKind::Aborted,
        ErrorKind::OutOfRange,
        ErrorKind::Unimplemented,
        ErrorKind::Internal,
        ErrorKind::Unavailable,
        ErrorKind::DataLoss,
        ErrorKind::Unauthenticated,
    ]
}

/// The description of each kind.
pub open spec fn kind_description(kind: ErrorKind) -> &'static str {
    match kind {
        ErrorKind::Cancelled => "cancelled",
        ErrorKind::Unknown => "unknown error",
        ErrorKind::InvalidArgument => "invalid argument specified",
        ErrorKind::DeadlineExceeded => "operation deadline exceeded",
        ErrorKind::NotFound => "entity not found",
        ErrorKind::AlreadyExists => "entity already exists",
        ErrorKind::PermissionDenied => "permission denied",
        ErrorKind::ResourceExhausted => "resource exhausted",
        ErrorKind::FailedPrecondition => "precondition failed",
        ErrorKind::Aborted => "aborted",
        ErrorKind::OutOfRange => "out of range",
        ErrorKind::Unimplemented => "unimplemented",
        ErrorKind::Internal => "internal error",
        ErrorKind::Unavailable => "unavailable",
        ErrorKind::DataLoss => "data loss",
        ErrorKind::Unauthenticated => "unauthenticated",
    }
}

impl ErrorKind {
    /// The gRPC status code of the kind.
    pub fn code(&self) -> (c: i8)
        ensures
            c == kind_code(*self),
            1 <= c <= 16,
            grpc_status_order()[c - 1] == *self,
    {
        match self {
            ErrorKind::Cancelled => 1,
            ErrorKind::Unknown => 2,
            ErrorKind::InvalidArgument => 3,
            ErrorKind::DeadlineExceeded => 4,
            ErrorKind::NotFound => 5,
            ErrorKind::AlreadyExists => 6,
            ErrorKind::PermissionDenied => 7,
            ErrorKind::ResourceExhausted => 8,
            ErrorKind::FailedPrecondition => 9,
            ErrorKind::Aborted => 10,
            ErrorKind::OutOfRange => 11,
            ErrorKind::Unimplemented => 12,
            ErrorKind::Internal => 13,
            ErrorKind::Unavailable => 14,
            ErrorKind::DataLoss => 15,
            ErrorKind::Unauthenticated => 16,
        }
    }

    /// A short description of the kind.
    pub fn as_str(&self) -> (s: &'static str)
        ensures
            s == kind_description(*self),
    {
        match self {
            ErrorKind::Cancelled => "cancelled",
            ErrorKind::Unknown => "unknown error",
            ErrorKind::InvalidArgument => "invalid argument specified",
            ErrorKind::DeadlineExceeded => "operation deadline exceeded",
            ErrorKind::NotFound => "entity not found",
            ErrorKind::AlreadyExists => "entity already exists",
            ErrorKind::PermissionDenied => "permission denied",
            ErrorKind::ResourceExhausted => "resource exhausted",
            ErrorKind::FailedPrecondition => "precondition failed",
            ErrorKind::Aborted => "aborted",
            ErrorKind::OutOfRange => "out of range",
            ErrorKind::Unimplemented => "unimplemented",
            ErrorKind::Internal => "internal error",
            ErrorKind::Unavailable => "unavailable",
            ErrorKind::DataLoss => "data loss",
            ErrorKind::Unauthenticated => "unauthenticated",
        }
    }
}

/// A custom error: a kind and an arbitrary payload.
pub struct CustomError<E> {
    /// Kind of the error.
    pub kind: ErrorKind,
    /// Payload.
    pub error: E,
}

/// Representation of an [`Error`].
pub enum ErrorRepr<E> {
    /// Only a kind.
    Simple(ErrorKind),
    /// A kind with a payload.
    Custom(Box<CustomError<E>>),
}

/// Error type for modules.
pub struct Error<E> {
    repr: ErrorRepr<E>,
}

impl<E> Error<E> {
    /// The kind of the error.
    pub closed spec fn spec_kind(&self) -> ErrorKind {
        match self.repr {
            ErrorRepr::Simple(kind) => kind,
            ErrorRepr::Custom(c) => c.kind,
        }
    }

    /// The payload of the error, if it has one.
    pub closed spec fn spec_inner(&self) -> Option<E> {
        match self.repr {
            ErrorRepr::Simple(_) => None,
            ErrorRepr::Custom(c) => Some(c.error),
        }
    }

    /// Creates a new error from a known kind of error as well as an arbitrary payload.
    pub fn new(kind: ErrorKind, error: E) -> (e: Error<E>)
        ensures
            e.spec_kind() == kind,
            e.spec_inner() == Some(error),
    {
        Error { repr: ErrorRepr::Custom(Box::new(CustomError { kind, error })) }
    }

    /// Consumes the `Error`, returning its inner error (if any).
    ///
    /// If this [`Error`] was constructed via [`new`](Error::new) then this
    /// function will return [`Some`], otherwise it will return [`None`].
    pub fn into_inner(self) -> (r: Option<E>)
        ensures
            r == self.spec_inner(),
    {
        match self.repr {
            ErrorRepr::Simple(_) => None,
            ErrorRepr::Custom(c) => Some(c.error),
        }
    }

    /// Returns the corresponding [`ErrorKind`] of this error.
    pub fn kind(&self) -> (k: ErrorKind)
        ensures
            k == self.spec_kind(),
    {
        match &self.repr {
            ErrorRepr::Simple(kind) => *kind,
            ErrorRepr::Custom(c) => c.kind,
        }
    }

    /// The description of an error that carries only a kind; `None` when it
    /// carries a payload, which describes itself.
    pub fn kind_message(&self) -> (s: Option<&'static str>)
        ensures
            self.spec_inner() is None ==> s == Some(kind_description(self.spec_kind())),
            self.spec_inner() is Some ==> s is None,
    {
        match &self.repr {
            ErrorRepr::Simple(kind) => Some(kind.as_str()),
            ErrorRepr::Custom(_) => None,
        }
    }
}

impl<E> From<ErrorKind> for Error<E> {
    fn from(kind: ErrorKind) -> (e: Self)
        ensures
            e.spec_kind() == kind,
            e.spec_inner() is None,
    {
        Error { repr: ErrorRepr::Simple(kind) }
    }
}

impl<E> vstd::std_specs::convert::FromSpecImpl<ErrorKind> for Error<E> {
    open spec fn obeys_from_spec() -> bool {
        true
    }

    closed spec fn from_spec(v: ErrorKind) -> Self {
        Error { repr: ErrorRepr::Simple(v) }
    }
}

/// An error made from a bare kind reports that kind and carries no inner
/// error.
pub proof fn lemma_from_kind<E>(kind: ErrorKind)
    ensures
        <Error<E> as vstd::std_specs::convert::FromSpec<ErrorKind>>::from_spec(kind).spec_kind() == kind,
        <Error<E> as vstd::std_specs::convert::FromSpec<ErrorKind>>::from_spec(kind).spec_inner() is None,
{
}

/// The code of every kind is its gRPC status code: its position, counted
/// from 1, in the list of gRPC status codes.
pub proof fn lemma_code_is_grpc_status(kind: ErrorKind)
    ensures
        1 <= kind_code(kind) <= 16,
        grpc_status_order()[kind_code(kind) - 1] == kind,
{
}

/// Every kind has its own status code, from 1 to 16.
pub proof fn lemma_codes_distinct(a: ErrorKind, b: ErrorKind)
    ensures
        1 <= kind_code(a) <= 16,
        kind_code(a) == kind_code(b) <==> a == b,
{
}

} // verus!
