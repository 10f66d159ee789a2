//! The one error type of the library.
//!
//! Every failure has a kind. The kinds split into those that say the
//! presented token is unusable and those that say the cache store could not
//! be reached; `ErrorKind::disposition` draws that line.

use vstd::prelude::*;
use vstd::std_specs::convert::FromSpecImpl;

verus! {

/// The specific type of an error.
///
/// This enum may grow additional variants, the `#[non_exhaustive]`
/// attribute makes sure clients don't count on exhaustive matching.
/// (Otherwise, adding a new variant could break existing code.)
#[non_exhaustive]
#[derive(Debug, Clone, Copy, PartialEq, Eq, Structural, Hash)]
pub enum ErrorKind {
    /// The token does not consist of exactly three dot-separated segments.
    InvalidTokenShape,
    /// A segment is not unpadded URL-safe base64, or its bytes are not UTF-8.
    EncodingError,
    /// The text of a segment is not a JSON object, or a member has the wrong type.
    FormatError,
    /// The header names an algorithm that is not supported.
    InvalidAlgorithmName,
    /// The claims lack an identifier that the cache key is derived from.
    MissingField,
    /// No connection became available within the acquisition timeout.
    PoolExhausted,
    /// No store client could be made from the connection URI.
    StoreClientError,
    /// The store failed to carry out a command.
    StoreCommandError,
}

/// How a failure is to be presented to the caller of the service.
#[derive(Debug, Clone, Copy, PartialEq, Eq, Structural, Hash)]
pub enum Disposition {
    /// The token is rejected. Which part of it was at fault is not disclosed.
    Unauthorized,
    /// The store is unhealthy. The request may be tried again.
    ServiceFailure,
}

impl ErrorKind {
    /// The store-related kinds are service failures, all others reject the token.
    pub open spec fn spec_disposition(self) -> Disposition {
        match self {
            ErrorKind::PoolExhausted | ErrorKind::StoreClientError | ErrorKind::StoreCommandError =>
                Disposition::ServiceFailure,
            _ => Disposition::Unauthorized,
        }
    }

    /// Whether the failure is the caller's fault or the infrastructure's.
    #[verifier::when_used_as_spec(spec_disposition)]
    pub fn disposition(self) -> (d: Disposition)
        ensures
            d == self.spec_disposition(),
    {
        match self {
            ErrorKind::PoolExhausted => Disposition::ServiceFailure,
            ErrorKind::StoreClientError => Disposition::ServiceFailure,
            ErrorKind::StoreCommandError => Disposition::ServiceFailure,
            ErrorKind::InvalidTokenShape => Disposition::Unauthorized,
            ErrorKind::EncodingError => Disposition::Unauthorized,
            ErrorKind::FormatError => Disposition::Unauthorized,
            ErrorKind::InvalidAlgorithmName => Disposition::Unauthorized,
            ErrorKind::MissingField => Disposition::Unauthorized,
        }
    }

    /// The text that introduces the detail of an error of this kind.
    pub open spec fn spec_label(self) -> Seq<char> {
        match self {
            ErrorKind::InvalidTokenShape => "InvalidTokenShape"@,
            ErrorKind::EncodingError => "Encoding error"@,
            ErrorKind::FormatError => "Format error"@,
            ErrorKind::InvalidAlgorithmName => "InvalidAlgorithmName"@,
            ErrorKind::MissingField => "MissingField"@,
            ErrorKind::PoolExhausted => "Could not get redis connection from pool"@,
            ErrorKind::StoreClientError => "Error creating Redis client"@,
            ErrorKind::StoreCommandError => "Error executing redis command"@,
        }
    }

    /// The text that introduces the detail of an error of this kind.
    pub fn label(self) -> (text: &'static str)
        ensures
            text@ == self.spec_label(),
    {
        match self {
            ErrorKind::InvalidTokenShape => "InvalidTokenShape",
            ErrorKind::EncodingError => "Encoding error",
            ErrorKind::FormatError => "Format error",
            ErrorKind::InvalidAlgorithmName => "InvalidAlgorithmName",
            ErrorKind::MissingField => "MissingField",
            ErrorKind::PoolExhausted => "Could not get redis connection from pool",
            ErrorKind::StoreClientError => "Error creating Redis client",
            ErrorKind::StoreCommandError => "Error executing redis command",
        }
    }
}

/// An error that can occur while decoding a token or talking to the store.
#[derive(Debug, Clone, PartialEq, Eq)]
pub struct Error {
    kind: ErrorKind,
    detail: Option<String>,
}

/// How an error of the given kind and detail is rendered: the kind's label,
/// followed by a colon and the detail where there is one.
pub open spec fn rendering(kind: ErrorKind, detail: Option<Seq<char>>) -> Seq<char> {
    match detail {
        None => kind.spec_label(),
        Some(words) => kind.spec_label() + ": "@ + words,
    }
}

impl Error {
    /// The kind of this error.
    pub closed spec fn spec_kind(&self) -> &ErrorKind {
        &self.kind
    }

    /// The detail of this error, where it has one.
    pub closed spec fn spec_detail(&self) -> Option<Seq<char>> {
        match self.detail {
            None => None,
            Some(words) => Some(words@),
        }
    }

    /// The error of the given kind that carries no detail.
    pub closed spec fn bare(kind: ErrorKind) -> Error {
        Error { kind, detail: None }
    }

    /// An error of the given kind that carries the outside cause's own words.
    pub fn with_detail(kind: ErrorKind, detail: String) -> (e: Error)
        ensures
            *e.spec_kind() == kind,
            e.spec_detail() == Some(detail@),
    {
        Error { kind, detail: Some(detail) }
    }

    /// Return the specific type of this error.
    #[verifier::when_used_as_spec(spec_kind)]
    pub fn kind(&self) -> (k: &ErrorKind)
        ensures
            k == self.spec_kind(),
    {
        &self.kind
    }

    /// Unwrap this error into its underlying type.
    pub fn into_kind(self) -> (k: ErrorKind)
        ensures
            k == *self.spec_kind(),
    {
        self.kind
    }

    /// What the outside cause said, where the error carries it.
    pub fn detail(&self) -> (d: Option<&str>)
        ensures
            match d {
                None => self.spec_detail() is None,
                Some(words) => self.spec_detail() == Some(words@),
            },
    {
        match &self.detail {
            None => None,
            Some(words) => Some(words.as_str()),
        }
    }

    /// The error as one line of text, for diagnostics.
    pub fn to_string(&self) -> (text: String)
        ensures
            text@ == rendering(*self.spec_kind(), self.spec_detail()),
    {
        let mut text = String::from_str(self.kind.label());
        match &self.detail {
            None => {},
            Some(words) => {
                text.append(": ");
                text.append(words.as_str());
            },
        }
        text
    }
}

/// A crate private constructor for `Error`.
pub(crate) fn new_error(kind: ErrorKind) -> (e: Error)
    ensures
        e == Error::bare(kind),
        *e.spec_kind() == kind,
        e.spec_detail() is None,
{
    Error { kind, detail: None }
}

impl From<ErrorKind> for Error {
    fn from(kind: ErrorKind) -> (e: Error) {
        new_error(kind)
    }
}

impl FromSpecImpl<ErrorKind> for Error {
    open spec fn obeys_from_spec() -> bool {
        true
    }

    open spec fn from_spec(kind: ErrorKind) -> Error {
        Error::bare(kind)
    }
}

/// An error made from a kind alone has that kind and no detail.
pub proof fn bare_error_has_kind(kind: ErrorKind)
    ensures
        *Error::bare(kind).spec_kind() == kind,
        Error::bare(kind).spec_detail() is None,
{
}

} // verus!
