use vstd::prelude::*;
use crate::value::FieldType;

verus! {

/// Failure of the value codec: the wire union carried no variant at all.
#[derive(Clone, Copy, PartialEq, Eq, Structural, Debug)]
pub enum DecodeError {
    EmptyValue,
}

/// Failure when projecting a raw field mapping onto a typed record.
/// Carries the field name and, for a mismatch, the expected and actual kinds,
/// so a caller can act without re-parsing a message string.
#[derive(Clone, Debug, PartialEq)]
pub enum MappingError {
    MissingField { field: String },
    TypeMismatch { field: String, expected: FieldType, actual: FieldType },
}

/// Failure of a credential refresh exchange: the exchange did not complete,
/// or its response did not carry a usable token and lifetime.
#[derive(Clone, Copy, PartialEq, Eq, Structural, Debug)]
pub enum CredentialError {
    ExchangeFailed,
    MalformedResponse,
}

/// Startup-fatal configuration faults.
#[derive(Clone, Copy, PartialEq, Eq, Structural, Debug)]
pub enum ConfigError {
    MalformedKey,
    EmptyEndpoint,
    EmptyDomainName,
    EmptyTrustRoots,
}

/// A fatal transport-level failure while establishing or using the channel.
/// Fatal for the call it interrupts; the caller may retry.
#[derive(Clone, Copy, PartialEq, Eq, Structural, Debug)]
pub enum TransportError {
    UntrustedCertificate,
    HandshakeFailed,
    ConnectionRefused,
}

/// The closed taxonomy of failures a document-store call surfaces.
/// Lower-layer failures are carried as their own kinds, never collapsed.
#[derive(Clone, Debug, PartialEq)]
pub enum ApiError {
    Unauthenticated,
    NotFound { path: String },
    AlreadyExists { path: String },
    InvalidArgument { reason: String },
    Unavailable,
    DeadlineExceeded,
    Internal,
    Credential(CredentialError),
    Transport(TransportError),
    Decode(DecodeError),
    Mapping(MappingError),
}

impl ApiError {
    /// Only a transient transport fault or an expired deadline may be retried
    /// by the caller with backoff; every other kind is terminal for the call.
    pub open spec fn spec_retryable(&self) -> bool {
        self is Unavailable || self is DeadlineExceeded || self is Transport
    }

    pub fn is_retryable(&self) -> (r: bool)
        ensures
            r == self.spec_retryable(),
    {
        match self {
            ApiError::Unavailable => true,
            ApiError::DeadlineExceeded => true,
            ApiError::Transport(_) => true,
            _ => false,
        }
    }
}

/// Classifies a numeric RPC status code into the closed error taxonomy,
/// attaching the path the failed call addressed where the kind calls for it.
/// Any code outside the recognized set is an unexpected server failure.
pub fn classify_status(code: u32, path: &str) -> (r: ApiError)
    ensures
        code == 3 ==> (r matches ApiError::InvalidArgument { reason } && reason@ == path@),
        code == 4 ==> r == ApiError::DeadlineExceeded,
        code == 5 ==> (r matches ApiError::NotFound { path: p } && p@ == path@),
        code == 6 ==> (r matches ApiError::AlreadyExists { path: p } && p@ == path@),
        code == 14 ==> r == ApiError::Unavailable,
        code == 16 ==> r == ApiError::Unauthenticated,
        !(code == 3 || code == 4 || code == 5 || code == 6 || code == 14 || code == 16)
            ==> r == ApiError::Internal,
{
    match code {
        3u32 => ApiError::InvalidArgument { reason: path.to_owned() },
        4u32 => ApiError::DeadlineExceeded,
        5u32 => ApiError::NotFound { path: path.to_owned() },
        6u32 => ApiError::AlreadyExists { path: path.to_owned() },
        14u32 => ApiError::Unavailable,
        16u32 => ApiError::Unauthenticated,
        _ => ApiError::Internal,
    }
}

} // verus!
