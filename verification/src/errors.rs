//! Error taxonomy of the library.
//!
//! Token failures distinguish a credential that does not decode from one that
//! has expired; storage failures distinguish a missing record from a driver
//! failure. Request-level failures carry the reason that the service reports.

use vstd::prelude::*;

verus! {

/// Failure of parsing a signed token (legacy lookup surface).
#[derive(Debug, PartialEq, Eq)]
pub enum TokenError {
    /// A credential that is not a token at all.
    UnexpectedToken(String),
    /// The signature does not match the secret, or the payload does not parse.
    TokenDecodingError(String),
    /// The signature is valid but the expiry instant has passed.
    TokenExpired(String),
}

/// Failure of parsing a signed token (registry record surface).
#[derive(Debug, PartialEq, Eq)]
pub enum TokenMetadataError {
    /// A credential that is not a token at all.
    UnexpectedToken(String),
    /// The signature does not match the secret, or the payload does not parse.
    TokenDecodingError(String),
    /// The signature is valid but the expiry instant has passed.
    TokenExpired(String),
}

/// Failure of a registry store operation.
#[derive(Debug, PartialEq, Eq)]
pub enum StorageError {
    /// The connection could not be opened or the schema statement failed.
    SchemaInitFailed,
    /// No record exists for the requested key; holds that key.
    NotFound(String),
    /// The driver reported a connection or query failure.
    QueryFailed,
}

/// Failure reported at the request boundary.
#[derive(Debug, PartialEq, Eq)]
pub enum ApiError {
    /// A token whose identity is not authorized: deleted from the registry,
    /// or an administrator credential that does not match.
    UnAuthorizedToken(String),
    /// A credential whose signature or payload is invalid.
    InvalidToken(String),
    /// A credential whose expiry instant has passed.
    ExpiredToken(String),
    /// No credential was presented at all.
    MissingBearerToken,
    /// The registry store failed; the caller sees an internal error.
    InternalServerError(String),
}

/// Failure of the provisioning helper that copies the running executable.
#[derive(Debug, PartialEq, Eq)]
pub enum UtilError {
    /// The copy failed; holds the target path and the reported reason.
    CantCopyFileError(String, String),
    /// The target executable name is not configured.
    NoTargetExeName,
}

impl ApiError {
    /// The reason text that the service returns beside a `401` or `500`.
    pub fn reason(&self) -> (r: String)
        ensures
            r@ == self.spec_reason(),
    {
        match self {
            ApiError::UnAuthorizedToken(_) => String::from_str("Unauthorized Token has been found"),
            ApiError::InvalidToken(_) => String::from_str("Invalid Token has been found"),
            ApiError::ExpiredToken(_) => String::from_str("Token has been expired"),
            ApiError::MissingBearerToken => String::from_str("Bearer Token is not provided"),
            ApiError::InternalServerError(_) => String::from_str(
                "Api Server faced an internal issue",
            ),
        }
    }

    /// The reason text, as a sequence of characters.
    pub open spec fn spec_reason(&self) -> Seq<char> {
        match self {
            ApiError::UnAuthorizedToken(_) => "Unauthorized Token has been found"@,
            ApiError::InvalidToken(_) => "Invalid Token has been found"@,
            ApiError::ExpiredToken(_) => "Token has been expired"@,
            ApiError::MissingBearerToken => "Bearer Token is not provided"@,
            ApiError::InternalServerError(_) => "Api Server faced an internal issue"@,
        }
    }
}

} // verus!
