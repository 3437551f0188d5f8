use vstd::prelude::*;
use crate::store::StoreError;

verus! {

/// Failure of the password hashing primitive.
#[derive(Debug, Clone, Copy, PartialEq, Eq, Structural)]
pub enum HashError {
    /// Hashing failed inside the primitive, or a stored hash is not well formed.
    Failed,
}

/// Failure to issue or check a session token.
#[derive(Debug, Clone, Copy, PartialEq, Eq, Structural)]
pub enum TokenError {
    /// No symmetric key was configured.
    MissingKey,
    /// The configured key is not 32 bytes long.
    InvalidKey,
    /// The token could not be built.
    IssueFailed,
    /// The text is not shaped like a token.
    Malformed,
    /// Decryption or the integrity check failed, or the token has expired.
    AuthenticationFailed,
}

/// Failure of a credential check.
#[derive(Debug, Clone, Copy, PartialEq, Eq, Structural)]
pub enum AuthError {
    /// Unknown user or wrong password; the two are not told apart.
    InvalidCredentials,
    /// The stored hash could not be checked.
    Hashing,
    /// The store could not be read.
    Store(StoreError),
    /// A token could not be issued.
    Token(TokenError),
}

/// Failure of a request that is gated by a bearer token.
#[derive(Debug, Clone, Copy, PartialEq, Eq, Structural)]
pub enum RequestError {
    /// No authorization header came with the request.
    MissingHeader,
    /// The header's token did not verify.
    Unauthorized(TokenError),
    /// The store failed.
    Store(StoreError),
    /// No base URL is configured for public short links.
    MissingBaseUrl,
}

} // verus!
