//! The uniform error taxonomy of the secret store.

use vstd::prelude::*;

verus! {

/// Every failure a secret-store operation can surface.
#[derive(Debug, Clone, Copy, PartialEq, Eq, Structural)]
pub enum SecretError {
    /// The tenant has no cipher configuration or no database descriptor.
    ConfigurationMissing,
    /// The tenant's database is unreachable or rejects its credentials.
    ConnectionFailure,
    /// No secret or version row carries the requested identifier.
    NotFound,
    /// A field of the request is malformed.
    ValidationFailure,
    /// The key and the ciphertext do not match, or the key has the wrong length.
    DecryptionFailure,
    /// A concurrent edit already advanced the secret past the expected version.
    Conflict,
}

impl SecretError {
    /// A short description of the error, for the transport layer to envelope.
    pub fn message(&self) -> (r: &'static str)
        ensures
            r@.len() > 0,
    {
        proof {
            reveal_strlit("cipher or database configuration is not set");
            reveal_strlit("could not connect to the tenant database");
            reveal_strlit("no such secret");
            reveal_strlit("invalid input");
            reveal_strlit("decryption failed");
            reveal_strlit("the secret was edited concurrently");
        }
        match self {
            SecretError::ConfigurationMissing => "cipher or database configuration is not set",
            SecretError::ConnectionFailure => "could not connect to the tenant database",
            SecretError::NotFound => "no such secret",
            SecretError::ValidationFailure => "invalid input",
            SecretError::DecryptionFailure => "decryption failed",
            SecretError::Conflict => "the secret was edited concurrently",
        }
    }
}

} // verus!
