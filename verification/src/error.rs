//! The two ways in which encryption and decryption fail.
use vstd::prelude::*;

verus! {

/// Why an operation produced no output.
#[derive(Debug, Clone, Copy, PartialEq, Eq, Structural)]
pub enum JoseError {
    /// The cipher step rejected the key, the initialization vector or the ciphertext.
    InvalidKeyFormat,
    /// The authentication tag could not be computed, or does not match.
    InvalidSignature,
}

} // verus!
