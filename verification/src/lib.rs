//! AES-CBC + HMAC-SHA2 authenticated content encryption for JSON Web Encryption.
//!
//! The three algorithms `A128CBC-HS256`, `A192CBC-HS384` and `A256CBC-HS512`
//! are the variants of [`AesCbcHmacJweEncryption`]. A content-encryption key
//! is a MAC sub-key of 16 bytes followed by an AES key of 16, 24 or 32 bytes.
//! Encryption yields the AES-CBC ciphertext of the message and a tag: the
//! leading bytes of the HMAC over the additional authenticated data, the
//! initialization vector, the ciphertext and the bit length of the additional
//! authenticated data. Decryption releases a message only for a matching tag.
//!
//! - [`algorithm`] holds the algorithms and what they promise.
//! - [`layout`] lays out the byte string that the MAC is computed over.
//! - [`laws`] proves what holds of encryption and decryption together.
//! - [`primitives`] states what is relied on from OpenSSL, without proof.
//! - [`error`] holds the two kinds of failure.
pub mod algorithm;
pub mod error;
pub mod laws;
pub mod layout;
pub mod primitives;

pub use crate::algorithm::AesCbcHmacJweEncryption;
pub use crate::error::JoseError;
