//! The cryptographic primitives, which OpenSSL computes.
//!
//! Nothing in this module is proved. Each item states what the library
//! relies on from the `openssl` crate, and no item promises that a call
//! succeeds: OpenSSL may fail for want of memory or of a provider.
use openssl::error::ErrorStack;
use openssl::hash::MessageDigest;
use openssl::pkey::PKey;
use openssl::sign::Signer;
use openssl::symm::Cipher;
use vstd::prelude::*;

verus! {

/// `openssl::symm::Cipher`: the handle of a symmetric cipher algorithm.
#[verifier::external_type_specification]
#[verifier::external_body]
pub struct ExCipher(Cipher);

/// `openssl::hash::MessageDigest`: the handle of a digest algorithm.
#[verifier::external_type_specification]
#[verifier::external_body]
pub struct ExMessageDigest(MessageDigest);

/// `openssl::error::ErrorStack`: the errors that a failed OpenSSL call left behind.
#[verifier::external_type_specification]
#[verifier::external_body]
pub struct ExErrorStack(ErrorStack);

/// The most bytes that OpenSSL takes as one cipher input or as a MAC key: it
/// counts them in a C `int`, and the `openssl` crate panics on more.
pub const MAX_C_INT: usize = 0x7fff_ffff;

/// Bytes in the key of `t` where `t` is AES in CBC mode: 16, 24 or 32.
/// Zero for every other cipher.
pub uninterp spec fn aes_cbc_key_len(t: Cipher) -> nat;

/// `Cipher::aes_128_cbc` is AES in CBC mode with a key of 16 bytes.
pub assume_specification[ Cipher::aes_128_cbc ]() -> (t: Cipher)
    ensures
        aes_cbc_key_len(t) == 16,
;

/// `Cipher::aes_192_cbc` is AES in CBC mode with a key of 24 bytes.
pub assume_specification[ Cipher::aes_192_cbc ]() -> (t: Cipher)
    ensures
        aes_cbc_key_len(t) == 24,
;

/// `Cipher::aes_256_cbc` is AES in CBC mode with a key of 32 bytes.
pub assume_specification[ Cipher::aes_256_cbc ]() -> (t: Cipher)
    ensures
        aes_cbc_key_len(t) == 32,
;

/// The ciphertext of `data` under AES in CBC mode with PKCS#7 padding, where
/// `key` has 16, 24 or 32 bytes and `iv` has 16.
pub uninterp spec fn aes_cbc_encrypted(key: Seq<u8>, iv: Seq<u8>, data: Seq<u8>) -> Seq<u8>;

/// The plaintext of `data` under AES in CBC mode, where `key` has 16, 24 or
/// 32 bytes and `iv` has 16. There is none where `data` is no whole number of
/// blocks or does not end in PKCS#7 padding.
pub uninterp spec fn aes_cbc_decrypted(key: Seq<u8>, iv: Seq<u8>, data: Seq<u8>) -> Option<
    Seq<u8>,
>;

/// `openssl::symm::encrypt` with an initialization vector. Where it succeeds,
/// it returns the AES-CBC ciphertext of `data`, which decrypts to `data`
/// again. The `requires` keeps away the inputs on which the crate panics.
#[verifier::external_body]
pub(crate) fn cbc_encrypt(t: Cipher, key: &[u8], iv: &[u8], data: &[u8]) -> (r: Result<
    Vec<u8>,
    ErrorStack,
>)
    requires
        aes_cbc_key_len(t) == key@.len(),
        key@.len() > 0,
        iv@.len() == 16,
        data@.len() <= MAX_C_INT,
    ensures
        r matches Ok(c) ==> c@ == aes_cbc_encrypted(key@, iv@, data@),
        r matches Ok(c) ==> aes_cbc_decrypted(key@, iv@, c@) == Some(data@),
{
    openssl::symm::encrypt(t, key, Some(iv), data)
}

/// `openssl::symm::decrypt` with an initialization vector. Where it succeeds,
/// it returns the AES-CBC plaintext of `data`. The `requires` keeps away the
/// inputs on which the crate panics.
#[verifier::external_body]
pub(crate) fn cbc_decrypt(t: Cipher, key: &[u8], iv: &[u8], data: &[u8]) -> (r: Result<
    Vec<u8>,
    ErrorStack,
>)
    requires
        aes_cbc_key_len(t) == key@.len(),
        key@.len() > 0,
        iv@.len() == 16,
        data@.len() <= MAX_C_INT,
    ensures
        r matches Ok(m) ==> aes_cbc_decrypted(key@, iv@, data@) == Some(m@),
{
    openssl::symm::decrypt(t, key, Some(iv), data)
}

/// Bytes in a digest of `md` where `md` is SHA-256, SHA-384 or SHA-512: 32, 48
/// or 64. Zero for every other digest.
pub uninterp spec fn sha2_digest_len(md: MessageDigest) -> nat;

/// `MessageDigest::sha256` is SHA-256, with digests of 32 bytes.
pub assume_specification[ MessageDigest::sha256 ]() -> (md: MessageDigest)
    ensures
        sha2_digest_len(md) == 32,
;

/// `MessageDigest::sha384` is SHA-384, with digests of 48 bytes.
pub assume_specification[ MessageDigest::sha384 ]() -> (md: MessageDigest)
    ensures
        sha2_digest_len(md) == 48,
;

/// `MessageDigest::sha512` is SHA-512, with digests of 64 bytes.
pub assume_specification[ MessageDigest::sha512 ]() -> (md: MessageDigest)
    ensures
        sha2_digest_len(md) == 64,
;

/// The HMAC of `data` under `key`, over SHA-256, SHA-384 or SHA-512 as
/// `digest_len` is 32, 48 or 64.
pub uninterp spec fn hmac_sha2(digest_len: nat, key: Seq<u8>, data: Seq<u8>) -> Seq<u8>;

/// An HMAC by way of `PKey::hmac`, `Signer::new`, `Signer::update` and
/// `Signer::sign_to_vec`. Where all four succeed, the result is the HMAC of
/// `data` under `key` over the digest `md`. Nothing is claimed of its length.
/// The `requires` keeps away the keys on which `PKey::hmac` panics.
#[verifier::external_body]
pub(crate) fn hmac(md: MessageDigest, key: &[u8], data: &[u8]) -> (r: Result<Vec<u8>, ErrorStack>)
    requires
        sha2_digest_len(md) > 0,
        key@.len() <= MAX_C_INT,
    ensures
        r matches Ok(mac) ==> mac@ == hmac_sha2(sha2_digest_len(md), key@, data@),
{
    let pkey = PKey::hmac(key)?;
    let mut signer = Signer::new(md, &pkey)?;
    signer.update(data)?;
    signer.sign_to_vec()
}

/// `openssl::memcmp::eq`: whether two byte strings of one length are equal,
/// found in a time that does not depend on what they hold. The crate panics
/// on different lengths.
#[verifier::external_body]
pub(crate) fn constant_time_eq(a: &[u8], b: &[u8]) -> (r: bool)
    requires
        a@.len() == b@.len(),
    ensures
        r == (a@ == b@),
{
    openssl::memcmp::eq(a, b)
}

} // verus!
