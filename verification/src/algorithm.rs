//! The algorithm family: key split, tag computation, encryption and decryption.
use crate::error::JoseError;
use crate::layout::{build_mac_input, mac_input, MAX_AAD_LEN};
use crate::primitives::{
    aes_cbc_decrypted, aes_cbc_encrypted, aes_cbc_key_len, cbc_decrypt, cbc_encrypt,
    constant_time_eq, hmac, hmac_sha2, sha2_digest_len, MAX_C_INT,
};
use openssl::error::ErrorStack;
use openssl::hash::MessageDigest;
use openssl::symm::Cipher;
use vstd::prelude::*;

verus! {

/// Bytes in the MAC sub-key, which leads every content-encryption key.
pub const MAC_KEY_LEN: usize = 16;

/// Bytes in the initialization vector, which is one AES block.
pub const IV_LEN: usize = 16;

/// Bytes in an AES block.
pub const BLOCK_LEN: usize = 16;

/// The most bytes of a message: its ciphertext, which is up to one block
/// longer, must be within the cipher's reach when it is decrypted.
pub const MAX_MESSAGE_LEN: usize = 0x7fff_ffef;

/// Bytes in the ciphertext of a message of `len` bytes: padding fills the
/// last block, and adds a block where the last one is full.
pub open spec fn padded_len(len: nat) -> nat {
    (len / (BLOCK_LEN as nat) + 1) * BLOCK_LEN as nat
}

/// AES in CBC mode combined with HMAC over a SHA-2 digest.
#[derive(Debug, Clone, Copy, PartialEq, Eq, Structural)]
pub enum AesCbcHmacJweEncryption {
    /// AES_128_CBC_HMAC_SHA_256 authenticated encryption algorithm
    A128CbcHS256,
    /// AES_192_CBC_HMAC_SHA_384 authenticated encryption algorithm
    A192CbcHS384,
    /// AES_256_CBC_HMAC_SHA_512 authenticated encryption algorithm
    A256CbcHS512,
}

/// An encryption result as sequences of bytes.
pub open spec fn sealed_view(r: Result<(Vec<u8>, Vec<u8>), JoseError>) -> Result<
    (Seq<u8>, Seq<u8>),
    JoseError,
> {
    match r {
        Ok((ciphertext, tag)) => Ok((ciphertext@, tag@)),
        Err(e) => Err(e),
    }
}

/// A decryption or tag result as a sequence of bytes.
pub open spec fn bytes_view(r: Result<Vec<u8>, JoseError>) -> Result<Seq<u8>, JoseError> {
    match r {
        Ok(bytes) => Ok(bytes@),
        Err(e) => Err(e),
    }
}

impl AesCbcHmacJweEncryption {
    /// The registered identifier of the algorithm.
    pub open spec fn spec_name(self) -> Seq<char> {
        match self {
            Self::A128CbcHS256 => "A128CBC-HS256"@,
            Self::A192CbcHS384 => "A192CBC-HS384"@,
            Self::A256CbcHS512 => "A256CBC-HS512"@,
        }
    }

    /// Bytes in the AES key of the variant.
    pub open spec fn cipher_key_len(self) -> nat {
        match self {
            Self::A128CbcHS256 => 16,
            Self::A192CbcHS384 => 24,
            Self::A256CbcHS512 => 32,
        }
    }

    /// Bytes in a digest of the variant's SHA-2 function.
    pub open spec fn digest_len(self) -> nat {
        match self {
            Self::A128CbcHS256 => 32,
            Self::A192CbcHS384 => 48,
            Self::A256CbcHS512 => 64,
        }
    }

    /// Bytes in an authentication tag of the variant.
    pub open spec fn tag_len(self) -> nat {
        match self {
            Self::A128CbcHS256 => 16,
            Self::A192CbcHS384 => 24,
            Self::A256CbcHS512 => 32,
        }
    }

    /// Bytes in a content-encryption key: the MAC sub-key, then the AES key.
    pub open spec fn key_len(self) -> nat {
        MAC_KEY_LEN as nat + self.cipher_key_len()
    }

    /// The MAC sub-key of a content-encryption key: its leading bytes.
    pub open spec fn mac_key(key: Seq<u8>) -> Seq<u8> {
        key.subrange(0, MAC_KEY_LEN as int)
    }

    /// The AES key of a content-encryption key: the bytes after the MAC sub-key.
    pub open spec fn enc_key(key: Seq<u8>) -> Seq<u8> {
        key.subrange(MAC_KEY_LEN as int, key.len() as int)
    }

    /// The authentication tag: the leading bytes of the HMAC of the MAC input.
    pub open spec fn spec_tag(
        self,
        aad: Seq<u8>,
        iv: Seq<u8>,
        ciphertext: Seq<u8>,
        mac_key: Seq<u8>,
    ) -> Seq<u8> {
        hmac_sha2(self.digest_len(), mac_key, mac_input(aad, iv, ciphertext)).take(
            self.tag_len() as int,
        )
    }

    /// The error with which an input is turned away before any primitive runs,
    /// where `data` is what goes to the cipher and `limit` is the most bytes
    /// of it. A key or an initialization vector of the wrong length and data
    /// beyond the limit are key/format errors; additional authenticated data
    /// beyond the length field's reach is an authentication error.
    pub open spec fn rejection(
        self,
        key: Seq<u8>,
        iv: Seq<u8>,
        data: Seq<u8>,
        limit: nat,
        aad: Seq<u8>,
    ) -> Option<JoseError> {
        if key.len() != self.key_len() || iv.len() != IV_LEN || data.len() > limit {
            Some(JoseError::InvalidKeyFormat)
        } else if aad.len() > MAX_AAD_LEN {
            Some(JoseError::InvalidSignature)
        } else {
            None
        }
    }

    /// The error with which encryption turns an input away.
    pub open spec fn encrypt_rejection(
        self,
        key: Seq<u8>,
        iv: Seq<u8>,
        message: Seq<u8>,
        aad: Seq<u8>,
    ) -> Option<JoseError> {
        self.rejection(key, iv, message, MAX_MESSAGE_LEN as nat, aad)
    }

    /// The error with which decryption turns an input away.
    pub open spec fn decrypt_rejection(
        self,
        key: Seq<u8>,
        iv: Seq<u8>,
        ciphertext: Seq<u8>,
        aad: Seq<u8>,
    ) -> Option<JoseError> {
        self.rejection(key, iv, ciphertext, MAX_C_INT as nat, aad)
    }

    /// What encryption yields where OpenSSL does its part.
    pub open spec fn spec_encrypt(
        self,
        key: Seq<u8>,
        iv: Seq<u8>,
        message: Seq<u8>,
        aad: Seq<u8>,
    ) -> Result<(Seq<u8>, Seq<u8>), JoseError> {
        match self.encrypt_rejection(key, iv, message, aad) {
            Some(e) => Err(e),
            None => {
                let ciphertext = aes_cbc_encrypted(Self::enc_key(key), iv, message);
                Ok((ciphertext, self.spec_tag(aad, iv, ciphertext, Self::mac_key(key))))
            },
        }
    }

    /// What decryption yields where OpenSSL does its part.
    pub open spec fn spec_decrypt(
        self,
        key: Seq<u8>,
        iv: Seq<u8>,
        ciphertext: Seq<u8>,
        aad: Seq<u8>,
        tag: Seq<u8>,
    ) -> Result<Seq<u8>, JoseError> {
        match self.decrypt_rejection(key, iv, ciphertext, aad) {
            Some(e) => Err(e),
            None => match aes_cbc_decrypted(Self::enc_key(key), iv, ciphertext) {
                None => Err(JoseError::InvalidKeyFormat),
                Some(message) => if tag == self.spec_tag(aad, iv, ciphertext, Self::mac_key(key)) {
                    Ok(message)
                } else {
                    Err(JoseError::InvalidSignature)
                },
            },
        }
    }

    /// What `encrypt` promises of its result `r`. An output is the one that
    /// `spec_encrypt` gives, its ciphertext is the message padded to whole
    /// blocks and decrypts to the message, and its tag has the variant's
    /// length. Where `spec_encrypt` gives an error, that error is returned.
    /// Any other error is a failure of OpenSSL, and it is an authentication
    /// error only after the cipher gave a ciphertext of the right length.
    pub open spec fn encrypt_returns(
        self,
        key: Seq<u8>,
        iv: Seq<u8>,
        message: Seq<u8>,
        aad: Seq<u8>,
        r: Result<(Seq<u8>, Seq<u8>), JoseError>,
    ) -> bool {
        match r {
            Ok((ciphertext, tag)) => {
                &&& self.spec_encrypt(key, iv, message, aad) == Ok::<_, JoseError>(
                    (ciphertext, tag),
                )
                &&& ciphertext.len() == padded_len(message.len())
                &&& tag.len() == self.tag_len()
                &&& aes_cbc_decrypted(Self::enc_key(key), iv, ciphertext) == Some(message)
            },
            Err(e) => {
                &&& self.spec_encrypt(key, iv, message, aad) matches Err(f) ==> e == f
                &&& e == JoseError::InvalidSignature && self.encrypt_rejection(
                    key,
                    iv,
                    message,
                    aad,
                ) is None ==> aes_cbc_encrypted(Self::enc_key(key), iv, message).len()
                    == padded_len(message.len())
            },
        }
    }

    /// What `decrypt` promises of its result `r`. A message is the one that
    /// `spec_decrypt` gives, so its tag was matched; the ciphertext is as
    /// long as the padded message and the tag has the variant's length. An
    /// input that is turned away gets its own error, and a ciphertext without
    /// a plaintext gets a key/format error. Any other error is a tag that
    /// does not match or a failure of OpenSSL, and it is an authentication
    /// error only after the cipher gave a plaintext of the right length.
    pub open spec fn decrypt_returns(
        self,
        key: Seq<u8>,
        iv: Seq<u8>,
        ciphertext: Seq<u8>,
        aad: Seq<u8>,
        tag: Seq<u8>,
        r: Result<Seq<u8>, JoseError>,
    ) -> bool {
        match r {
            Ok(message) => {
                &&& self.spec_decrypt(key, iv, ciphertext, aad, tag) == Ok::<_, JoseError>(message)
                &&& ciphertext.len() == padded_len(message.len())
                &&& tag.len() == self.tag_len()
            },
            Err(e) => {
                &&& self.decrypt_rejection(key, iv, ciphertext, aad) matches Some(f) ==> e == f
                &&& self.spec_decrypt(key, iv, ciphertext, aad, tag) == Err::<Seq<u8>, _>(
                    JoseError::InvalidKeyFormat,
                ) ==> e == JoseError::InvalidKeyFormat
                &&& e == JoseError::InvalidSignature && self.decrypt_rejection(
                    key,
                    iv,
                    ciphertext,
                    aad,
                ) is None ==> (aes_cbc_decrypted(Self::enc_key(key), iv, ciphertext) matches Some(
                    message,
                ) && ciphertext.len() == padded_len(message.len()))
            },
        }
    }

    /// The registered identifier of the algorithm.
    pub fn name(&self) -> (r: &'static str)
        ensures
            r@ == self.spec_name(),
    {
        match self {
            Self::A128CbcHS256 => "A128CBC-HS256",
            Self::A192CbcHS384 => "A192CBC-HS384",
            Self::A256CbcHS512 => "A256CBC-HS512",
        }
    }

    /// Bytes that a content-encryption key of this variant must have.
    pub fn content_encryption_key_len(&self) -> (r: usize)
        ensures
            r == self.key_len(),
    {
        match self {
            Self::A128CbcHS256 => 16 + 16,
            Self::A192CbcHS384 => 24 + 16,
            Self::A256CbcHS512 => 32 + 16,
        }
    }

    /// Bytes that an initialization vector must have.
    pub fn iv_len(&self) -> (r: usize)
        ensures
            r == IV_LEN,
    {
        16
    }

    /// A duplicate of the algorithm on the heap.
    pub fn box_clone(&self) -> (r: Box<AesCbcHmacJweEncryption>)
        ensures
            *r == *self,
    {
        Box::new(*self)
    }

    /// The AES-CBC cipher of the variant.
    fn cipher(&self) -> (t: Cipher)
        ensures
            aes_cbc_key_len(t) == self.cipher_key_len(),
    {
        match self {
            Self::A128CbcHS256 => Cipher::aes_128_cbc(),
            Self::A192CbcHS384 => Cipher::aes_192_cbc(),
            Self::A256CbcHS512 => Cipher::aes_256_cbc(),
        }
    }

    /// The SHA-2 digest of the variant.
    fn message_digest(&self) -> (md: MessageDigest)
        ensures
            sha2_digest_len(md) == self.digest_len(),
    {
        match self {
            Self::A128CbcHS256 => MessageDigest::sha256(),
            Self::A192CbcHS384 => MessageDigest::sha384(),
            Self::A256CbcHS512 => MessageDigest::sha512(),
        }
    }

    /// Splits a content-encryption key into the MAC sub-key and the AES key.
    /// A key of any other length than the variant's is a key/format error.
    pub fn split_key<'a>(&self, key: &'a [u8]) -> (r: Result<(&'a [u8], &'a [u8]), JoseError>)
        ensures
            match r {
                Ok((mac_key, enc_key)) => {
                    &&& key@.len() == self.key_len()
                    &&& mac_key@ == Self::mac_key(key@)
                    &&& enc_key@ == Self::enc_key(key@)
                },
                Err(e) => e == JoseError::InvalidKeyFormat && key@.len() != self.key_len(),
            },
    {
        if key.len() != self.content_encryption_key_len() {
            return Err(JoseError::InvalidKeyFormat);
        }
        Ok(key.split_at(MAC_KEY_LEN))
    }

    /// Cuts a MAC down to the tag of the variant. A MAC that is shorter than
    /// the tag is an authentication error.
    pub fn truncate_tag(&self, mac: Vec<u8>) -> (r: Result<Vec<u8>, JoseError>)
        ensures
            match r {
                Ok(tag) => mac@.len() >= self.tag_len() && tag@ == mac@.take(
                    self.tag_len() as int,
                ),
                Err(e) => e == JoseError::InvalidSignature && mac@.len() < self.tag_len(),
            },
    {
        let tlen: usize = match self {
            Self::A128CbcHS256 => 16,
            Self::A192CbcHS384 => 24,
            Self::A256CbcHS512 => 32,
        };
        if mac.len() < tlen {
            return Err(JoseError::InvalidSignature);
        }
        let mut tag = mac;
        tag.truncate(tlen);
        Ok(tag)
    }

    /// Computes the authentication tag of `aad`, `iv` and `ciphertext` under
    /// `mac_key`. Every failure is an authentication error: a MAC key or
    /// additional authenticated data beyond what can be processed, and a
    /// failure of OpenSSL.
    pub fn calcurate_tag(&self, aad: &[u8], iv: &[u8], ciphertext: &[u8], mac_key: &[u8]) -> (r:
        Result<Vec<u8>, JoseError>)
        ensures
            match r {
                Ok(tag) => {
                    &&& tag@ == self.spec_tag(aad@, iv@, ciphertext@, mac_key@)
                    &&& tag@.len() == self.tag_len()
                    &&& aad@.len() <= MAX_AAD_LEN
                    &&& mac_key@.len() <= MAX_C_INT
                },
                Err(e) => e == JoseError::InvalidSignature,
            },
    {
        if mac_key.len() > MAX_C_INT {
            return Err(JoseError::InvalidSignature);
        }
        let input = match build_mac_input(aad, iv, ciphertext) {
            Some(input) => input,
            None => return Err(JoseError::InvalidSignature),
        };
        let mac = match hmac(self.message_digest(), mac_key, input.as_slice()) {
            Ok(mac) => mac,
            Err(_) => return Err(JoseError::InvalidSignature),
        };
        self.truncate_tag(mac)
    }

    /// Releases `message` where `tag` is the computed tag. Any other tag is an
    /// authentication error, and the message is dropped.
    pub fn check_tag(message: Vec<u8>, computed: &[u8], tag: &[u8]) -> (r: Result<
        Vec<u8>,
        JoseError,
    >)
        ensures
            bytes_view(r) == if computed@ == tag@ {
                Ok::<Seq<u8>, JoseError>(message@)
            } else {
                Err::<Seq<u8>, JoseError>(JoseError::InvalidSignature)
            },
    {
        if computed.len() != tag.len() {
            return Err(JoseError::InvalidSignature);
        }
        if constant_time_eq(computed, tag) {
            Ok(message)
        } else {
            Err(JoseError::InvalidSignature)
        }
    }

    /// What encryption makes of the cipher's outcome for a message of
    /// `message_len` bytes. A ciphertext is handed on where it is as long as
    /// the padded message. Any other ciphertext and every failure of the
    /// cipher is a key/format error.
    pub fn sealed_ciphertext(message_len: usize, outcome: Result<Vec<u8>, ErrorStack>) -> (r:
        Result<Vec<u8>, JoseError>)
        ensures
            bytes_view(r) == match outcome {
                Ok(ciphertext) => if ciphertext@.len() == padded_len(message_len as nat) {
                    Ok::<Seq<u8>, JoseError>(ciphertext@)
                } else {
                    Err::<Seq<u8>, JoseError>(JoseError::InvalidKeyFormat)
                },
                Err(_) => Err::<Seq<u8>, JoseError>(JoseError::InvalidKeyFormat),
            },
    {
        match outcome {
            Ok(ciphertext) => {
                if ciphertext.len() % BLOCK_LEN == 0 && ciphertext.len() / BLOCK_LEN == message_len
                    / BLOCK_LEN + 1 {
                    Ok(ciphertext)
                } else {
                    Err(JoseError::InvalidKeyFormat)
                }
            },
            Err(_) => Err(JoseError::InvalidKeyFormat),
        }
    }

    /// What encryption makes of the outcome of the tag computation: the
    /// ciphertext with its tag. Every failure to compute the tag is an
    /// authentication error, and the ciphertext is dropped.
    pub fn sealed_pair(ciphertext: Vec<u8>, computed: Result<Vec<u8>, JoseError>) -> (r: Result<
        (Vec<u8>, Vec<u8>),
        JoseError,
    >)
        ensures
            sealed_view(r) == match computed {
                Ok(tag) => Ok::<(Seq<u8>, Seq<u8>), JoseError>((ciphertext@, tag@)),
                Err(_) => Err::<(Seq<u8>, Seq<u8>), JoseError>(JoseError::InvalidSignature),
            },
    {
        match computed {
            Ok(tag) => Ok((ciphertext, tag)),
            Err(_) => Err(JoseError::InvalidSignature),
        }
    }

    /// What decryption makes of the cipher's outcome for a ciphertext of
    /// `ciphertext_len` bytes. A plaintext is handed on where the ciphertext
    /// is as long as the padded plaintext. Any other plaintext and every
    /// failure of the cipher is a key/format error.
    pub fn opened_plaintext(ciphertext_len: usize, outcome: Result<Vec<u8>, ErrorStack>) -> (r:
        Result<Vec<u8>, JoseError>)
        ensures
            bytes_view(r) == match outcome {
                Ok(message) => if ciphertext_len == padded_len(message@.len()) {
                    Ok::<Seq<u8>, JoseError>(message@)
                } else {
                    Err::<Seq<u8>, JoseError>(JoseError::InvalidKeyFormat)
                },
                Err(_) => Err::<Seq<u8>, JoseError>(JoseError::InvalidKeyFormat),
            },
    {
        match outcome {
            Ok(message) => {
                if ciphertext_len % BLOCK_LEN == 0 && ciphertext_len / BLOCK_LEN == message.len()
                    / BLOCK_LEN + 1 {
                    Ok(message)
                } else {
                    Err(JoseError::InvalidKeyFormat)
                }
            },
            Err(_) => Err(JoseError::InvalidKeyFormat),
        }
    }

    /// What decryption makes of the outcome of the tag computation. The
    /// message is released where `tag` is the computed tag. Any other tag and
    /// every failure to compute the tag is an authentication error, and the
    /// message is dropped.
    pub fn released_message(
        message: Vec<u8>,
        computed: Result<Vec<u8>, JoseError>,
        tag: &[u8],
    ) -> (r: Result<Vec<u8>, JoseError>)
        ensures
            bytes_view(r) == match computed {
                Ok(computed_tag) => if computed_tag@ == tag@ {
                    Ok::<Seq<u8>, JoseError>(message@)
                } else {
                    Err::<Seq<u8>, JoseError>(JoseError::InvalidSignature)
                },
                Err(_) => Err::<Seq<u8>, JoseError>(JoseError::InvalidSignature),
            },
    {
        match computed {
            Ok(computed_tag) => Self::check_tag(message, computed_tag.as_slice(), tag),
            Err(_) => Err(JoseError::InvalidSignature),
        }
    }

    /// Turns away what the primitives cannot take, for a key of the right length.
    fn reject(&self, key: &[u8], iv: &[u8], data: &[u8], limit: usize, aad: &[u8]) -> (r: Option<
        JoseError,
    >)
        requires
            key@.len() == self.key_len(),
        ensures
            r == self.rejection(key@, iv@, data@, limit as nat, aad@),
    {
        if iv.len() != IV_LEN || data.len() > limit {
            Some(JoseError::InvalidKeyFormat)
        } else if aad.len() as u64 > MAX_AAD_LEN {
            Some(JoseError::InvalidSignature)
        } else {
            None
        }
    }

    /// Encrypts `message` under the AES key and authenticates `aad`, `iv` and
    /// the ciphertext under the MAC sub-key. Returns the ciphertext and the
    /// tag. What becomes of the cipher's outcome is `sealed_ciphertext`, and
    /// what becomes of the tag computation's is `sealed_pair`.
    pub fn encrypt(&self, key: &[u8], iv: &[u8], message: &[u8], aad: &[u8]) -> (r: Result<
        (Vec<u8>, Vec<u8>),
        JoseError,
    >)
        ensures
            self.encrypt_returns(key@, iv@, message@, aad@, sealed_view(r)),
            key@.len() != self.key_len() ==> r == Err::<(Vec<u8>, Vec<u8>), _>(
                JoseError::InvalidKeyFormat,
            ),
            r matches Ok((ciphertext, tag)) ==> ciphertext@.len() == padded_len(message@.len())
                && tag@.len() == self.tag_len(),
    {
        let (mac_key, enc_key) = match self.split_key(key) {
            Ok(keys) => keys,
            Err(e) => return Err(e),
        };
        if let Some(e) = self.reject(key, iv, message, MAX_MESSAGE_LEN, aad) {
            return Err(e);
        }
        let outcome = cbc_encrypt(self.cipher(), enc_key, iv, message);
        let ciphertext = match Self::sealed_ciphertext(message.len(), outcome) {
            Ok(ciphertext) => ciphertext,
            Err(e) => return Err(e),
        };
        let computed = self.calcurate_tag(aad, iv, ciphertext.as_slice(), mac_key);
        Self::sealed_pair(ciphertext, computed)
    }

    /// Decrypts `ciphertext` under the AES key and releases the message only
    /// where `tag` authenticates `aad`, `iv` and `ciphertext` under the MAC
    /// sub-key. What becomes of the cipher's outcome is `opened_plaintext`,
    /// and what becomes of the tag computation's is `released_message`.
    pub fn decrypt(&self, key: &[u8], iv: &[u8], ciphertext: &[u8], aad: &[u8], tag: &[u8]) -> (r:
        Result<Vec<u8>, JoseError>)
        ensures
            self.decrypt_returns(key@, iv@, ciphertext@, aad@, tag@, bytes_view(r)),
            key@.len() != self.key_len() ==> r == Err::<Vec<u8>, _>(JoseError::InvalidKeyFormat),
            r is Ok ==> tag@ == self.spec_tag(aad@, iv@, ciphertext@, Self::mac_key(key@)),
            r is Ok ==> tag@.len() == self.tag_len(),
            r matches Ok(message) ==> ciphertext@.len() == padded_len(message@.len()),
    {
        let (mac_key, enc_key) = match self.split_key(key) {
            Ok(keys) => keys,
            Err(e) => return Err(e),
        };
        if let Some(e) = self.reject(key, iv, ciphertext, MAX_C_INT, aad) {
            return Err(e);
        }
        let outcome = cbc_decrypt(self.cipher(), enc_key, iv, ciphertext);
        let message = match Self::opened_plaintext(ciphertext.len(), outcome) {
            Ok(message) => message,
            Err(e) => return Err(e),
        };
        let computed = self.calcurate_tag(aad, iv, ciphertext, mac_key);
        Self::released_message(message, computed, tag)
    }
}

} // verus!
