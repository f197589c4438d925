//! What holds of encryption and decryption together.
//!
//! Each law speaks of results through `encrypt_returns` and `decrypt_returns`,
//! which is what `encrypt` and `decrypt` promise of whatever they return.
use crate::algorithm::{padded_len, AesCbcHmacJweEncryption};
use crate::error::JoseError;
use crate::layout::{lemma_mac_input_injective, mac_input};
use crate::primitives::{aes_cbc_decrypted, hmac_sha2};
use vstd::prelude::*;

verus! {

/// The length of a ciphertext is the least whole number of blocks that is
/// longer than the message.
pub proof fn lemma_padded_len_is_next_block(len: nat)
    ensures
        padded_len(len) % 16 == 0,
        len < padded_len(len) <= len + 16,
{
}

impl AesCbcHmacJweEncryption {
    /// The MAC tells the inputs `x` and `y` apart under `mac_key`: where they
    /// differ, so do their tags. No proof of this library shows it of any two
    /// inputs; it is what is expected of HMAC.
    pub open spec fn mac_separates(self, mac_key: Seq<u8>, x: Seq<u8>, y: Seq<u8>) -> bool {
        x != y ==> hmac_sha2(self.digest_len(), mac_key, x).take(self.tag_len() as int)
            != hmac_sha2(self.digest_len(), mac_key, y).take(self.tag_len() as int)
    }

    /// Round trip: decryption of what encryption returned, under the same key,
    /// initialization vector and additional authenticated data, yields the
    /// message where OpenSSL does its part, and never another message.
    pub proof fn lemma_round_trip(
        self,
        key: Seq<u8>,
        iv: Seq<u8>,
        message: Seq<u8>,
        aad: Seq<u8>,
        ciphertext: Seq<u8>,
        tag: Seq<u8>,
        opened: Result<Seq<u8>, JoseError>,
    )
        requires
            self.encrypt_returns(key, iv, message, aad, Ok((ciphertext, tag))),
            self.decrypt_returns(key, iv, ciphertext, aad, tag, opened),
        ensures
            self.spec_decrypt(key, iv, ciphertext, aad, tag) == Ok::<_, JoseError>(message),
            opened is Ok ==> opened == Ok::<_, JoseError>(message),
    {
    }

    /// Determinism: two encryptions of one input that both return an output
    /// return the same ciphertext and the same tag.
    pub proof fn lemma_encrypt_deterministic(
        self,
        key: Seq<u8>,
        iv: Seq<u8>,
        message: Seq<u8>,
        aad: Seq<u8>,
        first: Result<(Seq<u8>, Seq<u8>), JoseError>,
        second: Result<(Seq<u8>, Seq<u8>), JoseError>,
    )
        requires
            self.encrypt_returns(key, iv, message, aad, first),
            self.encrypt_returns(key, iv, message, aad, second),
            first is Ok,
            second is Ok,
        ensures
            first == second,
    {
    }

    /// Tag length: whatever encryption returns, its tag has 16, 24 or 32
    /// bytes as the variant is the first, the second or the third, whatever
    /// the lengths of the message and of the additional authenticated data.
    pub proof fn lemma_tag_length(
        self,
        key: Seq<u8>,
        iv: Seq<u8>,
        message: Seq<u8>,
        aad: Seq<u8>,
        ciphertext: Seq<u8>,
        tag: Seq<u8>,
    )
        requires
            self.encrypt_returns(key, iv, message, aad, Ok((ciphertext, tag))),
        ensures
            tag.len() == match self {
                Self::A128CbcHS256 => 16nat,
                Self::A192CbcHS384 => 24nat,
                Self::A256CbcHS512 => 32nat,
            },
    {
    }

    /// Key length enforcement: with a key of any other length than the
    /// variant's, encryption and decryption return a key/format error.
    pub proof fn lemma_key_length_enforced(
        self,
        key: Seq<u8>,
        iv: Seq<u8>,
        data: Seq<u8>,
        aad: Seq<u8>,
        tag: Seq<u8>,
        sealed: Result<(Seq<u8>, Seq<u8>), JoseError>,
        opened: Result<Seq<u8>, JoseError>,
    )
        requires
            key.len() != self.key_len(),
            self.encrypt_returns(key, iv, data, aad, sealed),
            self.decrypt_returns(key, iv, data, aad, tag, opened),
        ensures
            sealed == Err::<(Seq<u8>, Seq<u8>), _>(JoseError::InvalidKeyFormat),
            opened == Err::<Seq<u8>, _>(JoseError::InvalidKeyFormat),
    {
    }

    /// Decryption releases a message only for the tag of the additional
    /// authenticated data, the initialization vector and the ciphertext, and
    /// what it accepts has the lengths of what encryption returns for the
    /// released message.
    pub proof fn lemma_released_means_authentic(
        self,
        key: Seq<u8>,
        iv: Seq<u8>,
        ciphertext: Seq<u8>,
        aad: Seq<u8>,
        tag: Seq<u8>,
        opened: Result<Seq<u8>, JoseError>,
    )
        requires
            self.decrypt_returns(key, iv, ciphertext, aad, tag, opened),
            opened is Ok,
        ensures
            tag == self.spec_tag(aad, iv, ciphertext, Self::mac_key(key)),
            tag.len() == self.tag_len(),
            (opened matches Ok(message) && ciphertext.len() == padded_len(message.len())),
    {
    }

    /// Tamper detection, for the tag: with any other tag than the one that
    /// encryption returned, decryption releases nothing, and what it yields
    /// where OpenSSL does its part is an authentication error.
    pub proof fn lemma_tampered_tag_rejected(
        self,
        key: Seq<u8>,
        iv: Seq<u8>,
        message: Seq<u8>,
        aad: Seq<u8>,
        ciphertext: Seq<u8>,
        tag: Seq<u8>,
        other_tag: Seq<u8>,
        opened: Result<Seq<u8>, JoseError>,
    )
        requires
            self.encrypt_returns(key, iv, message, aad, Ok((ciphertext, tag))),
            other_tag != tag,
            self.decrypt_returns(key, iv, ciphertext, aad, other_tag, opened),
        ensures
            opened is Err,
            self.spec_decrypt(key, iv, ciphertext, aad, other_tag) == Err::<Seq<u8>, _>(
                JoseError::InvalidSignature,
            ),
    {
    }

    /// Tamper detection, for what the tag covers: keep the tag that encryption
    /// returned and change the initialization vector, the ciphertext or the
    /// additional authenticated data. Where the MAC tells the changed input
    /// from the first, decryption releases nothing. What it yields where
    /// OpenSSL does its part is an authentication error if the cipher still
    /// finds a plaintext, and a key/format error if it finds none.
    pub proof fn lemma_tampered_input_rejected(
        self,
        key: Seq<u8>,
        iv: Seq<u8>,
        message: Seq<u8>,
        aad: Seq<u8>,
        ciphertext: Seq<u8>,
        tag: Seq<u8>,
        other_iv: Seq<u8>,
        other_ciphertext: Seq<u8>,
        other_aad: Seq<u8>,
        opened: Result<Seq<u8>, JoseError>,
    )
        requires
            self.encrypt_returns(key, iv, message, aad, Ok((ciphertext, tag))),
            (other_iv, other_ciphertext, other_aad) != (iv, ciphertext, aad),
            self.mac_separates(
                Self::mac_key(key),
                mac_input(aad, iv, ciphertext),
                mac_input(other_aad, other_iv, other_ciphertext),
            ),
            self.decrypt_returns(key, other_iv, other_ciphertext, other_aad, tag, opened),
        ensures
            opened is Err,
            self.spec_decrypt(key, other_iv, other_ciphertext, other_aad, tag) is Err,
            self.decrypt_rejection(key, other_iv, other_ciphertext, other_aad) is None
                ==> self.spec_decrypt(key, other_iv, other_ciphertext, other_aad, tag) == Err::<
                Seq<u8>,
                _,
            >(
                if aes_cbc_decrypted(Self::enc_key(key), other_iv, other_ciphertext) is Some {
                    JoseError::InvalidSignature
                } else {
                    JoseError::InvalidKeyFormat
                },
            ),
    {
        if self.decrypt_rejection(key, other_iv, other_ciphertext, other_aad) is None {
            if mac_input(aad, iv, ciphertext) == mac_input(other_aad, other_iv, other_ciphertext) {
                lemma_mac_input_injective(
                    aad,
                    iv,
                    ciphertext,
                    other_aad,
                    other_iv,
                    other_ciphertext,
                );
            }
        }
    }
}

} // verus!
