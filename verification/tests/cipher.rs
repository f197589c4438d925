use aes_cbc_hmac::{AesCbcHmacJweEncryption, JoseError};
use openssl::symm::{decrypt, encrypt, Cipher};

fn cases() -> [(AesCbcHmacJweEncryption, Cipher); 3] {
    [
        (AesCbcHmacJweEncryption::A128CbcHS256, Cipher::aes_128_cbc()),
        (AesCbcHmacJweEncryption::A192CbcHS384, Cipher::aes_192_cbc()),
        (AesCbcHmacJweEncryption::A256CbcHS512, Cipher::aes_256_cbc()),
    ]
}

fn key_for(alg: AesCbcHmacJweEncryption) -> Vec<u8> {
    (0..alg.content_encryption_key_len()).map(|i| (i * 3 + 1) as u8).collect()
}

#[test]
fn ciphertext_is_aes_cbc_under_the_bytes_after_the_mac_key() {
    let iv = [0x42u8; 16];
    let message = b"Attack at dawn, and again at dusk.";
    for (alg, cipher) in cases() {
        let key = key_for(alg);
        let expected = encrypt(cipher, &key[16..], Some(&iv), message).unwrap();
        let (ciphertext, _) = alg.encrypt(&key, &iv, message, b"aad").unwrap();
        assert_eq!(ciphertext, expected);
        assert_eq!(ciphertext.len(), 48);
    }
}

#[test]
fn ciphertext_does_not_depend_on_the_mac_key_or_the_aad() {
    let iv = [0x42u8; 16];
    for (alg, _) in cases() {
        let key = key_for(alg);
        let mut other = key.clone();
        for byte in other[..16].iter_mut() {
            *byte ^= 0xff;
        }
        let (first, first_tag) = alg.encrypt(&key, &iv, b"message", b"one").unwrap();
        let (second, second_tag) = alg.encrypt(&other, &iv, b"message", b"two").unwrap();
        assert_eq!(first, second);
        assert_ne!(first_tag, second_tag);
    }
}

#[test]
fn decrypt_opens_what_openssl_encrypted() {
    let iv = [0x24u8; 16];
    let message = b"A message that was sealed somewhere else".to_vec();
    let aad = b"header";
    for (alg, cipher) in cases() {
        let key = key_for(alg);
        let ciphertext = encrypt(cipher, &key[16..], Some(&iv), &message).unwrap();
        let tag = alg.calcurate_tag(aad, &iv, &ciphertext, &key[..16]).unwrap();
        assert_eq!(alg.decrypt(&key, &iv, &ciphertext, aad, &tag), Ok(message.clone()));
        assert_eq!(decrypt(cipher, &key[16..], Some(&iv), &ciphertext).unwrap(), message);
    }
}

#[test]
fn authentic_ciphertext_with_broken_padding_is_a_key_format_error() {
    // Two blocks of zeros decrypt to bytes that do not end in padding under
    // these keys; the tag is the right one for them all the same.
    let iv = [0u8; 16];
    let ciphertext = [0u8; 32];
    for (alg, cipher) in cases() {
        let key = key_for(alg);
        assert!(decrypt(cipher, &key[16..], Some(&iv), &ciphertext).is_err());
        let tag = alg.calcurate_tag(b"", &iv, &ciphertext, &key[..16]).unwrap();
        assert_eq!(
            alg.decrypt(&key, &iv, &ciphertext, b"", &tag),
            Err(JoseError::InvalidKeyFormat)
        );
    }
}

#[test]
fn variants_do_not_open_each_other() {
    let iv = [1u8; 16];
    let key = key_for(AesCbcHmacJweEncryption::A128CbcHS256);
    let (ciphertext, tag) = AesCbcHmacJweEncryption::A128CbcHS256
        .encrypt(&key, &iv, b"message", b"aad")
        .unwrap();
    assert_eq!(
        AesCbcHmacJweEncryption::A192CbcHS384.decrypt(&key, &iv, &ciphertext, b"aad", &tag),
        Err(JoseError::InvalidKeyFormat)
    );
    assert_eq!(
        AesCbcHmacJweEncryption::A256CbcHS512.decrypt(&key, &iv, &ciphertext, b"aad", &tag),
        Err(JoseError::InvalidKeyFormat)
    );
}
