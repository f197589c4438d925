use aes_cbc_hmac::layout::{build_mac_input, u64_to_be_bytes};
use aes_cbc_hmac::AesCbcHmacJweEncryption;
use openssl::hash::MessageDigest;
use openssl::pkey::PKey;
use openssl::sign::Signer;

fn reference_hmac(digest: MessageDigest, key: &[u8], parts: &[&[u8]]) -> Vec<u8> {
    let pkey = PKey::hmac(key).unwrap();
    let mut signer = Signer::new(digest, &pkey).unwrap();
    for part in parts {
        signer.update(part).unwrap();
    }
    signer.sign_to_vec().unwrap()
}

#[test]
fn big_endian_bytes_of_known_numbers() {
    assert_eq!(u64_to_be_bytes(0), vec![0, 0, 0, 0, 0, 0, 0, 0]);
    assert_eq!(u64_to_be_bytes(1), vec![0, 0, 0, 0, 0, 0, 0, 1]);
    assert_eq!(u64_to_be_bytes(0x150), vec![0, 0, 0, 0, 0, 0, 0x01, 0x50]);
    assert_eq!(
        u64_to_be_bytes(0x0102_0304_0506_0708),
        vec![1, 2, 3, 4, 5, 6, 7, 8]
    );
    assert_eq!(u64_to_be_bytes(u64::MAX), vec![0xff; 8]);
    assert_eq!(u64_to_be_bytes(0x8000_0000_0000_0000), vec![0x80, 0, 0, 0, 0, 0, 0, 0]);
}

#[test]
fn big_endian_bytes_agree_with_std() {
    for n in [0u64, 7, 255, 256, 65_535, 65_536, 1 << 32, (1 << 61) - 1, u64::MAX - 1] {
        assert_eq!(u64_to_be_bytes(n), n.to_be_bytes().to_vec());
    }
}

#[test]
fn mac_input_is_aad_iv_ciphertext_and_bit_count() {
    let input = build_mac_input(&[0xa1, 0xa2], &[0xb1], &[0xc1, 0xc2, 0xc3]).unwrap();
    assert_eq!(
        input,
        vec![0xa1, 0xa2, 0xb1, 0xc1, 0xc2, 0xc3, 0, 0, 0, 0, 0, 0, 0, 16]
    );
}

#[test]
fn mac_input_of_nothing_is_a_zero_length_field() {
    assert_eq!(build_mac_input(&[], &[], &[]).unwrap(), vec![0u8; 8]);
}

#[test]
fn mac_input_counts_bits_beyond_one_byte_of_length() {
    let aad = vec![0x11u8; 42];
    let input = build_mac_input(&aad, &[0x22; 16], &[0x33; 32]).unwrap();
    assert_eq!(input.len(), 42 + 16 + 32 + 8);
    assert_eq!(&input[..42], &aad[..]);
    assert_eq!(&input[42..58], &[0x22; 16]);
    assert_eq!(&input[58..90], &[0x33; 32]);
    assert_eq!(&input[90..], &[0, 0, 0, 0, 0, 0, 0x01, 0x50]);

    let long = vec![0u8; 0x2001];
    let input = build_mac_input(&long, &[], &[]).unwrap();
    assert_eq!(&input[0x2001..], &[0, 0, 0, 0, 0, 0x01, 0x00, 0x08]);
}

#[test]
fn mac_input_keeps_aad_and_ciphertext_apart() {
    let left = build_mac_input(b"ab", &[0; 16], b"c").unwrap();
    let right = build_mac_input(b"a", &[0; 16], b"bc").unwrap();
    assert_ne!(left, right);
}

#[test]
fn tag_is_the_truncated_hmac_of_the_mac_input() {
    let cases = [
        (AesCbcHmacJweEncryption::A128CbcHS256, MessageDigest::sha256(), 16usize),
        (AesCbcHmacJweEncryption::A192CbcHS384, MessageDigest::sha384(), 24),
        (AesCbcHmacJweEncryption::A256CbcHS512, MessageDigest::sha512(), 32),
    ];
    let aad = b"protected header";
    let iv = [0x0fu8; 16];
    let ciphertext = [0xc3u8; 48];
    let mac_key: Vec<u8> = (100..116).collect();
    for (alg, digest, tag_len) in cases {
        let bits = (aad.len() as u64 * 8).to_be_bytes();
        let mac = reference_hmac(digest, &mac_key, &[aad, &iv, &ciphertext, &bits]);
        let tag = alg.calcurate_tag(aad, &iv, &ciphertext, &mac_key).unwrap();
        assert_eq!(tag.len(), tag_len);
        assert_eq!(tag, mac[..tag_len].to_vec());
        assert_ne!(tag, ciphertext[..tag_len].to_vec());
    }
}

#[test]
fn tag_of_the_published_vector() {
    let mac_key: Vec<u8> = (0..16).collect();
    let iv = [
        0x1a, 0xf3, 0x8c, 0x2d, 0xc2, 0xb9, 0x6f, 0xfd, 0xd8, 0x66, 0x94, 0x09, 0x23, 0x41, 0xbc,
        0x04,
    ];
    let ciphertext = [
        0xc8, 0x0e, 0xdf, 0xa3, 0x2d, 0xdf, 0x39, 0xd5, 0xef, 0x00, 0xc0, 0xb4, 0x68, 0x83, 0x42,
        0x79, 0xa2, 0xe4, 0x6a, 0x1b, 0x80, 0x49, 0xf7, 0x92, 0xf7, 0x6b, 0xfe, 0x54, 0xb9, 0x03,
        0xa9, 0xc9, 0xa9, 0x4a, 0xc9, 0xb4, 0x7a, 0xd2, 0x65, 0x5c, 0x5f, 0x10, 0xf9, 0xae, 0xf7,
        0x14, 0x27, 0xe2, 0xfc, 0x6f, 0x9b, 0x3f, 0x39, 0x9a, 0x22, 0x14, 0x89, 0xf1, 0x63, 0x62,
        0xc7, 0x03, 0x23, 0x36, 0x09, 0xd4, 0x5a, 0xc6, 0x98, 0x64, 0xe3, 0x32, 0x1c, 0xf8, 0x29,
        0x35, 0xac, 0x40, 0x96, 0xc8, 0x6e, 0x13, 0x33, 0x14, 0xc5, 0x40, 0x19, 0xe8, 0xca, 0x79,
        0x80, 0xdf, 0xa4, 0xb9, 0xcf, 0x1b, 0x38, 0x4c, 0x48, 0x6f, 0x3a, 0x54, 0xc5, 0x10, 0x78,
        0x15, 0x8e, 0xe5, 0xd7, 0x9d, 0xe5, 0x9f, 0xbd, 0x34, 0xd8, 0x48, 0xb3, 0xd6, 0x95, 0x50,
        0xa6, 0x76, 0x46, 0x34, 0x44, 0x27, 0xad, 0xe5, 0x4b, 0x88, 0x51, 0xff, 0xb5, 0x98, 0xf7,
        0xf8, 0x00, 0x74, 0xb9, 0x47, 0x3c, 0x82, 0xe2, 0xdb,
    ];
    let tag = AesCbcHmacJweEncryption::A128CbcHS256
        .calcurate_tag(
            b"The second principle of Auguste Kerckhoffs",
            &iv,
            &ciphertext,
            &mac_key,
        )
        .unwrap();
    assert_eq!(
        tag,
        vec![
            0x65, 0x2c, 0x3f, 0xa3, 0x6b, 0x0a, 0x7c, 0x5b, 0x32, 0x19, 0xfa, 0xb3, 0xa3, 0x0b,
            0xc1, 0xc4
        ]
    );
}

#[test]
fn tag_depends_on_every_part() {
    let alg = AesCbcHmacJweEncryption::A128CbcHS256;
    let base = alg.calcurate_tag(b"aad", &[1; 16], b"ciphertext", &[2; 16]).unwrap();
    assert_ne!(base, alg.calcurate_tag(b"aae", &[1; 16], b"ciphertext", &[2; 16]).unwrap());
    assert_ne!(base, alg.calcurate_tag(b"aad", &[3; 16], b"ciphertext", &[2; 16]).unwrap());
    assert_ne!(base, alg.calcurate_tag(b"aad", &[1; 16], b"ciphertexu", &[2; 16]).unwrap());
    assert_ne!(base, alg.calcurate_tag(b"aad", &[1; 16], b"ciphertext", &[4; 16]).unwrap());
    assert_ne!(base, alg.calcurate_tag(b"aa", &[1; 16], b"dciphertext", &[2; 16]).unwrap());
    assert_eq!(base, alg.calcurate_tag(b"aad", &[1; 16], b"ciphertext", &[2; 16]).unwrap());
}
