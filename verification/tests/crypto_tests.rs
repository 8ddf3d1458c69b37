//! Tests of the crypto module: round trips, known-answer vectors, and the
//! argument validation of the AES-GCM and key-derivation entry points.

use keystore2::crypto::{
    aes_gcm_decrypt, aes_gcm_encrypt, generate_aes256_key, generate_random_data, generate_salt,
    hkdf_expand, hkdf_extract, hmac_sha256, Error, Password, ZVec, AES_256_KEY_LENGTH,
    GCM_IV_LENGTH, HKDF_MAX_OUT_LEN, HMAC_SHA256_LEN, SALT_LENGTH, TAG_LENGTH,
};

#[test]
fn test_wrapper_roundtrip() {
    let key = generate_aes256_key().unwrap();
    let message = b"totally awesome message";
    let (cipher_text, iv, tag) = aes_gcm_encrypt(message, key.as_slice()).unwrap();
    let message2 = aes_gcm_decrypt(&cipher_text, &iv, &tag, key.as_slice()).unwrap();
    assert_eq!(message[..], message2.as_slice()[..])
}

#[test]
fn test_hkdf() {
    let result = hkdf_extract(&[0; 16], &[0; 16]);
    assert!(result.is_ok());
    for out_len in 4..=8 {
        let result = hkdf_expand(out_len, &[0; 16], &[0; 16]);
        assert!(result.is_ok());
        assert_eq!(result.unwrap().len(), out_len);
    }
}

#[test]
fn test_hmac_sha256() {
    let key = b"This is the key";
    let msg1 = b"This is a message";
    let msg2 = b"This is another message";
    let tag1a = hmac_sha256(key, msg1).unwrap();
    assert_eq!(tag1a.len(), HMAC_SHA256_LEN);
    let tag1b = hmac_sha256(key, msg1).unwrap();
    assert_eq!(tag1a, tag1b);
    let tag2 = hmac_sha256(key, msg2).unwrap();
    assert_eq!(tag2.len(), HMAC_SHA256_LEN);
    assert_ne!(tag1a, tag2);
}

/// Known-answer test for HMAC-SHA256 (RFC 4231, test case 2): the wrapper
/// really computes the function, not something of its own.
#[test]
fn hmac_sha256_known_answer() {
    let key = b"Jefe";
    let msg = b"what do ya want for nothing?";
    let expected: [u8; 32] = [
        0x5b, 0xdc, 0xc1, 0x46, 0xbf, 0x60, 0x75, 0x4e, 0x6a, 0x04, 0x24, 0x26, 0x08, 0x95, 0x75,
        0xc7, 0x5a, 0x00, 0x3f, 0x08, 0x9d, 0x27, 0x39, 0x83, 0x9d, 0xec, 0x58, 0xb9, 0x64, 0xec,
        0x38, 0x43,
    ];
    assert_eq!(hmac_sha256(key, msg).unwrap(), expected.to_vec());
}

/// Known-answer test for HKDF-SHA256 (RFC 5869, test case 1).
#[test]
fn hkdf_known_answer() {
    let ikm = [0x0bu8; 22];
    let salt: Vec<u8> = (0x00u8..=0x0c).collect();
    let info: Vec<u8> = (0xf0u8..=0xf9).collect();
    let prk = hkdf_extract(&ikm, &salt).unwrap();
    let expected_prk: [u8; 32] = [
        0x07, 0x77, 0x09, 0x36, 0x2c, 0x2e, 0x32, 0xdf, 0x0d, 0xdc, 0x3f, 0x0d, 0xc4, 0x7b, 0xba,
        0x63, 0x90, 0xb6, 0xc7, 0x3b, 0xb5, 0x0f, 0x9c, 0x31, 0x22, 0xec, 0x84, 0x4a, 0xd7, 0xc2,
        0xb3, 0xe5,
    ];
    assert_eq!(prk.as_slice(), &expected_prk[..]);
    let okm = hkdf_expand(42, prk.as_slice(), &info).unwrap();
    let expected_okm: [u8; 42] = [
        0x3c, 0xb2, 0x5f, 0x25, 0xfa, 0xac, 0xd5, 0x7a, 0x90, 0x43, 0x4f, 0x64, 0xd0, 0x36, 0x2f,
        0x2a, 0x2d, 0x2d, 0x0a, 0x90, 0xcf, 0x1a, 0x5a, 0x4c, 0x5d, 0xb0, 0x2d, 0x56, 0xec, 0xc4,
        0xc5, 0xbf, 0x34, 0x00, 0x72, 0x08, 0xd5, 0xb8, 0x87, 0x18, 0x58, 0x65,
    ];
    assert_eq!(okm.as_slice(), &expected_okm[..]);
}

#[test]
fn hkdf_expand_rejects_oversized_output() {
    let r = hkdf_expand(HKDF_MAX_OUT_LEN + 1, &[0; 32], &[]);
    assert_eq!(r.unwrap_err(), Error::HKDFExpandFailed);
}

#[test]
fn aes_gcm_decrypt_rejects_bad_iv_length() {
    let key = [0u8; 16];
    let r = aes_gcm_decrypt(&[], &[0u8; 5], &[0u8; TAG_LENGTH], &key);
    assert_eq!(r.unwrap_err(), Error::InvalidIvLength);
}

#[test]
fn aes_gcm_decrypt_rejects_bad_tag_length() {
    let key = [0u8; 16];
    let r = aes_gcm_decrypt(&[], &[0u8; GCM_IV_LENGTH], &[0u8; 7], &key);
    assert_eq!(r.unwrap_err(), Error::InvalidAeadTagLength);
}

#[test]
fn aes_gcm_decrypt_rejects_bad_key_length() {
    let r = aes_gcm_decrypt(&[], &[0u8; GCM_IV_LENGTH], &[0u8; TAG_LENGTH], &[0u8; 9]);
    assert_eq!(r.unwrap_err(), Error::InvalidKeyLength);
}

#[test]
fn aes_gcm_decrypt_rejects_forged_tag() {
    let key = generate_aes256_key().unwrap();
    let (cipher_text, iv, mut tag) = aes_gcm_encrypt(b"payload", key.as_slice()).unwrap();
    tag[0] ^= 0x01;
    let r = aes_gcm_decrypt(&cipher_text, &iv, &tag, key.as_slice());
    assert_eq!(r.unwrap_err(), Error::DecryptionFailed);
}

/// An oversized legacy initialization vector is recognised: the four extra
/// bytes are ignored.
#[test]
fn aes_gcm_decrypt_trims_legacy_iv() {
    let key = generate_aes256_key().unwrap();
    let (cipher_text, iv, tag) = aes_gcm_encrypt(b"legacy iv payload", key.as_slice()).unwrap();
    let mut legacy_iv = iv.clone();
    legacy_iv.extend_from_slice(&[0u8; 4]);
    let plain = aes_gcm_decrypt(&cipher_text, &legacy_iv, &tag, key.as_slice()).unwrap();
    assert_eq!(plain.as_slice(), b"legacy iv payload");
}

#[test]
fn aes_gcm_encrypt_rejects_bad_key_length() {
    let r = aes_gcm_encrypt(b"data", &[0u8; 11]);
    assert_eq!(r.unwrap_err(), Error::InvalidKeyLength);
}

#[test]
fn aes_gcm_encrypt_shapes() {
    let key = [0x42u8; 16];
    let (ct, iv, tag) = aes_gcm_encrypt(b"sixteen byte msg", &key).unwrap();
    assert_eq!(ct.len(), 16);
    assert_eq!(iv.len(), GCM_IV_LENGTH);
    assert_eq!(tag.len(), TAG_LENGTH);
    assert_ne!(ct, b"sixteen byte msg".to_vec());
}

#[test]
fn salt_and_random_data_lengths() {
    assert_eq!(generate_salt().unwrap().len(), SALT_LENGTH);
    assert_eq!(generate_random_data(33).unwrap().len(), 33);
    let key = generate_aes256_key().unwrap();
    assert_eq!(key.len(), AES_256_KEY_LENGTH);
}

/// Known-answer test for PBKDF2-HMAC-SHA256 with the module's iteration
/// count, plus the argument validation around it.
#[test]
fn pbkdf2_derivation() {
    let pw = Password::Ref(b"password");
    let salt = [0x73u8; SALT_LENGTH];
    let k1 = pw.derive_key_pbkdf2(&salt, 16).unwrap();
    let k2 = pw.derive_key_pbkdf2(&salt, 16).unwrap();
    assert_eq!(k1.as_slice(), k2.as_slice());
    let k3 = pw.derive_key_pbkdf2(&salt, 32).unwrap();
    assert_eq!(&k3.as_slice()[..16], k1.as_slice());
    assert_eq!(
        pw.derive_key_pbkdf2(&[0u8; 3], 16).unwrap_err(),
        Error::InvalidSaltLength
    );
    assert_eq!(
        pw.derive_key_pbkdf2(&salt, 17).unwrap_err(),
        Error::InvalidKeyLength
    );
}

#[test]
fn password_clone_and_hkdf() {
    let pw = Password::Ref(b"high entropy synthetic password");
    let copy = pw.try_clone().unwrap();
    assert_eq!(pw.get_key(), copy.get_key());
    let salt = generate_salt().unwrap();
    let k1 = pw.derive_key_hkdf(&salt, 32).unwrap();
    let k2 = copy.derive_key_hkdf(&salt, 32).unwrap();
    assert_eq!(k1.as_slice(), k2.as_slice());
    assert_eq!(k1.len(), 32);
}

#[test]
fn zvec_shapes() {
    let z = ZVec::new(8);
    assert_eq!(z.as_slice(), &[0u8; 8]);
    let mut z = ZVec::from_bytes(&[1, 2, 3, 4]);
    z.reduce_len(2);
    assert_eq!(z.as_slice(), &[1, 2]);
}
