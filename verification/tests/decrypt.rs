use aes::cipher::{BlockModeEncrypt, KeyIvInit};
use base64::Engine;
use bvault::decrypt_sync;
use bvault::errors::DecryptError;
use bvault::kdf::derive_key;
use bvault::padding::pkcs7_unpad;

const GOLDEN_CT: &str = "xi9Xk/rdBdoh3kMn0CmYBQ==";
const GOLDEN_IV: &str = "EA8ODQwLCgkIBwYFBAMCAQ==";
const GOLDEN_SALT: &str = "AQIDBAUGBwgJCgsMDQ4PEA==";
const GOLDEN_PASSWORD: &str = "correct horse battery staple";

fn b64(bytes: &[u8]) -> String {
    base64::engine::general_purpose::STANDARD.encode(bytes)
}

fn encrypt_pkcs7(key: &[u8], iv: &[u8], plaintext: &[u8]) -> Vec<u8> {
    let enc = cbc::Encryptor::<aes::Aes256>::new_from_slices(key, iv).unwrap();
    enc.encrypt_padded_vec::<aes::cipher::block_padding::Pkcs7>(plaintext)
}

#[test]
fn golden_vector_decrypts_to_hello_world() {
    let r = decrypt_sync(GOLDEN_CT, GOLDEN_PASSWORD, GOLDEN_IV, GOLDEN_SALT);
    assert_eq!(r, Ok(String::from("hello world")));
}

#[test]
fn golden_vector_multi_block_utf8() {
    let ct = "4W7CB8chcU0px56a/zig1eEy2xjFE5gs2CJ8rtl/3RQBpxu2EFWauPoaC/GVV8A0L0QsEOpjzNIUZHbAMeH2zg==";
    let r = decrypt_sync(ct, GOLDEN_PASSWORD, GOLDEN_IV, GOLDEN_SALT);
    assert_eq!(
        r,
        Ok(String::from(
            "Grüße, 世界! This is a längerer Text über zwei Blöcke."
        ))
    );
}

#[test]
fn round_trip_restores_plaintext() {
    let plaintext = "any plaintext, round-tripped through encrypt and decrypt";
    let password = "a password";
    let salt: Vec<u8> = vec![9, 8, 7, 6, 5];
    let iv: Vec<u8> = (100..116).collect();
    let key = derive_key(password.as_bytes(), &salt);
    let ct = encrypt_pkcs7(&key, &iv, plaintext.as_bytes());
    let r = decrypt_sync(&b64(&ct), password, &b64(&iv), &b64(&salt));
    assert_eq!(r, Ok(String::from(plaintext)));
}

#[test]
fn round_trip_empty_plaintext() {
    let password = "pw";
    let salt: Vec<u8> = vec![1, 2, 3];
    let iv: Vec<u8> = vec![0; 16];
    let key = derive_key(password.as_bytes(), &salt);
    let ct = encrypt_pkcs7(&key, &iv, b"");
    assert_eq!(ct.len(), 16);
    let r = decrypt_sync(&b64(&ct), password, &b64(&iv), &b64(&salt));
    assert_eq!(r, Ok(String::new()));
}

#[test]
fn key_derivation_is_deterministic() {
    let a = derive_key(b"password", b"salt");
    let b = derive_key(b"password", b"salt");
    assert_eq!(a, b);
    assert_eq!(a.len(), 32);
}

#[test]
fn key_derivation_matches_reference_vector() {
    let key = derive_key(b"password", b"salt");
    let expected: Vec<u8> = vec![
        3, 148, 162, 237, 227, 50, 201, 161, 62, 184, 46, 155, 36, 99, 22, 4, 195, 29, 249, 120,
        180, 226, 240, 251, 210, 197, 73, 148, 79, 157, 121, 165,
    ];
    assert_eq!(key, expected);
}

#[test]
fn wrong_password_yields_decryption_error() {
    let r = decrypt_sync(GOLDEN_CT, "wrong password", GOLDEN_IV, GOLDEN_SALT);
    assert_eq!(r, Err(DecryptError::DecryptionError));
}

#[test]
fn malformed_base64_ciphertext_yields_invalid_encoding() {
    let r = decrypt_sync("not base64!!", GOLDEN_PASSWORD, GOLDEN_IV, GOLDEN_SALT);
    assert_eq!(r, Err(DecryptError::InvalidEncoding));
}

#[test]
fn malformed_base64_iv_yields_invalid_encoding() {
    let r = decrypt_sync(GOLDEN_CT, GOLDEN_PASSWORD, "???", GOLDEN_SALT);
    assert_eq!(r, Err(DecryptError::InvalidEncoding));
}

#[test]
fn malformed_base64_salt_yields_invalid_encoding() {
    let r = decrypt_sync(GOLDEN_CT, GOLDEN_PASSWORD, GOLDEN_IV, "=ab");
    assert_eq!(r, Err(DecryptError::InvalidEncoding));
}

#[test]
fn iv_of_15_bytes_yields_invalid_iv_length() {
    let r = decrypt_sync(GOLDEN_CT, GOLDEN_PASSWORD, &b64(&[0u8; 15]), GOLDEN_SALT);
    assert_eq!(r, Err(DecryptError::InvalidIVLength));
}

#[test]
fn iv_of_17_bytes_yields_invalid_iv_length() {
    let r = decrypt_sync(GOLDEN_CT, GOLDEN_PASSWORD, &b64(&[0u8; 17]), GOLDEN_SALT);
    assert_eq!(r, Err(DecryptError::InvalidIVLength));
}

#[test]
fn empty_ciphertext_yields_decryption_error() {
    let r = decrypt_sync("", GOLDEN_PASSWORD, GOLDEN_IV, GOLDEN_SALT);
    assert_eq!(r, Err(DecryptError::DecryptionError));
}

#[test]
fn misaligned_ciphertext_yields_decryption_error() {
    let r = decrypt_sync(&b64(&[0u8; 10]), GOLDEN_PASSWORD, GOLDEN_IV, GOLDEN_SALT);
    assert_eq!(r, Err(DecryptError::DecryptionError));
}

#[test]
fn non_utf8_plaintext_yields_invalid_utf8() {
    let password = "pw";
    let salt: Vec<u8> = vec![4, 4, 4];
    let iv: Vec<u8> = vec![7; 16];
    let key = derive_key(password.as_bytes(), &salt);
    // Pad the invalid bytes by hand so that the padding check passes and
    // only the UTF-8 stage can reject.
    let mut padded: Vec<u8> = vec![0xFF, 0xFE];
    padded.extend(std::iter::repeat(14u8).take(14));
    let enc = cbc::Encryptor::<aes::Aes256>::new_from_slices(&key, &iv).unwrap();
    let ct = enc.encrypt_padded_vec::<aes::cipher::block_padding::NoPadding>(&padded);
    let r = decrypt_sync(&b64(&ct), password, &b64(&iv), &b64(&salt));
    assert_eq!(r, Err(DecryptError::InvalidUTF8));
}

#[test]
fn pkcs7_unpad_strips_valid_padding() {
    let data: Vec<u8> = vec![104, 105, 3, 3, 3];
    assert_eq!(pkcs7_unpad(&data), Some(vec![104, 105]));
    let full_block: Vec<u8> = vec![16; 16];
    assert_eq!(pkcs7_unpad(&full_block), Some(Vec::new()));
}

#[test]
fn pkcs7_unpad_rejects_malformed_padding() {
    assert_eq!(pkcs7_unpad(&Vec::new()), None);
    assert_eq!(pkcs7_unpad(&vec![1, 2, 0]), None);
    assert_eq!(pkcs7_unpad(&vec![1, 2, 17]), None);
    assert_eq!(pkcs7_unpad(&vec![1, 3, 3]), None);
    assert_eq!(pkcs7_unpad(&vec![2, 2, 3]), None);
}

#[test]
fn error_messages_name_the_stage() {
    assert_eq!(DecryptError::InvalidEncoding.message(), "invalid base64");
    assert_eq!(DecryptError::InvalidIVLength.message(), "IV must be 16 bytes");
    assert_eq!(
        DecryptError::InvalidKeyLength.message(),
        "invalid key/iv length"
    );
    assert_eq!(
        DecryptError::DecryptionError.message(),
        "decryption / padding error"
    );
    assert_eq!(DecryptError::InvalidUTF8.message(), "invalid utf-8");
}
