//! Password-based symmetric decryption of a single blob.
//!
//! Given a base64-encoded ciphertext, a password, a base64-encoded IV and
//! a base64-encoded salt, the pipeline derives a 32-byte key with
//! PBKDF2-HMAC-SHA256 (100000 rounds), decrypts with AES-256-CBC, strips
//! PKCS#7 padding and validates the result as UTF-8. Control flows
//! strictly forward; the first failing stage aborts with one classified
//! [`errors::DecryptError`]. There is no encryption counterpart and no
//! integrity check: a wrong password almost always surfaces as a padding
//! failure, and callers must treat that error as ambiguous.

use vstd::prelude::*;

pub mod aes_cbc;
pub mod encoding;
pub mod errors;
pub mod kdf;
pub mod padding;
pub mod text;

use crate::aes_cbc::{aes256_cbc_decrypt, aes256_cbc_decrypt_spec};
use crate::encoding::{base64_decode, base64_decode_spec};
use crate::errors::DecryptError;
use crate::kdf::{derive_key, pbkdf2_sha256_32, PBKDF2_ROUNDS};
use crate::padding::{lemma_pkcs7_round_trip, pkcs7_pad_spec, pkcs7_unpad, pkcs7_unpad_spec, pkcs7_valid};
use crate::text::bytes_to_string;
use vstd::utf8::{decode_utf8, encode_utf8, encode_utf8_decode_utf8, encode_utf8_valid_utf8, valid_utf8};

verus! {

/// The whole pipeline as one mathematical function of the four inputs:
/// decode the three base64 strings (else `InvalidEncoding`), require a
/// 16-byte IV (else `InvalidIVLength`), derive the key (32 bytes by
/// construction; anything else would be `InvalidKeyLength`), require a
/// nonzero block-aligned ciphertext and well-formed padding on the
/// decryption (else `DecryptionError`), and require the unpadded bytes to
/// be UTF-8 (else `InvalidUTF8`).
pub open spec fn decrypt_spec(
    ciphertext_b64: Seq<char>,
    password: Seq<char>,
    iv_b64: Seq<char>,
    salt_b64: Seq<char>,
) -> Result<Seq<char>, DecryptError> {
    match (base64_decode_spec(ciphertext_b64), base64_decode_spec(iv_b64), base64_decode_spec(
        salt_b64,
    )) {
        (Some(ciphertext), Some(iv), Some(salt)) => {
            if iv.len() != 16 {
                Err(DecryptError::InvalidIVLength)
            } else {
                let key = pbkdf2_sha256_32(encode_utf8(password), salt, PBKDF2_ROUNDS);
                if key.len() != 32 {
                    Err(DecryptError::InvalidKeyLength)
                } else if ciphertext.len() == 0 || ciphertext.len() % 16 != 0 {
                    Err(DecryptError::DecryptionError)
                } else {
                    let padded = aes256_cbc_decrypt_spec(key, iv, ciphertext);
                    if !pkcs7_valid(padded) {
                        Err(DecryptError::DecryptionError)
                    } else {
                        let plaintext = pkcs7_unpad_spec(padded);
                        if valid_utf8(plaintext) {
                            Ok(decode_utf8(plaintext))
                        } else {
                            Err(DecryptError::InvalidUTF8)
                        }
                    }
                }
            }
        },
        _ => Err(DecryptError::InvalidEncoding),
    }
}

/// The round trip: a compatible encryptor encodes the plaintext as
/// UTF-8, pads it to the block size, and encrypts the result with
/// AES-256-CBC under the key derived from the same password and salt.
/// Whenever the block decryption of the decoded ciphertext under that key
/// and IV recovers exactly those padded bytes: this is what the block
/// cipher guarantees for a matching key and IV, the one step this
/// library states nothing about. In that case the pipeline returns exactly the
/// original text.
pub proof fn lemma_decrypt_round_trip(
    ciphertext_b64: Seq<char>,
    password: Seq<char>,
    iv_b64: Seq<char>,
    salt_b64: Seq<char>,
    text: Seq<char>,
)
    requires
        base64_decode_spec(ciphertext_b64) is Some,
        base64_decode_spec(iv_b64) is Some,
        base64_decode_spec(salt_b64) is Some,
        base64_decode_spec(iv_b64)->Some_0.len() == 16,
        ({
            let ciphertext = base64_decode_spec(ciphertext_b64)->Some_0;
            let iv = base64_decode_spec(iv_b64)->Some_0;
            let salt = base64_decode_spec(salt_b64)->Some_0;
            let key = pbkdf2_sha256_32(encode_utf8(password), salt, PBKDF2_ROUNDS);
            &&& key.len() == 32
            &&& ciphertext.len() == pkcs7_pad_spec(encode_utf8(text)).len()
            &&& aes256_cbc_decrypt_spec(key, iv, ciphertext) == pkcs7_pad_spec(encode_utf8(text))
        }),
    ensures
        decrypt_spec(ciphertext_b64, password, iv_b64, salt_b64) == Ok::<Seq<char>, DecryptError>(
            text,
        ),
{
    lemma_pkcs7_round_trip(encode_utf8(text));
    encode_utf8_valid_utf8(text);
    encode_utf8_decode_utf8(text);
}

/// Decrypts a base64-encoded ciphertext using a password, a
/// base64-encoded IV and a base64-encoded salt, returning the recovered
/// plaintext, or the error of the first stage that fails, exactly as
/// [`decrypt_spec`] lays the stages out.
pub fn decrypt_sync(
    b64_ciphertext: &str,
    password: &str,
    b64_iv: &str,
    b64_salt: &str,
) -> (r: Result<String, DecryptError>)
    ensures
        r matches Ok(text) ==> decrypt_spec(b64_ciphertext@, password@, b64_iv@, b64_salt@)
            == Ok::<Seq<char>, DecryptError>(text@),
        r matches Err(e) ==> decrypt_spec(b64_ciphertext@, password@, b64_iv@, b64_salt@)
            == Err::<Seq<char>, DecryptError>(e),
{
    let ciphertext = match base64_decode(b64_ciphertext) {
        Some(v) => v,
        None => {
            return Err(DecryptError::InvalidEncoding);
        },
    };
    let iv = match base64_decode(b64_iv) {
        Some(v) => v,
        None => {
            return Err(DecryptError::InvalidEncoding);
        },
    };
    let salt = match base64_decode(b64_salt) {
        Some(v) => v,
        None => {
            return Err(DecryptError::InvalidEncoding);
        },
    };
    if iv.len() != 16 {
        return Err(DecryptError::InvalidIVLength);
    }
    let key = derive_key(password.as_bytes(), salt.as_slice());
    if key.len() != 32 {
        return Err(DecryptError::InvalidKeyLength);
    }
    if ciphertext.len() == 0 || ciphertext.len() % 16 != 0 {
        return Err(DecryptError::DecryptionError);
    }
    let padded = aes256_cbc_decrypt(&key, &iv, ciphertext);
    let plaintext = match pkcs7_unpad(&padded) {
        Some(v) => v,
        None => {
            return Err(DecryptError::DecryptionError);
        },
    };
    match bytes_to_string(plaintext) {
        Some(text) => Ok(text),
        None => Err(DecryptError::InvalidUTF8),
    }
}

} // verus!
