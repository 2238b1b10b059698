use aes::cipher::{BlockModeDecrypt, KeyIvInit};
use vstd::prelude::*;

verus! {

/// What raw AES-256-CBC decryption (no padding handling) yields for a
/// 32-byte key, a 16-byte IV and a block-aligned ciphertext.
pub uninterp spec fn aes256_cbc_decrypt_spec(key: Seq<u8>, iv: Seq<u8>, ciphertext: Seq<u8>) -> Seq<u8>;

/// Relies on cbc::Decryptor<aes::Aes256>: new_from_slices accepts exactly
/// a 32-byte key with a 16-byte IV, and decrypt_padded with NoPadding
/// accepts exactly block-aligned input and hands back the whole decrypted
/// buffer. The result is a function of (key, IV, ciphertext) alone and
/// has the ciphertext's length.
#[verifier::external_body]
pub(crate) fn aes256_cbc_decrypt(key: &Vec<u8>, iv: &Vec<u8>, ciphertext: Vec<u8>) -> (r: Vec<u8>)
    requires
        key@.len() == 32,
        iv@.len() == 16,
        ciphertext@.len() % 16 == 0,
    ensures
        r@ == aes256_cbc_decrypt_spec(key@, iv@, ciphertext@),
        r@.len() == ciphertext@.len(),
{
    let dec = cbc::Decryptor::<aes::Aes256>::new_from_slices(key.as_slice(), iv.as_slice())
        .unwrap();
    let mut buf = ciphertext;
    dec.decrypt_padded::<aes::cipher::block_padding::NoPadding>(buf.as_mut_slice()).unwrap();
    buf
}

} // verus!
