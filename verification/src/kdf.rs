use vstd::prelude::*;

verus! {

/// The fixed PBKDF2 round count of the scheme. Data encrypted against
/// this scheme always uses this count, so it is not configurable.
pub const PBKDF2_ROUNDS: u32 = 100000;

/// What PBKDF2-HMAC-SHA256 yields at an output length of 32 bytes, as a
/// function of the password bytes, the salt bytes and the round count.
pub uninterp spec fn pbkdf2_sha256_32(password: Seq<u8>, salt: Seq<u8>, rounds: u32) -> Seq<u8>;

/// Relies on pbkdf2::pbkdf2_hmac_array with sha2::Sha256 at 32 output
/// bytes: a pure function of (password, salt, rounds) that always
/// returns exactly 32 bytes.
#[verifier::external_body]
fn pbkdf2_sha256(password: &[u8], salt: &[u8], rounds: u32) -> (r: Vec<u8>)
    ensures
        r@ == pbkdf2_sha256_32(password@, salt@, rounds),
        r@.len() == 32,
{
    pbkdf2::pbkdf2_hmac_array::<sha2::Sha256, 32>(password, salt, rounds).to_vec()
}

/// Stretches the password and salt into the 32-byte AES key with
/// PBKDF2-HMAC-SHA256 at the scheme's fixed round count. This stage is
/// deterministic and has no failure mode of its own.
pub fn derive_key(password: &[u8], salt: &[u8]) -> (r: Vec<u8>)
    ensures
        r@ == pbkdf2_sha256_32(password@, salt@, PBKDF2_ROUNDS),
        r@.len() == 32,
{
    pbkdf2_sha256(password, salt, PBKDF2_ROUNDS)
}

/// Key derivation is deterministic: it is a function of the password and
/// salt byte sequences alone, so identical inputs always yield the
/// byte-identical 32-byte key.
pub proof fn lemma_derive_key_deterministic(
    password1: Seq<u8>,
    salt1: Seq<u8>,
    password2: Seq<u8>,
    salt2: Seq<u8>,
)
    requires
        password1 == password2,
        salt1 == salt2,
    ensures
        pbkdf2_sha256_32(password1, salt1, PBKDF2_ROUNDS) == pbkdf2_sha256_32(
            password2,
            salt2,
            PBKDF2_ROUNDS,
        ),
{
}

} // verus!
