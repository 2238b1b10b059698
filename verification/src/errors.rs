use vstd::prelude::*;

verus! {

/// The ways the decryption pipeline can fail.
///
/// Callers dispatch on the variant, not on the message text. Note that
/// `DecryptionError` is inherently ambiguous between a wrong password,
/// corrupted ciphertext and tampered data: the scheme carries no
/// integrity tag, so the padding check is the only signal.
#[derive(Clone, Copy, Debug, PartialEq, Eq, Structural)]
pub enum DecryptError {
    /// One of the base64 inputs does not decode.
    InvalidEncoding,
    /// The decoded IV is not exactly 16 bytes.
    InvalidIVLength,
    /// The supplied key is not exactly 32 bytes (defensive; the key
    /// derivation always produces 32 bytes).
    InvalidKeyLength,
    /// The ciphertext is not a nonzero multiple of the block size, or the
    /// decrypted bytes do not end in well-formed padding.
    DecryptionError,
    /// The unpadded plaintext bytes are not valid UTF-8.
    InvalidUTF8,
}

impl DecryptError {
    /// A short description of the failure. It never contains plaintext,
    /// password or key material.
    pub fn message(&self) -> (r: &'static str)
        ensures
            r@ == match *self {
                DecryptError::InvalidEncoding => "invalid base64"@,
                DecryptError::InvalidIVLength => "IV must be 16 bytes"@,
                DecryptError::InvalidKeyLength => "invalid key/iv length"@,
                DecryptError::DecryptionError => "decryption / padding error"@,
                DecryptError::InvalidUTF8 => "invalid utf-8"@,
            },
    {
        match *self {
            DecryptError::InvalidEncoding => "invalid base64",
            DecryptError::InvalidIVLength => "IV must be 16 bytes",
            DecryptError::InvalidKeyLength => "invalid key/iv length",
            DecryptError::DecryptionError => "decryption / padding error",
            DecryptError::InvalidUTF8 => "invalid utf-8",
        }
    }
}

} // verus!
