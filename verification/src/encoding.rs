use vstd::prelude::*;

verus! {

/// What decoding with the standard base64 alphabet and mandatory padding
/// yields for a given input: `Some(bytes)` when the input is a
/// well-formed encoding of `bytes`, `None` otherwise.
pub uninterp spec fn base64_decode_spec(s: Seq<char>) -> Option<Seq<u8>>;

/// Relies on base64::Engine::decode with the
/// base64::engine::general_purpose::STANDARD engine: it decodes the
/// standard alphabet with padding, rejects anything else, and its result
/// is a function of the input characters alone.
#[verifier::external_body]
pub(crate) fn base64_decode(s: &str) -> (r: Option<Vec<u8>>)
    ensures
        match r {
            Some(v) => base64_decode_spec(s@) == Some(v@),
            None => base64_decode_spec(s@) is None,
        },
{
    base64::Engine::decode(&base64::engine::general_purpose::STANDARD, s).ok()
}

} // verus!
