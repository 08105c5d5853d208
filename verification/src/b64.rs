use vstd::prelude::*;

verus! {

/// What standard Base64 decoding yields on the given bytes: `Some` of the
/// decoded bytes when the input is well-formed standard Base64, `None`
/// otherwise. The outcome depends on the input bytes alone.
pub uninterp spec fn b64_decode_of(s: Seq<u8>) -> Option<Seq<u8>>;

/// Relies on base64's `Engine::decode` with the `STANDARD` engine: decoding
/// is a function of the input bytes alone, and it returns `Err` exactly when
/// the input is not well-formed standard Base64.
#[verifier::external_body]
pub(crate) fn b64_decode(s: &Vec<u8>) -> (r: Option<Vec<u8>>)
    ensures
        match r {
            Some(v) => b64_decode_of(s@) == Some(v@),
            None => b64_decode_of(s@) is None,
        },
{
    match base64::engine::Engine::decode(&base64::engine::general_purpose::STANDARD, s) {
        Ok(v) => Some(v),
        Err(_) => None,
    }
}

} // verus!
