//! Trusted wrappers around the outside encoding crates: base64, SHA-256,
//! hex and the JSON well-formedness check.  Each wrapper's contract is what
//! the crate's documentation promises; everything built on them is verified
//! against these contracts.

use vstd::prelude::*;

use sha2::Digest;

use crate::json::hex_digit_char;

verus! {

/// What base64 standard encoding returns for these bytes.
pub uninterp spec fn b64_of(b: Seq<u8>) -> Seq<char>;

/// Relies on base64's STANDARD engine: the encoding is a function of the
/// bytes alone; four characters come out for every three bytes, padded.
#[verifier::external_body]
pub fn b64_encode(bytes: &[u8]) -> (r: String)
    ensures
        r@ == b64_of(bytes@),
        r@.len() == 4 * ((bytes@.len() + 2) / 3),
{
    base64::Engine::encode(&base64::engine::general_purpose::STANDARD, bytes)
}

/// What base64 standard decoding returns: the bytes, or nothing for input
/// that is not valid base64.
pub uninterp spec fn b64_decode_of(s: Seq<char>) -> Option<Seq<u8>>;

/// Relies on base64's STANDARD engine: decoding is a function of the input
/// alone and fails exactly on malformed input.
#[verifier::external_body]
pub fn b64_decode(s: &str) -> (r: Option<Vec<u8>>)
    ensures
        r is Some <==> b64_decode_of(s@) is Some,
        r is Some ==> r.unwrap()@ == b64_decode_of(s@).unwrap(),
{
    match base64::Engine::decode(&base64::engine::general_purpose::STANDARD, s) {
        Ok(v) => Some(v),
        Err(_) => None,
    }
}

/// What SHA-256 returns for these bytes.
pub uninterp spec fn sha256_of(b: Seq<u8>) -> Seq<u8>;

/// Relies on sha2's Sha256: a 32-byte digest, a function of the bytes
/// alone.
#[verifier::external_body]
pub fn sha256(bytes: &[u8]) -> (r: Vec<u8>)
    ensures
        r@ == sha256_of(bytes@),
        r@.len() == 32,
{
    let mut hasher = sha2::Sha256::new();
    hasher.update(bytes);
    hasher.finalize().to_vec()
}

/// Lower-case hexadecimal encoding: two digits for each byte.
pub open spec fn hex_of(b: Seq<u8>) -> Seq<char>
    decreases b.len(),
{
    if b.len() == 0 {
        Seq::empty()
    } else {
        seq![
            hex_digit_char((b[0] / 16) as nat),
            hex_digit_char((b[0] % 16) as nat),
        ] + hex_of(b.skip(1))
    }
}

/// Relies on hex::encode: two lower-case hexadecimal digits per byte, in
/// order.
#[verifier::external_body]
pub fn hex_encode(bytes: &[u8]) -> (r: String)
    ensures
        r@ == hex_of(bytes@),
{
    hex::encode(bytes)
}

/// Whether these bytes parse as one JSON document.
pub uninterp spec fn is_json_value(b: Seq<u8>) -> bool;

/// Relies on serde_json::from_slice for serde_json::Value: success depends
/// on the bytes alone.
#[verifier::external_body]
pub fn json_is_valid(bytes: &[u8]) -> (r: bool)
    ensures
        r == is_json_value(bytes@),
{
    serde_json::from_slice::<serde_json::Value>(bytes).is_ok()
}

} // verus!
