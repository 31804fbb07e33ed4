//! Base58 and base64 codecs, called from the `bs58` and `base64` crates.
//!
//! What the codecs return is a function of their input alone, so each
//! result is given a name (an uninterpreted spec function); the wrappers'
//! contracts relate their results to those names, together with the
//! round-trip and emptiness facts that both crates' documentation gives.

use base64::Engine as _;
use vstd::prelude::*;

verus! {

/// The base58 encoding (Bitcoin alphabet) of a byte string.
pub uninterp spec fn base58_encoding(b: Seq<u8>) -> Seq<char>;

/// The byte string a base58 string decodes to, or `None` when it is not
/// valid base58.
pub uninterp spec fn base58_decoding(s: Seq<char>) -> Option<Seq<u8>>;

/// The standard (padded) base64 encoding of a byte string.
pub uninterp spec fn base64_encoding(b: Seq<u8>) -> Seq<char>;

/// The byte string a standard base64 string decodes to, or `None` when it
/// is not valid base64.
pub uninterp spec fn base64_decoding(s: Seq<char>) -> Option<Seq<u8>>;

/// Relies on `bs58::encode`: base58 over the Bitcoin alphabet. Decoding an
/// encoded string gives the bytes back, and only the empty input encodes
/// to the empty string.
#[verifier::external_body]
pub fn base58_encode(b: &[u8]) -> (r: String)
    ensures
        r@ == base58_encoding(b@),
        base58_decoding(r@) == Some(b@),
        (r@.len() == 0) <==> (b@.len() == 0),
{
    bs58::encode(b).into_string()
}

/// Relies on `bs58::decode`: `Some` exactly on strings of base58 digits,
/// with the bytes they denote. A nonempty byte string takes at least one
/// digit to write, so only the empty string decodes to the empty bytes.
#[verifier::external_body]
pub fn base58_decode(s: &str) -> (r: Option<Vec<u8>>)
    ensures
        match r {
            Some(v) => base58_decoding(s@) == Some(v@),
            None => base58_decoding(s@) is None,
        },
        (r matches Some(v) && v@.len() != 0) ==> s@.len() != 0,
{
    match bs58::decode(s).into_vec() {
        Ok(v) => Some(v),
        Err(_) => None,
    }
}

/// Relies on `base64::engine::general_purpose::STANDARD.encode`: padded
/// standard base64. Decoding an encoded string gives the bytes back, and
/// only the empty input encodes to the empty string.
#[verifier::external_body]
pub fn base64_encode(b: &[u8]) -> (r: String)
    ensures
        r@ == base64_encoding(b@),
        base64_decoding(r@) == Some(b@),
        (r@.len() == 0) <==> (b@.len() == 0),
{
    base64::engine::general_purpose::STANDARD.encode(b)
}

/// Relies on `base64::engine::general_purpose::STANDARD.decode`: `Some`
/// exactly on well-formed padded base64, with the bytes it denotes.
#[verifier::external_body]
pub fn base64_decode(s: &str) -> (r: Option<Vec<u8>>)
    ensures
        match r {
            Some(v) => base64_decoding(s@) == Some(v@),
            None => base64_decoding(s@) is None,
        },
{
    match base64::engine::general_purpose::STANDARD.decode(s) {
        Ok(v) => Some(v),
        Err(_) => None,
    }
}

} // verus!
