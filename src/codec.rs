use vstd::prelude::*;
use base64::Engine;
use crate::error::RequestError;

verus! {

/// The base58 text of a byte string.
pub uninterp spec fn base58_of(b: Seq<u8>) -> Seq<char>;

/// The bytes that a text decodes to as base58, if it is valid base58.
pub uninterp spec fn base58_decoded(s: Seq<char>) -> Option<Seq<u8>>;

/// The standard (padded) base64 text of a byte string.
pub uninterp spec fn base64_of(b: Seq<u8>) -> Seq<char>;

/// The bytes that a text decodes to as standard base64, if it is valid.
pub uninterp spec fn base64_decoded(s: Seq<char>) -> Option<Seq<u8>>;

/// The 32-byte address written by `s`, if any.
pub open spec fn address_of(s: Seq<char>) -> Option<Seq<u8>> {
    match base58_decoded(s) {
        Some(b) => if b.len() == 32 { Some(b) } else { None },
        None => None,
    }
}

/// Relies on `bs58::encode(..).into_string()`: the base58 text of the bytes,
/// which `bs58::decode` reads back to the same bytes.
#[verifier::external_body]
fn b58_encode(b: &[u8]) -> (r: String)
    ensures
        r@ == base58_of(b@),
        base58_decoded(r@) == Some(b@),
{
    bs58::encode(b).into_string()
}

/// Relies on `bs58::decode(..).into_vec()`: the decoded bytes, or an error
/// on text that is not base58.
#[verifier::external_body]
pub(crate) fn b58_decode(s: &str) -> (r: Option<Vec<u8>>)
    ensures
        match r {
            Some(v) => base58_decoded(s@) == Some(v@),
            None => base58_decoded(s@) is None,
        },
{
    bs58::decode(s).into_vec().ok()
}

/// Relies on base64's `STANDARD.encode`: the padded base64 text of the bytes,
/// which `STANDARD.decode` reads back to the same bytes.
#[verifier::external_body]
fn b64_encode(b: &[u8]) -> (r: String)
    ensures
        r@ == base64_of(b@),
        base64_decoded(r@) == Some(b@),
{
    base64::engine::general_purpose::STANDARD.encode(b)
}

/// Relies on base64's `STANDARD.decode`: the decoded bytes, or an error on
/// malformed text.
#[verifier::external_body]
fn b64_decode(s: &str) -> (r: Option<Vec<u8>>)
    ensures
        match r {
            Some(v) => base64_decoded(s@) == Some(v@),
            None => base64_decoded(s@) is None,
        },
{
    base64::engine::general_purpose::STANDARD.decode(s).ok()
}

/// Canonical text of an address; reading it back gives the same address.
pub fn encode_address_base58(a: &Vec<u8>) -> (r: String)
    requires
        a@.len() == 32,
    ensures
        r@ == base58_of(a@),
        address_of(r@) == Some(a@),
{
    b58_encode(a.as_slice())
}

/// Base58 text of arbitrary bytes (a secret key, for instance).
pub fn encode_bytes_base58(b: &Vec<u8>) -> (r: String)
    ensures
        r@ == base58_of(b@),
        base58_decoded(r@) == Some(b@),
{
    b58_encode(b.as_slice())
}

/// Reads a base58 address; it must decode to exactly 32 bytes.
pub fn parse_pubkey(s: &str) -> (r: Result<Vec<u8>, RequestError>)
    ensures
        match address_of(s@) {
            Some(a) => r is Ok && r->Ok_0@ == a,
            None => r == Err::<Vec<u8>, RequestError>(RequestError::InvalidAddress),
        },
{
    match b58_decode(s) {
        Some(v) => {
            if v.len() == 32 {
                Ok(v)
            } else {
                Err(RequestError::InvalidAddress)
            }
        },
        None => Err(RequestError::InvalidAddress),
    }
}

/// Encodes bytes as standard base64.
pub fn encode_bytes_base64(b: &Vec<u8>) -> (r: String)
    ensures
        r@ == base64_of(b@),
        base64_decoded(r@) == Some(b@),
{
    b64_encode(b.as_slice())
}

/// Decodes standard base64 text.
pub fn decode_bytes_base64(s: &str) -> (r: Result<Vec<u8>, RequestError>)
    ensures
        match base64_decoded(s@) {
            Some(b) => r is Ok && r->Ok_0@ == b,
            None => r == Err::<Vec<u8>, RequestError>(RequestError::InvalidBase64),
        },
{
    match b64_decode(s) {
        Some(v) => Ok(v),
        None => Err(RequestError::InvalidBase64),
    }
}

} // verus!
