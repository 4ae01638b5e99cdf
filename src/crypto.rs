use vstd::prelude::*;
use solana_sdk::signature::Signer;
use crate::codec::{base58_decoded, b58_decode};
use crate::error::RequestError;

verus! {

/// Whether 64 bytes form a key pair: a 32-byte secret seed followed by the
/// public key that the signature scheme derives from it.
pub uninterp spec fn keypair_valid(b: Seq<u8>) -> bool;

/// The signature that key pair `k` gives message `m` (the scheme is
/// deterministic).
pub uninterp spec fn signature_of(k: Seq<u8>, m: Seq<u8>) -> Seq<u8>;

/// Whether `sig` is a valid signature of message `m` under public key `pk`.
pub uninterp spec fn signature_verifies(sig: Seq<u8>, pk: Seq<u8>, m: Seq<u8>) -> bool;

/// The public half of a 64-byte key pair.
pub open spec fn public_half(k: Seq<u8>) -> Seq<u8> {
    k.subrange(32, 64)
}

/// Relies on `Keypair::new().to_bytes()`: fresh random key material, which
/// `Keypair::from_bytes` accepts since its public half is derived from its
/// secret half.
#[verifier::external_body]
fn random_keypair_bytes() -> (r: Vec<u8>)
    ensures
        r@.len() == 64,
        keypair_valid(r@),
{
    solana_sdk::signature::Keypair::new().to_bytes().to_vec()
}

/// Relies on `Keypair::from_bytes`: it succeeds exactly on valid key pairs.
#[verifier::external_body]
fn keypair_check(b: &[u8]) -> (r: bool)
    requires
        b@.len() == 64,
    ensures
        r == keypair_valid(b@),
{
    solana_sdk::signature::Keypair::from_bytes(b).is_ok()
}

/// Relies on `Keypair::sign_message`: a 64-byte ed25519 signature, which
/// verifies under the key pair's public key.
#[verifier::external_body]
fn sign_bytes(k: &[u8], m: &[u8]) -> (r: Vec<u8>)
    requires
        k@.len() == 64,
        keypair_valid(k@),
    ensures
        r@ == signature_of(k@, m@),
        r@.len() == 64,
        signature_verifies(r@, public_half(k@), m@),
{
    let kp = solana_sdk::signature::Keypair::from_bytes(k).unwrap();
    <[u8; 64]>::from(kp.sign_message(m)).to_vec()
}

/// Relies on `Signature::verify`: whether the signature is valid for the
/// message under the public key.
#[verifier::external_body]
fn verify_bytes(sig: &[u8], pk: &[u8], m: &[u8]) -> (r: bool)
    requires
        sig@.len() == 64,
        pk@.len() == 32,
    ensures
        r == signature_verifies(sig@, pk@, m@),
{
    let arr: [u8; 64] = sig.try_into().unwrap();
    solana_sdk::signature::Signature::from(arr).verify(pk, m)
}

/// What a base58 secret decodes to: the key pair, or the first check that
/// fails (encoding, then length, then consistency of the two halves).
pub open spec fn secret_of(s: Seq<char>) -> Result<Seq<u8>, RequestError> {
    match base58_decoded(s) {
        None => Err(RequestError::InvalidEncoding),
        Some(b) => if b.len() != 64 {
            Err(RequestError::InvalidKeyLength)
        } else if !keypair_valid(b) {
            Err(RequestError::InvalidKeypair)
        } else {
            Ok(b)
        },
    }
}

/// Reads a base58 secret: exactly 64 bytes that form a valid key pair.
pub fn parse_keypair(secret: &str) -> (r: Result<Vec<u8>, RequestError>)
    ensures
        match secret_of(secret@) {
            Ok(k) => r is Ok && r->Ok_0@ == k,
            Err(e) => r == Err::<Vec<u8>, RequestError>(e),
        },
{
    match b58_decode(secret) {
        None => Err(RequestError::InvalidEncoding),
        Some(bytes) => {
            if bytes.len() != 64 {
                Err(RequestError::InvalidKeyLength)
            } else if !keypair_check(bytes.as_slice()) {
                Err(RequestError::InvalidKeypair)
            } else {
                Ok(bytes)
            }
        },
    }
}

/// Generates fresh random key material.
pub fn new_keypair() -> (r: Vec<u8>)
    ensures
        r@.len() == 64,
        keypair_valid(r@),
{
    random_keypair_bytes()
}

/// The public key of a key pair: its last 32 bytes.
pub fn public_of(k: &Vec<u8>) -> (r: Vec<u8>)
    requires
        k@.len() == 64,
    ensures
        r@ == public_half(k@),
{
    let mut r: Vec<u8> = Vec::with_capacity(32);
    let mut i: usize = 32;
    while i < 64
        invariant
            32 <= i <= 64,
            k@.len() == 64,
            r@ == k@.subrange(32, i as int),
        decreases 64 - i,
    {
        r.push(k[i]);
        i += 1;
        proof {
            assert(r@ =~= k@.subrange(32, i as int));
        }
    }
    r
}

/// Signs a message with a valid key pair. The signature verifies under the
/// key pair's public key: `verify(sign(m, k), m, public_of(k))` is `true`.
pub fn sign(message: &[u8], k: &Vec<u8>) -> (r: Vec<u8>)
    requires
        k@.len() == 64,
        keypair_valid(k@),
    ensures
        r@ == signature_of(k@, message@),
        r@.len() == 64,
        signature_verifies(r@, public_half(k@), message@),
{
    sign_bytes(k.as_slice(), message)
}

/// Checks a signature of a message under an address. A signature of the
/// wrong length is an error; one that does not match is `Ok(false)`.
pub fn verify(signature: &Vec<u8>, message: &[u8], address: &Vec<u8>) -> (r: Result<bool, RequestError>)
    requires
        address@.len() == 32,
    ensures
        signature@.len() == 64 ==> r == Ok::<bool, RequestError>(
            signature_verifies(signature@, address@, message@),
        ),
        signature@.len() != 64 ==> r == Err::<bool, RequestError>(
            RequestError::InvalidSignatureEncoding,
        ),
{
    if signature.len() != 64 {
        return Err(RequestError::InvalidSignatureEncoding);
    }
    Ok(verify_bytes(signature.as_slice(), address.as_slice(), message))
}

} // verus!
