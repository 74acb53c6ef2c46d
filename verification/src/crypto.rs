//! Hashing and signature checking, done by the NEAR SDK and `ed25519-dalek`.
use vstd::prelude::*;
use ed25519_dalek::{Signer, Verifier};
use std::str::FromStr;

verus! {

/// The SHA-256 digest of a byte string.
pub uninterp spec fn sha256_digest(data: Seq<u8>) -> Seq<u8>;

/// Whether `signature` is a valid ed25519 signature of `message` under the
/// 32-byte key `public_key` (which must decode to a curve point).
pub uninterp spec fn ed25519_accepts(public_key: Seq<u8>, message: Seq<u8>, signature: Seq<u8>) -> bool;

/// The 64 keypair bytes (secret half, then public half) of an ed25519
/// secret key written as `ed25519:<base58>`, or `None` when the text is not
/// such a key.
pub uninterp spec fn ed25519_secret_key(text: Seq<char>) -> Option<Seq<u8>>;

/// The ed25519 signature of `message` by the keypair `keypair`, or `None`
/// when the keypair's public half is not the key its secret half gives.
pub uninterp spec fn ed25519_signature(keypair: Seq<u8>, message: Seq<u8>) -> Option<Seq<u8>>;

/// The text of a 32-byte ed25519 public key: `ed25519:` and the key in
/// base58.
pub uninterp spec fn ed25519_key_text(key: Seq<u8>) -> Seq<char>;

/// The bytes of the NEAR SDK public key written as `text` (the curve type,
/// then the key), or `None` when the text is not a public key.
pub uninterp spec fn sdk_key_of_text(text: Seq<char>) -> Option<Seq<u8>>;

/// Calls `near_crypto::SecretKey::from_str`. Trusted: on an `ed25519:` key
/// the result is its 64 keypair bytes, which the name stands for; any other
/// key or text gives `None`.
#[verifier::external_body]
pub(crate) fn parse_secret_key(text: &str) -> (r: Option<Vec<u8>>)
    ensures
        r is Some <==> ed25519_secret_key(text@) is Some,
        r matches Some(k) ==> k@ == ed25519_secret_key(text@).unwrap() && k@.len() == 64,
{
    match near_crypto::SecretKey::from_str(text) {
        Ok(near_crypto::SecretKey::ED25519(k)) => Some(k.0.to_vec()),
        Ok(_) => None,
        Err(_) => None,
    }
}

/// Calls `near_crypto::SecretKey::public_key` on an ed25519 keypair and
/// takes the key's bytes. Trusted: for an ed25519 key the source returns the
/// public half of the keypair, bytes 32 to 64.
#[verifier::external_body]
pub(crate) fn public_key_of(keypair: &[u8]) -> (r: Vec<u8>)
    requires
        keypair@.len() == 64,
    ensures
        r@ == keypair@.subrange(32, 64),
{
    let bytes: [u8; 64] = keypair.try_into().unwrap();
    near_crypto::SecretKey::ED25519(near_crypto::ED25519SecretKey(bytes)).public_key().key_data().to_vec()
}

/// Calls `Display` of `near_crypto::PublicKey` on a 32-byte ed25519 key.
/// Trusted: the result is the key's text, which the name stands for.
#[verifier::external_body]
pub(crate) fn public_key_text(key: &[u8]) -> (r: String)
    requires
        key@.len() == 32,
    ensures
        r@ == ed25519_key_text(key@),
{
    let bytes: [u8; 32] = key.try_into().unwrap();
    near_crypto::PublicKey::ED25519(near_crypto::ED25519PublicKey(bytes)).to_string()
}

/// Calls `near_sdk::PublicKey::from_str` and takes the key's bytes.
/// Trusted: the result is what the name stands for.
#[verifier::external_body]
pub(crate) fn sdk_public_key(text: &str) -> (r: Option<Vec<u8>>)
    ensures
        r is Some <==> sdk_key_of_text(text@) is Some,
        r matches Some(k) ==> k@ == sdk_key_of_text(text@).unwrap(),
{
    match near_sdk::PublicKey::from_str(text) {
        Ok(k) => Some(k.as_bytes().to_vec()),
        Err(_) => None,
    }
}

/// Calls `ed25519_dalek::SigningKey::from_keypair_bytes` and, when the two
/// halves agree, `Signer::sign`: the two steps of `near_crypto`'s ed25519
/// `SecretKey::sign`, which unwraps the first. Trusted: the result is what
/// the name stands for, and a signature is 64 bytes.
#[verifier::external_body]
pub(crate) fn ed25519_sign(keypair: &[u8], message: &[u8]) -> (r: Option<Vec<u8>>)
    requires
        keypair@.len() == 64,
    ensures
        r is Some <==> ed25519_signature(keypair@, message@) is Some,
        r matches Some(s) ==> s@ == ed25519_signature(keypair@, message@).unwrap() && s@.len()
            == 64,
{
    let bytes: [u8; 64] = keypair.try_into().unwrap();
    match ed25519_dalek::SigningKey::from_keypair_bytes(&bytes) {
        Ok(k) => Some(k.sign(message).to_bytes().to_vec()),
        Err(_) => None,
    }
}

/// Calls `near_sdk::env::sha256`. Trusted: the result is the SHA-256 digest of
/// `data` (a name, not a definition) and, as every SHA-256 digest, 32 bytes.
#[verifier::external_body]
pub(crate) fn sha256(data: &[u8]) -> (r: Vec<u8>)
    ensures
        r@ == sha256_digest(data@),
        r@.len() == 32,
{
    near_sdk::env::sha256(data)
}

/// Calls `ed25519_dalek::VerifyingKey::from_bytes` on the key bytes and, when
/// they decode, `Verifier::verify` with the signature built by
/// `Signature::from_bytes`. Trusted: true exactly when the key decodes and the
/// signature verifies, which the name `ed25519_accepts` stands for.
#[verifier::external_body]
pub(crate) fn ed25519_verify(public_key: &[u8], message: &[u8], signature: &[u8]) -> (r: bool)
    requires
        public_key@.len() == 32,
        signature@.len() == 64,
    ensures
        r == ed25519_accepts(public_key@, message@, signature@),
{
    let key_bytes: [u8; 32] = public_key.try_into().unwrap();
    let sig_bytes: [u8; 64] = signature.try_into().unwrap();
    match ed25519_dalek::VerifyingKey::from_bytes(&key_bytes) {
        Ok(key) => key.verify(message, &ed25519_dalek::Signature::from_bytes(&sig_bytes)).is_ok(),
        Err(_) => false,
    }
}

} // verus!
