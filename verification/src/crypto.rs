//! Cryptographic primitives the control plane relies on, each behind a
//! trusted wrapper: SHA-256 hex digests for the audit chain, Ed25519
//! signature checks for release promotion, the base64 codecs for signer
//! keys, signatures and pairing tokens, and the random bytes a pairing
//! token is drawn from.

use base64::Engine;
use ed25519_dalek::Verifier;
use rand::RngCore;
use sha2::Digest;
use vstd::prelude::*;

verus! {

/// The 64-character lowercase-hex rendering of the SHA-256 digest of a byte
/// sequence. This names the result of the sha2 crate's implementation and is
/// not otherwise specified.
pub uninterp spec fn sha256_hex_of(bytes: Seq<u8>) -> Seq<char>;

/// Relies on sha2::Sha256 and the `LowerHex` rendering of its digest: a
/// 32-byte digest printed as 64 lowercase hex characters, a function of the
/// input bytes alone.
#[verifier::external_body]
pub fn sha256_hex(input: &[u8]) -> (r: String)
    ensures
        r@ == sha256_hex_of(input@),
        r@.len() == 64,
{
    let mut hasher = sha2::Sha256::new();
    hasher.update(input);
    format!("{:x}", hasher.finalize())
}

/// What decoding a signer key or signature string yields: the bytes under
/// base64's standard alphabet, else the bytes under the URL-safe unpadded
/// alphabet, else `None`; whitespace around the input is ignored. This names
/// the result of the base64 crate's decoders.
pub uninterp spec fn base64_flex_decode(s: Seq<char>) -> Option<Seq<u8>>;

/// Relies on the STANDARD and URL_SAFE_NO_PAD engines of the base64 crate:
/// the decoding of the trimmed input under the standard alphabet, or under
/// the URL-safe unpadded alphabet when the former fails, a function of the
/// input string alone.
#[verifier::external_body]
pub fn decode_base64_flexible(raw: &str) -> (r: Option<Vec<u8>>)
    ensures
        match r {
            Some(bytes) => base64_flex_decode(raw@) == Some(bytes@),
            None => base64_flex_decode(raw@) is None,
        },
{
    let trimmed = raw.trim();
    base64::engine::general_purpose::STANDARD
        .decode(trimmed)
        .or_else(|_| base64::engine::general_purpose::URL_SAFE_NO_PAD.decode(trimmed))
        .ok()
}

/// The unpadded URL-safe base64 rendering of a byte sequence. This names
/// the result of the base64 crate's encoder and is not otherwise specified.
pub uninterp spec fn base64url_nopad(bytes: Seq<u8>) -> Seq<char>;

/// Relies on the URL_SAFE_NO_PAD engine of the base64 crate: the unpadded
/// URL-safe encoding, a function of the bytes alone.
#[verifier::external_body]
pub fn encode_base64url_nopad(bytes: &[u8]) -> (r: String)
    ensures
        r@ == base64url_nopad(bytes@),
{
    base64::engine::general_purpose::URL_SAFE_NO_PAD.encode(bytes)
}

/// Relies on rand::rng and RngCore::fill_bytes: 32 bytes drawn from the
/// thread-local generator. Nothing is assumed of their values.
#[verifier::external_body]
pub fn random_token_bytes() -> (r: Vec<u8>)
    ensures
        r@.len() == 32,
{
    let mut bytes = [0u8; 32];
    rand::rng().fill_bytes(&mut bytes);
    bytes.to_vec()
}

/// Whether 32 bytes form a valid Ed25519 public key, as decided by
/// ed25519_dalek::VerifyingKey::from_bytes.
pub uninterp spec fn ed25519_key_valid(key: Seq<u8>) -> bool;

/// Whether an Ed25519 signature verifies over a message under a public key,
/// as decided by ed25519_dalek's verifier.
pub uninterp spec fn ed25519_verifies(key: Seq<u8>, message: Seq<u8>, signature: Seq<u8>) -> bool;

/// Relies on ed25519_dalek::VerifyingKey::from_bytes and Verifier::verify:
/// whether the key bytes parse, and whether the signature verifies over the
/// message under that key, are functions of the bytes alone.
#[verifier::external_body]
pub fn ed25519_check(key: &[u8], message: &[u8], signature: &[u8]) -> (r: Result<bool, ()>)
    requires
        key@.len() == 32,
        signature@.len() == 64,
    ensures
        r is Ok <==> ed25519_key_valid(key@),
        r matches Ok(passed) ==> passed == ed25519_verifies(key@, message@, signature@),
{
    let key_bytes: [u8; 32] = match key.try_into() {
        Ok(bytes) => bytes,
        Err(_) => return Err(()),
    };
    let sig_bytes: [u8; 64] = match signature.try_into() {
        Ok(bytes) => bytes,
        Err(_) => return Err(()),
    };
    let verifying_key = match ed25519_dalek::VerifyingKey::from_bytes(&key_bytes) {
        Ok(parsed) => parsed,
        Err(_) => return Err(()),
    };
    let signature = ed25519_dalek::Signature::from_bytes(&sig_bytes);
    Ok(verifying_key.verify(message, &signature).is_ok())
}

} // verus!
