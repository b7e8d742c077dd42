use vstd::prelude::*;

verus! {

#[verifier::external_type_specification]
#[verifier::external_body]
pub struct ExSecretKey(near_crypto::SecretKey);

#[verifier::external_type_specification]
#[verifier::external_body]
pub struct ExPublicKey(near_crypto::PublicKey);

/// Whether a private-key string is in the network's encoded key form,
/// `"<algorithm>:<base58-data>"` (a bare base58 string counts as ed25519).
/// Acceptance is decided by the text alone.
pub uninterp spec fn secret_key_text_ok(s: Seq<char>) -> bool;

/// The key a private-key string parses to, a function of the text alone;
/// meaningful where `secret_key_text_ok` holds of the text.
pub uninterp spec fn key_of_text(s: Seq<char>) -> near_crypto::SecretKey;

/// The public half of a key pair, a function of the secret key alone.
pub uninterp spec fn public_part_of(k: near_crypto::SecretKey) -> near_crypto::PublicKey;

/// Whether a parsed key can actually sign. The ed25519 encoded form carries
/// the secret and the public halves side by side, and parsing does not check
/// that they belong together; signing rejects a mismatched pair.
pub uninterp spec fn key_can_sign(k: near_crypto::SecretKey) -> bool;

/// Relies on near_crypto::SecretKey's FromStr: splits off the algorithm
/// prefix, base58-decodes the remainder, and checks the decoded length (and,
/// for some algorithms, that the bytes form a key). Success and the parsed
/// key depend on the string alone.
#[verifier::external_body]
pub(crate) fn parse_secret_key(s: &str) -> (r: Option<near_crypto::SecretKey>)
    ensures
        r is Some <==> secret_key_text_ok(s@),
        r matches Some(k) ==> k == key_of_text(s@),
{
    s.parse::<near_crypto::SecretKey>().ok()
}

/// Relies on ed25519_dalek::SigningKey::from_keypair_bytes, the same check
/// near_crypto's signing path performs on an ed25519 key: it accepts exactly
/// the 64-byte pairs whose public half is the public key of the secret half.
/// A secp256k1 or ML-DSA key was already validated when it was parsed, and
/// near_crypto signs with it without touching a stored public half.
#[verifier::external_body]
pub(crate) fn secret_key_is_consistent(key: &near_crypto::SecretKey) -> (r: bool)
    ensures
        r == key_can_sign(*key),
{
    match key {
        near_crypto::SecretKey::ED25519(inner) => {
            ed25519_dalek::SigningKey::from_keypair_bytes(&inner.0).is_ok()
        },
        _ => true,
    }
}

/// Relies on near_crypto::SecretKey::public_key: derives the public half of
/// the key pair, a function of the key alone.
#[verifier::external_body]
pub(crate) fn public_key_of(key: &near_crypto::SecretKey) -> (r: near_crypto::PublicKey)
    ensures
        r == public_part_of(*key),
{
    key.public_key()
}

} // verus!
