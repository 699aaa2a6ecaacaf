//! The proof key of an authorization: a secret verifier that stays with the
//! launcher, and the challenge derived from it, which alone goes out with the
//! request. Whoever redeems the authorization code must show the verifier.

use vstd::prelude::*;
use base64::Engine;
use sha2::Digest;

verus! {

/// The number of random bytes in a verifier or a state.
pub const SECRET_BYTES: usize = 32;

/// The SHA-256 digest of bytes, as `sha2::Sha256::digest` computes it.
pub uninterp spec fn sha256_digest(bytes: Seq<u8>) -> Seq<u8>;

/// The text that `base64` writes bytes as with its URL-safe alphabet and no
/// padding (`URL_SAFE_NO_PAD`).
pub uninterp spec fn base64_url_text(bytes: Seq<u8>) -> Seq<char>;

/// Computes the SHA-256 digest with `sha2::Sha256::digest`, which is a
/// function of the bytes alone and always 32 bytes long.
#[verifier::external_body]
pub(crate) fn sha256(bytes: &[u8]) -> (digest: Vec<u8>)
    ensures
        digest@ == sha256_digest(bytes@),
        digest@.len() == 32,
{
    sha2::Sha256::digest(bytes).to_vec()
}

/// Writes bytes as text with `base64::engine::general_purpose::URL_SAFE_NO_PAD`,
/// whose `encode` is a function of the bytes alone. It stops the program
/// where the length of the text does not fit a `usize`, which the bound on
/// the input rules out.
#[verifier::external_body]
pub(crate) fn base64_url(bytes: &[u8]) -> (text: String)
    requires
        bytes@.len() <= usize::MAX / 2,
    ensures
        text@ == base64_url_text(bytes@),
{
    base64::engine::general_purpose::URL_SAFE_NO_PAD.encode(bytes)
}

/// Draws `count` bytes from the random number generator of the thread with
/// `rand::fill`. Nothing is claimed of the bytes but their number.
/// `rand::fill` stops the program where the system gives it no randomness.
#[verifier::external_body]
pub(crate) fn random_bytes(count: usize) -> (bytes: Vec<u8>)
    ensures
        bytes@.len() == count,
{
    let mut bytes = vec![0u8; count];
    rand::fill(&mut bytes[..]);
    bytes
}

/// The challenge that belongs to a verifier: the digest of the verifier's
/// bytes in UTF-8, written as text.
pub open spec fn challenge_of(verifier: Seq<char>) -> Seq<char> {
    base64_url_text(sha256_digest(vstd::utf8::encode_utf8(verifier)))
}

/// The text of a fresh secret made from `bytes`.
pub open spec fn secret_of(bytes: Seq<u8>) -> Seq<char> {
    base64_url_text(bytes)
}

/// Writes bytes as the text of a secret.
pub fn secret_from(bytes: &[u8]) -> (secret: String)
    requires
        bytes@.len() <= usize::MAX / 2,
    ensures
        secret@ == secret_of(bytes@),
{
    base64_url(bytes)
}

/// Makes a fresh secret, for the verifier or the state of an authorization:
/// the text of `SECRET_BYTES` random bytes.
pub fn new_secret() -> (secret: String)
    ensures
        exists|bytes: Seq<u8>|
            bytes.len() == SECRET_BYTES && secret@ == #[trigger] secret_of(bytes),
{
    let bytes = random_bytes(SECRET_BYTES);
    secret_from(bytes.as_slice())
}

/// Derives the challenge that is sent out in place of the verifier.
pub fn derive_challenge(verifier: &str) -> (challenge: String)
    ensures
        challenge@ == challenge_of(verifier@),
{
    let digest = sha256(verifier.as_bytes());
    base64_url(digest.as_slice())
}

} // verus!
