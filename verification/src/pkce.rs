//! Generation of the per-attempt PKCE artifacts: the random code
//! verifier, its SHA-256/base64url challenge, and the anti-CSRF state
//! token.

use vstd::prelude::*;
use base64::Engine;
use rand::Rng;
use sha2::Digest;
use crate::percent::is_unreserved_byte;

verus! {

/// The SHA-256 digest of a byte sequence, as the `sha2` crate computes it.
pub uninterp spec fn sha256_of(input: Seq<u8>) -> Seq<u8>;

/// The unpadded URL-safe base64 encoding of a byte sequence, as the
/// `base64` crate's `URL_SAFE_NO_PAD` engine computes it.
pub uninterp spec fn base64url_of(input: Seq<u8>) -> Seq<u8>;

/// An ASCII alphanumeric byte: `0`-`9`, `A`-`Z` or `a`-`z`.
pub open spec fn is_alphanumeric_byte(b: u8) -> bool {
    ||| 48 <= b <= 57
    ||| 65 <= b <= 90
    ||| 97 <= b <= 122
}

/// Relies on `sha2::Sha256`: the digest depends on the input alone and
/// is exactly 32 bytes.
#[verifier::external_body]
fn sha256(input: &[u8]) -> (r: Vec<u8>)
    ensures
        r@ == sha256_of(input@),
        r@.len() == 32,
{
    sha2::Sha256::digest(input).to_vec()
}

/// Relies on the `base64` crate's `URL_SAFE_NO_PAD` engine: the encoding
/// depends on the input alone, and without padding it takes four bytes
/// for every full three input bytes, two for a trailing byte and three
/// for two trailing bytes.
#[verifier::external_body]
fn base64url_encode(input: &[u8]) -> (r: Vec<u8>)
    ensures
        r@ == base64url_of(input@),
        r@.len() == (input@.len() * 4 + 2) / 3,
{
    base64::engine::general_purpose::URL_SAFE_NO_PAD.encode(input).into_bytes()
}

/// Relies on `rand::distributions::Alphanumeric` sampled from
/// `rand::thread_rng()`: every drawn byte is an ASCII alphanumeric, and
/// the generator is cryptographically suitable. Nothing else can be said
/// of a random draw.
#[verifier::external_body]
fn random_alphanumeric_bytes(len: usize) -> (r: Vec<u8>)
    ensures
        r@.len() == len,
        forall|i: int| 0 <= i < r@.len() ==> is_alphanumeric_byte(#[trigger] r@[i]),
{
    rand::thread_rng()
        .sample_iter(&rand::distributions::Alphanumeric)
        .take(len)
        .collect()
}

/// The secrets of one login attempt, created once and discarded with the
/// attempt.
pub struct PkceArtifacts {
    /// Random secret later presented at the token exchange.
    pub code_verifier: Vec<u8>,
    /// `base64url(SHA-256(code_verifier))`, sent in the authorize URL.
    pub code_challenge: Vec<u8>,
    /// Random anti-CSRF token echoed back through the redirect.
    pub state: Vec<u8>,
}

impl PkceArtifacts {
    /// The artifacts belong together: a 64-byte alphanumeric verifier,
    /// its SHA-256 digest encoded as unpadded URL-safe base64, and a
    /// 16-byte alphanumeric state token.
    pub open spec fn wf(self) -> bool {
        &&& self.code_verifier@.len() == 64
        &&& forall|i: int|
            0 <= i < self.code_verifier@.len() ==> is_alphanumeric_byte(
                #[trigger] self.code_verifier@[i],
            )
        &&& self.code_challenge@ == base64url_of(sha256_of(self.code_verifier@))
        &&& self.state@.len() == 16
        &&& forall|i: int|
            0 <= i < self.state@.len() ==> is_alphanumeric_byte(#[trigger] self.state@[i])
    }
}

/// Produces fresh PKCE artifacts for one login attempt: the challenge is
/// always the base64url-encoded SHA-256 digest of the verifier, and both
/// random tokens are alphanumeric with their fixed lengths.
pub fn generate() -> (r: PkceArtifacts)
    ensures
        r.wf(),
{
    let code_verifier = random_alphanumeric_bytes(64);
    let digest = sha256(code_verifier.as_slice());
    let code_challenge = base64url_encode(digest.as_slice());
    let state = random_alphanumeric_bytes(16);
    PkceArtifacts { code_verifier, code_challenge, state }
}

/// Every well-formed verifier meets the provider's constraints on a PKCE
/// code verifier: between 43 and 128 bytes, all drawn from the
/// unreserved URL alphabet.
pub proof fn lemma_verifier_meets_provider_constraints(a: PkceArtifacts)
    requires
        a.wf(),
    ensures
        43 <= a.code_verifier@.len() <= 128,
        forall|i: int|
            0 <= i < a.code_verifier@.len() ==> is_unreserved_byte(
                #[trigger] a.code_verifier@[i],
            ),
{
}

} // verus!
