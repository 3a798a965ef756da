use base64::Engine;
use sha2::Digest;
use twitch_login::pkce;

#[test]
fn generated_artifacts_have_expected_shape() {
    let a = pkce::generate();
    assert_eq!(a.code_verifier.len(), 64);
    assert_eq!(a.state.len(), 16);
    assert!(a.code_verifier.iter().all(|b| b.is_ascii_alphanumeric()));
    assert!(a.state.iter().all(|b| b.is_ascii_alphanumeric()));
    assert!(43 <= a.code_verifier.len() && a.code_verifier.len() <= 128);
}

#[test]
fn challenge_is_base64url_sha256_of_verifier() {
    let a = pkce::generate();
    let digest = sha2::Sha256::digest(&a.code_verifier);
    let expected = base64::engine::general_purpose::URL_SAFE_NO_PAD.encode(digest);
    assert_eq!(a.code_challenge, expected.into_bytes());
    assert_eq!(a.code_challenge.len(), 43);
}

#[test]
fn challenge_is_not_the_verifier_itself() {
    let a = pkce::generate();
    assert_ne!(a.code_challenge, a.code_verifier);
}
