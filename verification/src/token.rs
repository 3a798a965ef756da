//! The compute side of the token exchange: the exact form body POSTed to
//! the token endpoint, and the composition of the final login result
//! from the provider's two responses. The network round trips themselves
//! are the unverified shell's job; it hands their decoded bodies back as
//! plain values.

use vstd::prelude::*;
use crate::percent::{percent_encoded, percent_encode};
use crate::authorize::push_bytes;

verus! {

use vstd::string::StringSliceAdditionalSpecFns;

/// The decoded body of a token-endpoint response.
#[derive(Debug, Clone, PartialEq, Eq)]
pub struct TokenResult {
    pub access_token: Vec<u8>,
    pub token_type: Vec<u8>,
    pub expires_in: u64,
}

/// The decoded body of a validate-endpoint response: the authenticated
/// identity and its granted scopes.
#[derive(Debug, Clone, PartialEq, Eq)]
pub struct Identity {
    pub login: Vec<u8>,
    pub scopes: Vec<Vec<u8>>,
}

/// What a finished login hands to the caller.
#[derive(Debug, Clone, PartialEq, Eq)]
pub struct LoginResult {
    pub access_token: Vec<u8>,
    pub token_type: Vec<u8>,
    pub expires_in: u64,
    pub scope: Vec<Vec<u8>>,
    pub login: Vec<u8>,
    pub client_id: Vec<u8>,
}

/// The form-encoded body of the token exchange request: the client id,
/// the fixed `authorization_code` grant, the received code, the redirect
/// URI and the PKCE verifier, each value percent-encoded.
pub open spec fn token_request_body(
    client_id: Seq<u8>,
    code: Seq<u8>,
    redirect_uri: Seq<u8>,
    code_verifier: Seq<u8>,
) -> Seq<u8> {
    "client_id=".spec_bytes() + percent_encoded(client_id)
        + "&grant_type=authorization_code&code=".spec_bytes() + percent_encoded(code)
        + "&redirect_uri=".spec_bytes() + percent_encoded(redirect_uri)
        + "&code_verifier=".spec_bytes() + percent_encoded(code_verifier)
}

/// Builds the exact token exchange form body for this attempt.
pub fn build_token_request_body(
    client_id: &Vec<u8>,
    code: &Vec<u8>,
    redirect_uri: &Vec<u8>,
    code_verifier: &Vec<u8>,
) -> (r: Vec<u8>)
    ensures
        r@ == token_request_body(client_id@, code@, redirect_uri@, code_verifier@),
{
    let mut r: Vec<u8> = Vec::new();
    push_bytes(&mut r, "client_id=".as_bytes());
    let enc_client = percent_encode(client_id.as_slice());
    push_bytes(&mut r, enc_client.as_slice());
    push_bytes(&mut r, "&grant_type=authorization_code&code=".as_bytes());
    let enc_code = percent_encode(code.as_slice());
    push_bytes(&mut r, enc_code.as_slice());
    push_bytes(&mut r, "&redirect_uri=".as_bytes());
    let enc_redirect = percent_encode(redirect_uri.as_slice());
    push_bytes(&mut r, enc_redirect.as_slice());
    push_bytes(&mut r, "&code_verifier=".as_bytes());
    let enc_verifier = percent_encode(code_verifier.as_slice());
    push_bytes(&mut r, enc_verifier.as_slice());
    assert(r@ =~= token_request_body(client_id@, code@, redirect_uri@, code_verifier@));
    r
}

/// Whether a login result is exactly the composition of a token
/// response, a validated identity and the resolved client id.
pub open spec fn is_composed_result(
    r: LoginResult,
    token: TokenResult,
    identity: Identity,
    client_id: Seq<u8>,
) -> bool {
    &&& r.access_token@ == token.access_token@
    &&& r.token_type@ == token.token_type@
    &&& r.expires_in == token.expires_in
    &&& r.scope.deep_view() == identity.scopes.deep_view()
    &&& r.login@ == identity.login@
    &&& r.client_id@ == client_id
}

/// Composes the final login result: token fields from the exchange,
/// login and scopes from the validation, and the resolved client id.
pub fn compose_login_result(token: TokenResult, identity: Identity, client_id: Vec<u8>) -> (r:
    LoginResult)
    ensures
        is_composed_result(r, token, identity, client_id@),
{
    LoginResult {
        access_token: token.access_token,
        token_type: token.token_type,
        expires_in: token.expires_in,
        scope: identity.scopes,
        login: identity.login,
        client_id,
    }
}

} // verus!
