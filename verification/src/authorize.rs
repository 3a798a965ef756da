//! Construction of the provider authorization URL and of the local
//! redirect URI, as exact byte sequences.

use vstd::prelude::*;
use crate::percent::{percent_encoded, percent_encode};

verus! {

use vstd::string::StringSliceAdditionalSpecFns;

/// The decimal notation of a number, most significant digit first.
pub open spec fn decimal_of(n: nat) -> Seq<u8>
    decreases n,
{
    if n < 10 {
        seq![(48 + n) as u8]
    } else {
        decimal_of(n / 10) + seq![(48 + n % 10) as u8]
    }
}

/// The scope names joined with a single space between neighbours.
pub open spec fn joined_scopes(scopes: Seq<Seq<u8>>) -> Seq<u8>
    decreases scopes.len(),
{
    if scopes.len() == 0 {
        Seq::empty()
    } else if scopes.len() == 1 {
        scopes[0]
    } else {
        joined_scopes(scopes.drop_last()) + seq![32u8] + scopes.last()
    }
}

/// The loopback redirect URI for a callback port.
pub open spec fn redirect_uri_of(port: u16) -> Seq<u8> {
    "http://127.0.0.1:".spec_bytes() + decimal_of(port as nat) + "/callback".spec_bytes()
}

/// The provider authorization URL: every caller-supplied parameter is
/// percent-encoded individually, the scopes are joined with one space
/// before encoding, and `response_type=code`,
/// `code_challenge_method=S256` and `force_verify=false` are fixed.
pub open spec fn authorize_url(
    client_id: Seq<u8>,
    redirect_uri: Seq<u8>,
    scopes: Seq<Seq<u8>>,
    state_token: Seq<u8>,
    challenge: Seq<u8>,
) -> Seq<u8> {
    "https://id.twitch.tv/oauth2/authorize?client_id=".spec_bytes()
        + percent_encoded(client_id) + "&redirect_uri=".spec_bytes() + percent_encoded(
        redirect_uri,
    ) + "&response_type=code&scope=".spec_bytes() + percent_encoded(joined_scopes(scopes))
        + "&state=".spec_bytes() + percent_encoded(state_token) + "&code_challenge=".spec_bytes()
        + percent_encoded(challenge) + "&code_challenge_method=S256&force_verify=false".spec_bytes()
}

/// Appends a byte slice to a byte vector.
pub fn push_bytes(dst: &mut Vec<u8>, src: &[u8])
    ensures
        final(dst)@ == old(dst)@ + src@,
{
    let mut i: usize = 0;
    while i < src.len()
        invariant
            i <= src@.len(),
            dst@ == old(dst)@ + src@.subrange(0, i as int),
        decreases src@.len() - i,
    {
        dst.push(src[i]);
        i = i + 1;
        assert(dst@ =~= old(dst)@ + src@.subrange(0, i as int));
    }
    assert(dst@ =~= old(dst)@ + src@);
}

/// A fresh byte vector holding the same bytes.
pub fn clone_bytes(v: &Vec<u8>) -> (r: Vec<u8>)
    ensures
        r@ == v@,
{
    let mut r: Vec<u8> = Vec::new();
    push_bytes(&mut r, v.as_slice());
    assert(r@ =~= v@);
    r
}

/// Appends the percent-encoding of a value to a byte vector.
fn push_encoded(dst: &mut Vec<u8>, value: &[u8])
    ensures
        final(dst)@ == old(dst)@ + percent_encoded(value@),
{
    let encoded = percent_encode(value);
    push_bytes(dst, encoded.as_slice());
}

/// The decimal notation of a 16-bit number.
pub fn u16_decimal(n: u16) -> (r: Vec<u8>)
    ensures
        r@ == decimal_of(n as nat),
    decreases n,
{
    if n < 10 {
        let mut r: Vec<u8> = Vec::new();
        r.push(48 + n as u8);
        assert(r@ =~= decimal_of(n as nat));
        r
    } else {
        let mut r = u16_decimal(n / 10);
        r.push(48 + (n % 10) as u8);
        assert(r@ =~= decimal_of(n as nat));
        r
    }
}

/// The loopback redirect URI for a callback port.
pub fn redirect_uri_for_port(port: u16) -> (r: Vec<u8>)
    ensures
        r@ == redirect_uri_of(port),
{
    let mut r: Vec<u8> = Vec::new();
    push_bytes(&mut r, "http://127.0.0.1:".as_bytes());
    let digits = u16_decimal(port);
    push_bytes(&mut r, digits.as_slice());
    push_bytes(&mut r, "/callback".as_bytes());
    assert(r@ =~= redirect_uri_of(port));
    r
}

/// Joins scope names with a single space between neighbours.
pub fn join_scopes(scopes: &Vec<Vec<u8>>) -> (r: Vec<u8>)
    ensures
        r@ == joined_scopes(scopes.deep_view()),
{
    let ghost all = scopes.deep_view();
    let mut r: Vec<u8> = Vec::new();
    let mut i: usize = 0;
    while i < scopes.len()
        invariant
            i <= scopes@.len(),
            all == scopes.deep_view(),
            all.len() == scopes@.len(),
            forall|j: int| 0 <= j < all.len() ==> all[j] == scopes@[j]@,
            r@ == joined_scopes(all.take(i as int)),
        decreases scopes@.len() - i,
    {
        if i > 0 {
            r.push(32);
        }
        push_bytes(&mut r, scopes[i].as_slice());
        i = i + 1;
        proof {
            assert(all.take(i as int).drop_last() =~= all.take(i - 1));
            assert(all.take(i as int).last() == all[i - 1]);
            if i > 1 {
                assert(r@ =~= joined_scopes(all.take(i - 1)) + seq![32u8] + all[i - 1]);
            } else {
                assert(r@ =~= all[0]);
            }
        }
    }
    proof {
        assert(all.take(all.len() as int) =~= all);
    }
    r
}

/// Builds the authorization URL from the attempt's parameters; the
/// result is exactly `authorize_url` of the inputs, so identical inputs
/// always give byte-identical URLs.
pub fn build_authorize_url(
    client_id: &Vec<u8>,
    redirect_uri: &Vec<u8>,
    scopes: &Vec<Vec<u8>>,
    state_token: &Vec<u8>,
    challenge: &Vec<u8>,
) -> (r: Vec<u8>)
    ensures
        r@ == authorize_url(
            client_id@,
            redirect_uri@,
            scopes.deep_view(),
            state_token@,
            challenge@,
        ),
{
    let mut r: Vec<u8> = Vec::new();
    push_bytes(&mut r, "https://id.twitch.tv/oauth2/authorize?client_id=".as_bytes());
    push_encoded(&mut r, client_id.as_slice());
    push_bytes(&mut r, "&redirect_uri=".as_bytes());
    push_encoded(&mut r, redirect_uri.as_slice());
    push_bytes(&mut r, "&response_type=code&scope=".as_bytes());
    let scope_value = join_scopes(scopes);
    push_encoded(&mut r, scope_value.as_slice());
    push_bytes(&mut r, "&state=".as_bytes());
    push_encoded(&mut r, state_token.as_slice());
    push_bytes(&mut r, "&code_challenge=".as_bytes());
    push_encoded(&mut r, challenge.as_slice());
    push_bytes(&mut r, "&code_challenge_method=S256&force_verify=false".as_bytes());
    assert(r@ =~= authorize_url(
        client_id@,
        redirect_uri@,
        scopes.deep_view(),
        state_token@,
        challenge@,
    ));
    r
}

/// The builder is a pure function of its inputs: any two URLs built from
/// identical parameters are byte-identical.
pub proof fn lemma_authorize_url_deterministic(
    client_id: Seq<u8>,
    redirect_uri: Seq<u8>,
    scopes: Seq<Seq<u8>>,
    state_token: Seq<u8>,
    challenge: Seq<u8>,
    first: Seq<u8>,
    second: Seq<u8>,
)
    requires
        first == authorize_url(client_id, redirect_uri, scopes, state_token, challenge),
        second == authorize_url(client_id, redirect_uri, scopes, state_token, challenge),
    ensures
        first == second,
{
}

} // verus!
