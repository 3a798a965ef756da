use twitch_login::callback::{CallbackOutcome, CallbackPage, CallbackSlot};
use twitch_login::login::{FetchError, LoginAction, LoginError, LoginFlow, LoginPhase};
use twitch_login::token::{Identity, TokenResult};

fn v(s: &str) -> Vec<u8> {
    s.as_bytes().to_vec()
}

#[test]
fn missing_client_id_fails_but_still_publishes_the_fallback() {
    let (flow, action) = LoginFlow::begin(None, v(""), 18200, vec![v("chat:read")]);
    assert_eq!(flow.phase, LoginPhase::Done);
    assert!(matches!(flow.outcome, Some(Err(LoginError::NotConfigured))));
    assert!(flow.session.is_none());
    match action {
        LoginAction::PublishUrl(u) => assert_eq!(u, v("https://www.twitch.tv/login")),
        other => panic!("expected a published fallback URL, got {:?}", other),
    }
}

#[test]
fn blank_client_id_counts_as_absent() {
    let (flow, action) = LoginFlow::begin(Some(v("   \t ")), v(""), 18200, vec![]);
    assert!(matches!(flow.outcome, Some(Err(LoginError::NotConfigured))));
    assert!(matches!(action, LoginAction::PublishUrl(_)));
}

#[test]
fn blank_argument_falls_back_to_the_default_client_id() {
    let (flow, action) = LoginFlow::begin(Some(v("  ")), v("configured"), 18200, vec![]);
    assert_eq!(flow.phase, LoginPhase::AwaitingBind);
    assert_eq!(flow.session.as_ref().unwrap().client_id, v("configured"));
    assert!(matches!(action, LoginAction::BindServer { port: 18200, .. }));
}

#[test]
fn authorize_url_carries_the_attempt_parameters() {
    let (mut flow, action) = LoginFlow::begin(Some(v("abc123")), v(""), 18200, vec![v("chat:read")]);
    let expected_state = match action {
        LoginAction::BindServer { port, expected_state } => {
            assert_eq!(port, 18200);
            expected_state
        },
        other => panic!("expected a bind request, got {:?}", other),
    };
    let action = flow.on_bind_result(true);
    let url = match action {
        LoginAction::PublishUrl(u) => String::from_utf8(u).unwrap(),
        other => panic!("expected the authorize URL, got {:?}", other),
    };
    assert!(url.starts_with("https://id.twitch.tv/oauth2/authorize?client_id=abc123&"));
    assert!(url.contains("&response_type=code"));
    assert!(url.contains("&scope=chat%3Aread"));
    assert!(url.contains("&code_challenge_method=S256"));
    assert!(url.ends_with("&force_verify=false"));
    // The state published in the URL is the one the callback expects.
    let state_param = url.split("&state=").nth(1).unwrap().split('&').next().unwrap();
    assert_eq!(state_param.as_bytes(), expected_state.as_slice());
}

#[test]
fn full_login_composes_the_final_result() {
    let (mut flow, action) = LoginFlow::begin(Some(v("abc123")), v(""), 18200, vec![v("chat:read")]);
    let expected_state = match action {
        LoginAction::BindServer { expected_state, .. } => expected_state,
        other => panic!("expected a bind request, got {:?}", other),
    };
    flow.on_bind_result(true);

    let mut slot = CallbackSlot::new(expected_state.clone());
    let page = slot.handle_request(v("XYZ"), Some(expected_state));
    assert_eq!(page, CallbackPage::LoginComplete);

    let action = flow.on_callback_event(slot.delivered.clone());
    let body = match action {
        LoginAction::ExchangeCode { body } => String::from_utf8(body).unwrap(),
        other => panic!("expected an exchange request, got {:?}", other),
    };
    assert!(body.starts_with(
        "client_id=abc123&grant_type=authorization_code&code=XYZ\
         &redirect_uri=http%3A%2F%2F127.0.0.1%3A18200%2Fcallback&code_verifier="
    ));
    let verifier = flow.session.as_ref().unwrap().artifacts.code_verifier.clone();
    // The verifier is alphanumeric, so it appears in the body unescaped.
    assert!(body.ends_with(&format!("code_verifier={}", String::from_utf8(verifier).unwrap())));

    let token = TokenResult { access_token: v("tok"), token_type: v("bearer"), expires_in: 3600 };
    let action = flow.on_exchange_result(Ok(token));
    match action {
        LoginAction::ValidateToken { access_token } => assert_eq!(access_token, v("tok")),
        other => panic!("expected a validate request, got {:?}", other),
    }

    let identity = Identity { login: v("alice"), scopes: vec![v("chat:read")] };
    let action = flow.on_validate_result(Ok(identity));
    assert!(matches!(action, LoginAction::Nothing));
    assert_eq!(flow.phase, LoginPhase::Done);
    let result = match flow.outcome {
        Some(Ok(r)) => r,
        other => panic!("expected a successful outcome, got {:?}", other),
    };
    assert_eq!(result.access_token, v("tok"));
    assert_eq!(result.token_type, v("bearer"));
    assert_eq!(result.expires_in, 3600);
    assert_eq!(result.scope, vec![v("chat:read")]);
    assert_eq!(result.login, v("alice"));
    assert_eq!(result.client_id, v("abc123"));
}

#[test]
fn state_mismatch_aborts_without_an_exchange() {
    let (mut flow, action) = LoginFlow::begin(Some(v("abc123")), v(""), 18200, vec![]);
    let expected_state = match action {
        LoginAction::BindServer { expected_state, .. } => expected_state,
        other => panic!("expected a bind request, got {:?}", other),
    };
    flow.on_bind_result(true);

    let mut slot = CallbackSlot::new(expected_state);
    let page = slot.handle_request(v("XYZ"), Some(v("forged")));
    assert_eq!(page, CallbackPage::InvalidState);
    assert_eq!(slot.delivered, Some(CallbackOutcome::StateMismatch));

    let action = flow.on_callback_event(slot.delivered.clone());
    assert!(matches!(action, LoginAction::Nothing));
    assert_eq!(flow.phase, LoginPhase::Done);
    assert!(matches!(flow.outcome, Some(Err(LoginError::StateMismatch))));
}

#[test]
fn failed_bind_aborts_without_publishing() {
    let (mut flow, _) = LoginFlow::begin(Some(v("abc123")), v(""), 18200, vec![]);
    let action = flow.on_bind_result(false);
    assert!(matches!(action, LoginAction::Nothing));
    assert!(matches!(flow.outcome, Some(Err(LoginError::BindError))));
}

#[test]
fn closed_callback_channel_aborts_with_await_error() {
    let (mut flow, _) = LoginFlow::begin(Some(v("abc123")), v(""), 18200, vec![]);
    flow.on_bind_result(true);
    let action = flow.on_callback_event(None);
    assert!(matches!(action, LoginAction::Nothing));
    assert!(matches!(flow.outcome, Some(Err(LoginError::AwaitError))));
}

#[test]
fn exchange_failures_surface_their_kind() {
    for (fetch, expected) in [
        (FetchError::Network, LoginError::NetworkError),
        (FetchError::Decode, LoginError::DecodeError),
    ] {
        let (mut flow, _) = LoginFlow::begin(Some(v("abc123")), v(""), 18200, vec![]);
        flow.on_bind_result(true);
        flow.on_callback_event(Some(CallbackOutcome::Code(v("XYZ"))));
        let action = flow.on_exchange_result(Err(fetch));
        assert!(matches!(action, LoginAction::Nothing));
        assert_eq!(flow.phase, LoginPhase::Done);
        assert!(matches!(flow.outcome, Some(Err(e)) if e == expected));
    }
}

#[test]
fn validate_failures_surface_their_kind() {
    for (fetch, expected) in [
        (FetchError::Network, LoginError::NetworkError),
        (FetchError::Decode, LoginError::DecodeError),
    ] {
        let (mut flow, _) = LoginFlow::begin(Some(v("abc123")), v(""), 18200, vec![]);
        flow.on_bind_result(true);
        flow.on_callback_event(Some(CallbackOutcome::Code(v("XYZ"))));
        flow.on_exchange_result(Ok(TokenResult {
            access_token: v("tok"),
            token_type: v("bearer"),
            expires_in: 1,
        }));
        let action = flow.on_validate_result(Err(fetch));
        assert!(matches!(action, LoginAction::Nothing));
        assert!(matches!(flow.outcome, Some(Err(e)) if e == expected));
    }
}

#[test]
fn error_messages_name_each_failure() {
    assert_eq!(LoginError::NotConfigured.message(), "no OAuth client id is configured");
    assert_eq!(LoginError::BindError.message(), "the local callback port is unavailable");
    assert_eq!(LoginError::StateMismatch.message(), "the callback state token did not match");
    assert_eq!(LoginError::NetworkError.message(), "a network request failed");
    assert_eq!(LoginError::DecodeError.message(), "a provider response had an unexpected shape");
    assert_eq!(LoginError::AwaitError.message(), "the callback closed without a result");
}
