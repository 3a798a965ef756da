//! The login orchestrator: one state machine per attempt, strictly
//! sequential, terminal on the first success or failure. Every decision
//! is made here; the unverified shell only performs the returned action
//! (bind the listener, publish a URL, run one network round trip) and
//! hands the observed event back.

use vstd::prelude::*;
use crate::authorize::{
    authorize_url, build_authorize_url, clone_bytes, push_bytes, redirect_uri_for_port,
    redirect_uri_of,
};
use crate::callback::CallbackOutcome;
use crate::pkce;
use crate::pkce::PkceArtifacts;
use crate::token::{
    build_token_request_body, compose_login_result, is_composed_result, token_request_body,
    Identity, LoginResult, TokenResult,
};

verus! {

use vstd::string::StringSliceAdditionalSpecFns;

/// Why a login attempt ended without a result. Every kind is terminal:
/// nothing is retried.
#[derive(Debug, Clone, Copy, PartialEq, Eq)]
pub enum LoginError {
    /// No client id was supplied and none is configured.
    NotConfigured,
    /// The loopback callback port could not be bound.
    BindError,
    /// The callback carried a state differing from the expected one.
    StateMismatch,
    /// A transport failure on an outbound call.
    NetworkError,
    /// A provider response did not match the expected schema.
    DecodeError,
    /// The callback channel closed without delivering a result.
    AwaitError,
}

impl LoginError {
    /// The human-readable description of each failure kind.
    pub open spec fn message_spec(self) -> Seq<char> {
        match self {
            LoginError::NotConfigured => "no OAuth client id is configured"@,
            LoginError::BindError => "the local callback port is unavailable"@,
            LoginError::StateMismatch => "the callback state token did not match"@,
            LoginError::NetworkError => "a network request failed"@,
            LoginError::DecodeError => "a provider response had an unexpected shape"@,
            LoginError::AwaitError => "the callback closed without a result"@,
        }
    }

    /// The human-readable description of this failure.
    pub fn message(&self) -> (r: &'static str)
        ensures
            r@ == self.message_spec(),
    {
        match self {
            LoginError::NotConfigured => "no OAuth client id is configured",
            LoginError::BindError => "the local callback port is unavailable",
            LoginError::StateMismatch => "the callback state token did not match",
            LoginError::NetworkError => "a network request failed",
            LoginError::DecodeError => "a provider response had an unexpected shape",
            LoginError::AwaitError => "the callback closed without a result",
        }
    }
}

/// How one network round trip failed, as the shell observed it.
#[derive(Debug, Clone, Copy, PartialEq, Eq)]
pub enum FetchError {
    /// The request never produced a response body.
    Network,
    /// The response body did not decode to the expected schema.
    Decode,
}

/// The context carried from URL construction through the code exchange;
/// it dies with the attempt.
pub struct AuthSession {
    pub client_id: Vec<u8>,
    pub redirect_uri: Vec<u8>,
    pub scopes: Vec<Vec<u8>>,
    pub artifacts: PkceArtifacts,
}

/// Where one login attempt stands.
#[derive(Debug, Clone, Copy, PartialEq, Eq)]
pub enum LoginPhase {
    /// Waiting for the shell to bind the loopback listener.
    AwaitingBind,
    /// Waiting for the one callback result.
    AwaitingCallback,
    /// Waiting for the token-endpoint response.
    AwaitingExchange,
    /// Waiting for the validate-endpoint response.
    AwaitingValidate,
    /// Terminal: the outcome is set.
    Done,
}

/// What the shell must do after a step.
#[derive(Debug, Clone, PartialEq, Eq)]
pub enum LoginAction {
    /// Publish this URL to the UI collaborator.
    PublishUrl(Vec<u8>),
    /// Bind the loopback listener on this port, expecting this state
    /// token to be echoed back.
    BindServer { port: u16, expected_state: Vec<u8> },
    /// POST this form body to the token endpoint.
    ExchangeCode { body: Vec<u8> },
    /// GET the validate endpoint with this bearer token.
    ValidateToken { access_token: Vec<u8> },
    /// Nothing: the attempt is waiting or finished.
    Nothing,
}

/// One login attempt.
pub struct LoginFlow {
    pub phase: LoginPhase,
    pub session: Option<AuthSession>,
    pub token: Option<TokenResult>,
    pub outcome: Option<Result<LoginResult, LoginError>>,
}

/// An ASCII whitespace byte, as trimming removes it.
pub open spec fn is_whitespace_byte(b: u8) -> bool {
    b == 32 || b == 9 || b == 10 || b == 11 || b == 12 || b == 13
}

/// A client id of nothing but whitespace counts as absent.
pub open spec fn is_blank(s: Seq<u8>) -> bool {
    forall|i: int| 0 <= i < s.len() ==> is_whitespace_byte(#[trigger] s[i])
}

/// The client id an attempt runs with: the explicit argument when it is
/// not blank, otherwise the configured default.
pub open spec fn resolved_client_id(arg: Option<Vec<u8>>, default_id: Vec<u8>) -> Seq<u8> {
    match arg {
        Some(a) => if is_blank(a@) {
            default_id@
        } else {
            a@
        },
        None => default_id@,
    }
}

/// The generic provider login page published as a best-effort fallback
/// when no client id is configured.
pub open spec fn fallback_login_url() -> Seq<u8> {
    "https://www.twitch.tv/login".spec_bytes()
}

/// Whether a byte string is nothing but whitespace.
fn is_blank_bytes(v: &Vec<u8>) -> (r: bool)
    ensures
        r == is_blank(v@),
{
    let mut i: usize = 0;
    while i < v.len()
        invariant
            i <= v@.len(),
            forall|j: int| 0 <= j < i ==> is_whitespace_byte(#[trigger] v@[j]),
        decreases v@.len() - i,
    {
        let b = v[i];
        if !(b == 32 || b == 9 || b == 10 || b == 11 || b == 12 || b == 13) {
            return false;
        }
        i = i + 1;
    }
    true
}

impl LoginFlow {
    /// The attempt's internal consistency: a session with well-formed
    /// artifacts exists throughout the protocol, a token response is
    /// held while validating, and an outcome exists exactly when the
    /// attempt is done.
    pub open spec fn wf(self) -> bool {
        &&& (self.phase is Done <==> self.outcome is Some)
        &&& (!(self.phase is Done) ==> (self.session matches Some(s) && s.artifacts.wf()))
        &&& (self.phase is AwaitingValidate ==> self.token is Some)
    }

    /// Starts one attempt. With no usable client id -- the argument
    /// blank or absent and the default empty -- the attempt ends at once
    /// with `NotConfigured`, and the generic provider login page is
    /// still published as a fallback; no server is started. Otherwise
    /// fresh PKCE artifacts are generated and the shell is asked to bind
    /// the loopback listener, expecting the new state token.
    pub fn begin(
        client_id_arg: Option<Vec<u8>>,
        default_client_id: Vec<u8>,
        port: u16,
        scopes: Vec<Vec<u8>>,
    ) -> (r: (LoginFlow, LoginAction))
        ensures
            r.0.wf(),
            ({
                let resolved = resolved_client_id(client_id_arg, default_client_id);
                if resolved.len() == 0 {
                    &&& r.0.phase is Done
                    &&& r.0.outcome == Some(Err::<LoginResult, LoginError>(
                        LoginError::NotConfigured,
                    ))
                    &&& r.0.session is None
                    &&& (r.1 matches LoginAction::PublishUrl(u) && u@ == fallback_login_url())
                } else {
                    &&& r.0.phase is AwaitingBind
                    &&& r.0.outcome is None
                    &&& r.0.token is None
                    &&& (r.0.session matches Some(s) && {
                        &&& s.client_id@ == resolved
                        &&& s.redirect_uri@ == redirect_uri_of(port)
                        &&& s.scopes == scopes
                        &&& s.artifacts.wf()
                        &&& (r.1 matches LoginAction::BindServer { port: p, expected_state: es }
                            && p == port && es@ == s.artifacts.state@)
                    })
                }
            }),
    {
        let resolved: Vec<u8> = match client_id_arg {
            Some(a) => if is_blank_bytes(&a) {
                default_client_id
            } else {
                a
            },
            None => default_client_id,
        };
        if resolved.len() == 0 {
            let mut fallback: Vec<u8> = Vec::new();
            push_bytes(&mut fallback, "https://www.twitch.tv/login".as_bytes());
            assert(fallback@ =~= fallback_login_url());
            let flow = LoginFlow {
                phase: LoginPhase::Done,
                session: None,
                token: None,
                outcome: Some(Err(LoginError::NotConfigured)),
            };
            (flow, LoginAction::PublishUrl(fallback))
        } else {
            let artifacts = pkce::generate();
            let expected_state = clone_bytes(&artifacts.state);
            let redirect_uri = redirect_uri_for_port(port);
            let session = AuthSession { client_id: resolved, redirect_uri, scopes, artifacts };
            let flow = LoginFlow {
                phase: LoginPhase::AwaitingBind,
                session: Some(session),
                token: None,
                outcome: None,
            };
            (flow, LoginAction::BindServer { port, expected_state })
        }
    }

    /// Takes the shell's report on binding the listener. A failed bind
    /// aborts the attempt at once with `BindError` and nothing is
    /// published. After a successful bind the authorize URL for this
    /// attempt's parameters -- and no other -- is published, once.
    pub fn on_bind_result(&mut self, bound: bool) -> (action: LoginAction)
        requires
            old(self).wf(),
            old(self).phase is AwaitingBind,
        ensures
            final(self).wf(),
            final(self).session == old(self).session,
            !bound ==> {
                &&& final(self).phase is Done
                &&& final(self).outcome == Some(Err::<LoginResult, LoginError>(
                    LoginError::BindError,
                ))
                &&& action is Nothing
            },
            bound ==> {
                &&& final(self).phase is AwaitingCallback
                &&& final(self).outcome is None
                &&& (old(self).session matches Some(s) ==> (action matches LoginAction::PublishUrl(
                    u,
                ) && u@ == authorize_url(
                    s.client_id@,
                    s.redirect_uri@,
                    s.scopes.deep_view(),
                    s.artifacts.state@,
                    s.artifacts.code_challenge@,
                )))
            },
    {
        if !bound {
            self.phase = LoginPhase::Done;
            self.outcome = Some(Err(LoginError::BindError));
            return LoginAction::Nothing;
        }
        let url = match &self.session {
            Some(s) => build_authorize_url(
                &s.client_id,
                &s.redirect_uri,
                &s.scopes,
                &s.artifacts.state,
                &s.artifacts.code_challenge,
            ),
            None => {
                proof {
                    assert(false);
                }
                Vec::new()
            },
        };
        self.phase = LoginPhase::AwaitingCallback;
        LoginAction::PublishUrl(url)
    }

    /// Takes the one callback result. A delivered code moves the attempt
    /// on to the token exchange, whose form body is built from this
    /// attempt's client id, redirect URI and code verifier. A state
    /// mismatch aborts with `StateMismatch` and no exchange is ever
    /// requested; a closed channel aborts with `AwaitError` likewise.
    pub fn on_callback_event(&mut self, event: Option<CallbackOutcome>) -> (action: LoginAction)
        requires
            old(self).wf(),
            old(self).phase is AwaitingCallback,
        ensures
            final(self).wf(),
            final(self).session == old(self).session,
            (event matches Some(CallbackOutcome::Code(code)) ==> {
                &&& final(self).phase is AwaitingExchange
                &&& final(self).outcome is None
                &&& (old(self).session matches Some(s) ==> (action
                    matches LoginAction::ExchangeCode { body } && body@ == token_request_body(
                    s.client_id@,
                    code@,
                    s.redirect_uri@,
                    s.artifacts.code_verifier@,
                )))
            }),
            event == Some(CallbackOutcome::StateMismatch) ==> {
                &&& final(self).phase is Done
                &&& final(self).outcome == Some(Err::<LoginResult, LoginError>(
                    LoginError::StateMismatch,
                ))
                &&& action is Nothing
            },
            event is None ==> {
                &&& final(self).phase is Done
                &&& final(self).outcome == Some(Err::<LoginResult, LoginError>(
                    LoginError::AwaitError,
                ))
                &&& action is Nothing
            },
    {
        match event {
            Some(CallbackOutcome::Code(code)) => {
                let body = match &self.session {
                    Some(s) => build_token_request_body(
                        &s.client_id,
                        &code,
                        &s.redirect_uri,
                        &s.artifacts.code_verifier,
                    ),
                    None => {
                        proof {
                            assert(false);
                        }
                        Vec::new()
                    },
                };
                self.phase = LoginPhase::AwaitingExchange;
                LoginAction::ExchangeCode { body }
            },
            Some(CallbackOutcome::StateMismatch) => {
                self.phase = LoginPhase::Done;
                self.outcome = Some(Err(LoginError::StateMismatch));
                LoginAction::Nothing
            },
            None => {
                self.phase = LoginPhase::Done;
                self.outcome = Some(Err(LoginError::AwaitError));
                LoginAction::Nothing
            },
        }
    }

    /// Takes the decoded token-endpoint response. A token moves the
    /// attempt on to validation with exactly that access token as the
    /// bearer; a failed round trip aborts with `NetworkError` or
    /// `DecodeError`.
    pub fn on_exchange_result(&mut self, outcome: Result<TokenResult, FetchError>) -> (action:
        LoginAction)
        requires
            old(self).wf(),
            old(self).phase is AwaitingExchange,
        ensures
            final(self).wf(),
            final(self).session == old(self).session,
            (outcome matches Ok(t) ==> {
                &&& final(self).phase is AwaitingValidate
                &&& final(self).outcome is None
                &&& final(self).token == Some(t)
                &&& (action matches LoginAction::ValidateToken { access_token } && access_token@
                    == t.access_token@)
            }),
            outcome == Err::<TokenResult, FetchError>(FetchError::Network) ==> {
                &&& final(self).phase is Done
                &&& final(self).outcome == Some(Err::<LoginResult, LoginError>(
                    LoginError::NetworkError,
                ))
                &&& action is Nothing
            },
            outcome == Err::<TokenResult, FetchError>(FetchError::Decode) ==> {
                &&& final(self).phase is Done
                &&& final(self).outcome == Some(Err::<LoginResult, LoginError>(
                    LoginError::DecodeError,
                ))
                &&& action is Nothing
            },
    {
        match outcome {
            Ok(t) => {
                let access_token = clone_bytes(&t.access_token);
                self.token = Some(t);
                self.phase = LoginPhase::AwaitingValidate;
                LoginAction::ValidateToken { access_token }
            },
            Err(FetchError::Network) => {
                self.phase = LoginPhase::Done;
                self.outcome = Some(Err(LoginError::NetworkError));
                LoginAction::Nothing
            },
            Err(FetchError::Decode) => {
                self.phase = LoginPhase::Done;
                self.outcome = Some(Err(LoginError::DecodeError));
                LoginAction::Nothing
            },
        }
    }

    /// Takes the decoded validate-endpoint response and finishes the
    /// attempt. An identity completes the login: the outcome composes
    /// the token response, the identity and this attempt's client id. A
    /// failed round trip aborts with `NetworkError` or `DecodeError`.
    pub fn on_validate_result(&mut self, outcome: Result<Identity, FetchError>) -> (action:
        LoginAction)
        requires
            old(self).wf(),
            old(self).phase is AwaitingValidate,
        ensures
            final(self).wf(),
            final(self).phase is Done,
            action is Nothing,
            (outcome matches Ok(identity) ==> (old(self).token matches Some(t) && old(
                self,
            ).session matches Some(s) && (final(self).outcome matches Some(Ok(r))
                && is_composed_result(r, t, identity, s.client_id@)))),
            outcome == Err::<Identity, FetchError>(FetchError::Network) ==> final(self).outcome
                == Some(Err::<LoginResult, LoginError>(LoginError::NetworkError)),
            outcome == Err::<Identity, FetchError>(FetchError::Decode) ==> final(self).outcome
                == Some(Err::<LoginResult, LoginError>(LoginError::DecodeError)),
    {
        match outcome {
            Ok(identity) => {
                let token_copy = match &self.token {
                    Some(t) => TokenResult {
                        access_token: clone_bytes(&t.access_token),
                        token_type: clone_bytes(&t.token_type),
                        expires_in: t.expires_in,
                    },
                    None => {
                        proof {
                            assert(false);
                        }
                        TokenResult { access_token: Vec::new(), token_type: Vec::new(), expires_in: 0 }
                    },
                };
                let client_id = match &self.session {
                    Some(s) => clone_bytes(&s.client_id),
                    None => {
                        proof {
                            assert(false);
                        }
                        Vec::new()
                    },
                };
                let result = compose_login_result(token_copy, identity, client_id);
                self.phase = LoginPhase::Done;
                self.outcome = Some(Ok(result));
                LoginAction::Nothing
            },
            Err(FetchError::Network) => {
                self.phase = LoginPhase::Done;
                self.outcome = Some(Err(LoginError::NetworkError));
                LoginAction::Nothing
            },
            Err(FetchError::Decode) => {
                self.phase = LoginPhase::Done;
                self.outcome = Some(Err(LoginError::DecodeError));
                LoginAction::Nothing
            },
        }
    }
}

} // verus!
