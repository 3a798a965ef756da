//! The single-shot callback slot: the one piece of state shared between
//! the loopback HTTP listener and the waiting login attempt. Exactly one
//! request can ever deliver a result; every request is answered with a
//! static page.

use vstd::prelude::*;

verus! {

/// What the one winning `/callback` request delivered.
#[derive(Debug, Clone, PartialEq, Eq)]
pub enum CallbackOutcome {
    /// The request's state matched; this is the authorization code it
    /// carried.
    Code(Vec<u8>),
    /// The request's state differed from the expected one.
    StateMismatch,
}

/// The static page a `/callback` request is answered with.
#[derive(Debug, Clone, PartialEq, Eq)]
pub enum CallbackPage {
    /// "Login complete. You may close this window."
    LoginComplete,
    /// "Invalid state. You may close this window."
    InvalidState,
}

/// A single-use slot holding at most one callback result. Once a result
/// is delivered it never changes, however many further requests arrive.
pub struct CallbackSlot {
    /// The anti-CSRF state token this attempt expects to be echoed back.
    pub expected_state: Vec<u8>,
    /// The delivered result; written by at most one request, ever.
    pub delivered: Option<CallbackOutcome>,
}

/// Whether a request's optional `state` parameter matches the expected
/// state token.
pub open spec fn state_matches(state_param: Option<Vec<u8>>, expected: Seq<u8>) -> bool {
    state_param matches Some(s) && s@ == expected
}

/// How one `/callback` request transforms the slot and which page it is
/// answered with: the first request delivers the code or a state
/// mismatch; every later request leaves the slot unchanged and still
/// gets the confirmation page.
pub open spec fn handled(slot: CallbackSlot, code: Vec<u8>, state_param: Option<Vec<u8>>) -> (
    CallbackSlot,
    CallbackPage,
) {
    if slot.delivered is Some {
        (slot, CallbackPage::LoginComplete)
    } else if state_matches(state_param, slot.expected_state@) {
        (
            CallbackSlot {
                delivered: Some(CallbackOutcome::Code(code)),
                ..slot
            },
            CallbackPage::LoginComplete,
        )
    } else {
        (
            CallbackSlot {
                delivered: Some(CallbackOutcome::StateMismatch),
                ..slot
            },
            CallbackPage::InvalidState,
        )
    }
}

/// Whether two byte strings hold the same bytes.
fn bytes_eq(a: &Vec<u8>, b: &Vec<u8>) -> (r: bool)
    ensures
        r == (a@ == b@),
{
    if a.len() != b.len() {
        return false;
    }
    let mut i: usize = 0;
    while i < a.len()
        invariant
            a@.len() == b@.len(),
            i <= a@.len(),
            forall|j: int| 0 <= j < i ==> a@[j] == b@[j],
        decreases a@.len() - i,
    {
        if a[i] != b[i] {
            return false;
        }
        i = i + 1;
    }
    proof {
        assert(a@ =~= b@);
    }
    true
}

impl CallbackSlot {
    /// A fresh slot for one login attempt, with nothing delivered yet.
    pub fn new(expected_state: Vec<u8>) -> (r: CallbackSlot)
        ensures
            r.expected_state == expected_state,
            r.delivered is None,
    {
        CallbackSlot { expected_state, delivered: None }
    }

    /// Serves one `GET /callback` request. A mismatching (or absent)
    /// state on the first request delivers `StateMismatch` and answers
    /// with the invalid-state page; a matching state delivers the code
    /// and answers with the confirmation page; once a result has been
    /// delivered, any further request leaves it untouched and is still
    /// answered with the confirmation page.
    pub fn handle_request(&mut self, code: Vec<u8>, state_param: Option<Vec<u8>>) -> (page:
        CallbackPage)
        ensures
            (*final(self), page) == handled(*old(self), code, state_param),
            final(self).expected_state == old(self).expected_state,
            final(self).delivered is Some,
            old(self).delivered is Some ==> final(self).delivered == old(self).delivered,
    {
        if self.delivered.is_some() {
            return CallbackPage::LoginComplete;
        }
        let matched = match &state_param {
            Some(s) => bytes_eq(s, &self.expected_state),
            None => false,
        };
        if matched {
            self.delivered = Some(CallbackOutcome::Code(code));
            CallbackPage::LoginComplete
        } else {
            self.delivered = Some(CallbackOutcome::StateMismatch);
            CallbackPage::InvalidState
        }
    }
}

/// Take-once: when a request has delivered a result, a second request --
/// whatever code or state it carries -- neither alters the delivered
/// result nor fails: it is answered with the confirmation page.
pub proof fn lemma_take_once(
    slot: CallbackSlot,
    code1: Vec<u8>,
    state1: Option<Vec<u8>>,
    code2: Vec<u8>,
    state2: Option<Vec<u8>>,
)
    ensures
        ({
            let (slot1, page1) = handled(slot, code1, state1);
            let (slot2, page2) = handled(slot1, code2, state2);
            &&& slot1.delivered is Some
            &&& slot2.delivered == slot1.delivered
            &&& page2 is LoginComplete
        }),
{
}

/// A first request whose state does not match always delivers
/// `StateMismatch` -- never a code -- and is answered with the
/// invalid-state page.
pub proof fn lemma_state_mismatch_delivered(slot: CallbackSlot, code: Vec<u8>, state_param: Option<
    Vec<u8>,
>)
    requires
        slot.delivered is None,
        !state_matches(state_param, slot.expected_state@),
    ensures
        handled(slot, code, state_param).0.delivered == Some(CallbackOutcome::StateMismatch),
        handled(slot, code, state_param).1 is InvalidState,
{
}

} // verus!
