use twitch_login::callback::{CallbackOutcome, CallbackPage, CallbackSlot};

fn v(s: &str) -> Vec<u8> {
    s.as_bytes().to_vec()
}

#[test]
fn first_matching_request_delivers_the_code() {
    let mut slot = CallbackSlot::new(v("STATE0123456789A"));
    let page = slot.handle_request(v("XYZ"), Some(v("STATE0123456789A")));
    assert_eq!(page, CallbackPage::LoginComplete);
    assert_eq!(slot.delivered, Some(CallbackOutcome::Code(v("XYZ"))));
}

#[test]
fn second_valid_request_does_not_alter_the_result() {
    let mut slot = CallbackSlot::new(v("STATE0123456789A"));
    let first = slot.handle_request(v("first"), Some(v("STATE0123456789A")));
    let second = slot.handle_request(v("second"), Some(v("STATE0123456789A")));
    assert_eq!(first, CallbackPage::LoginComplete);
    assert_eq!(second, CallbackPage::LoginComplete);
    assert_eq!(slot.delivered, Some(CallbackOutcome::Code(v("first"))));
}

#[test]
fn mismatching_state_delivers_state_mismatch() {
    let mut slot = CallbackSlot::new(v("expected"));
    let page = slot.handle_request(v("XYZ"), Some(v("forged")));
    assert_eq!(page, CallbackPage::InvalidState);
    assert_eq!(slot.delivered, Some(CallbackOutcome::StateMismatch));
}

#[test]
fn absent_state_counts_as_a_mismatch() {
    let mut slot = CallbackSlot::new(v("expected"));
    let page = slot.handle_request(v("XYZ"), None);
    assert_eq!(page, CallbackPage::InvalidState);
    assert_eq!(slot.delivered, Some(CallbackOutcome::StateMismatch));
}

#[test]
fn late_mismatching_request_changes_nothing() {
    let mut slot = CallbackSlot::new(v("expected"));
    slot.handle_request(v("good"), Some(v("expected")));
    let page = slot.handle_request(v("bad"), Some(v("forged")));
    assert_eq!(page, CallbackPage::LoginComplete);
    assert_eq!(slot.delivered, Some(CallbackOutcome::Code(v("good"))));
}
