//! The chat-event filter: each inbound server message is either a user
//! chat message, which becomes exactly one normalized event, or
//! something else, which is silently dropped. The connection and the
//! receive loop live in the unverified shell; it hands each message here
//! as a plain value, with the clock reading to stamp it.

use vstd::prelude::*;

verus! {

/// An inbound server message, reduced to what the filter reads: a user
/// chat message with its fields, or anything else.
pub enum InboundMessage {
    /// A user chat message ("private message" in the chat protocol).
    Privmsg { id: Vec<u8>, channel: Vec<u8>, sender: Vec<u8>, text: Vec<u8> },
    /// Any other server message; dropped without effect.
    Other,
}

/// The normalized record published to the UI collaborator, one per
/// inbound chat message.
#[derive(Debug, Clone, PartialEq, Eq)]
pub struct ChatEvent {
    pub id: Vec<u8>,
    pub channel: Vec<u8>,
    pub user: Vec<u8>,
    pub message: Vec<u8>,
    pub timestamp_millis: i64,
}

/// The event a chat message becomes: its fields carried over one to
/// one, stamped with the given clock reading.
pub open spec fn event_of(
    id: Vec<u8>,
    channel: Vec<u8>,
    sender: Vec<u8>,
    text: Vec<u8>,
    now_millis: i64,
) -> ChatEvent {
    ChatEvent { id, channel, user: sender, message: text, timestamp_millis: now_millis }
}

/// The events a message sequence produces, in arrival order: one per
/// chat message, none for anything else.
pub open spec fn events_of(messages: Seq<InboundMessage>, now_millis: i64) -> Seq<ChatEvent>
    decreases messages.len(),
{
    if messages.len() == 0 {
        Seq::empty()
    } else {
        (match messages[0] {
            InboundMessage::Privmsg { id, channel, sender, text } => seq![
                event_of(id, channel, sender, text, now_millis),
            ],
            InboundMessage::Other => Seq::empty(),
        }) + events_of(messages.skip(1), now_millis)
    }
}

/// Classifies one inbound message: a chat message becomes exactly the
/// normalized event with its fields and the given timestamp; every
/// other message becomes nothing.
pub fn classify(message: InboundMessage, now_millis: i64) -> (r: Option<ChatEvent>)
    ensures
        (message matches InboundMessage::Privmsg { id, channel, sender, text } ==> r == Some(
            event_of(id, channel, sender, text, now_millis),
        )),
        message is Other ==> r is None,
{
    match message {
        InboundMessage::Privmsg { id, channel, sender, text } => Some(
            ChatEvent { id, channel, user: sender, message: text, timestamp_millis: now_millis },
        ),
        InboundMessage::Other => None,
    }
}

/// Filters a batch of inbound messages to their normalized events, kept
/// in arrival order.
pub fn ingest_batch(messages: Vec<InboundMessage>, now_millis: i64) -> (r: Vec<ChatEvent>)
    ensures
        r@ == events_of(messages@, now_millis),
{
    let ghost all = messages@;
    let mut remaining = messages;
    let mut r: Vec<ChatEvent> = Vec::new();
    while remaining.len() > 0
        invariant
            events_of(all, now_millis) == r@ + events_of(remaining@, now_millis),
        decreases remaining@.len(),
    {
        let ghost before = remaining@;
        let m = remaining.remove(0);
        proof {
            assert(remaining@ =~= before.skip(1));
        }
        match classify(m, now_millis) {
            Some(e) => {
                r.push(e);
            },
            None => {},
        }
        proof {
            assert(events_of(all, now_millis) =~= r@ + events_of(remaining@, now_millis));
        }
    }
    proof {
        assert(events_of(remaining@, now_millis) =~= Seq::<ChatEvent>::empty());
        assert(r@ =~= r@ + events_of(remaining@, now_millis));
    }
    r
}

} // verus!
