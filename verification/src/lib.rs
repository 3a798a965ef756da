//! Verified core of a desktop Twitch client: the PKCE login protocol
//! (artifact generation, authorize-URL construction, the single-shot
//! callback receiver, token exchange sequencing) and the chat-event
//! filter that feeds the UI.
//!
//! All protocol data is handled as bytes (`Vec<u8>` of ASCII text), so
//! that contracts can speak of exact byte sequences.

pub mod authorize;
pub mod callback;
pub mod chat;
pub mod login;
pub mod percent;
pub mod pkce;
pub mod token;
