//! The two wire event families: what clients send, what the server sends.

use vstd::prelude::*;

use crate::room::MessageResponse;
use crate::topic::ChatMessage;

verus! {

/// How many persisted messages a history snapshot may carry.
pub const HISTORY_LIMIT: usize = 50;

/// A decoded client-originated event.
#[derive(Clone, Debug, PartialEq, Eq)]
pub enum ClientEvent {
    ChatSend { content: String },
    Ping,
}

/// A server-originated event bound for the client transport.
#[derive(Clone, Debug, PartialEq, Eq)]
pub enum ServerEvent {
    History(Vec<MessageResponse>),
    ChatMessage(ChatMessage),
    Pong,
}

/// The one-time history snapshot sent right after subscribing: the store's
/// newest-first recent messages, capped at [`HISTORY_LIMIT`] entries with
/// their order kept.
pub fn history_snapshot(messages: Vec<MessageResponse>) -> (e: ServerEvent)
    ensures
        e matches ServerEvent::History(m) && m@ == if messages@.len() <= HISTORY_LIMIT as int {
            messages@
        } else {
            messages@.subrange(0, HISTORY_LIMIT as int)
        },
        e matches ServerEvent::History(m) && m@.len() <= HISTORY_LIMIT as int,
        e matches ServerEvent::History(m) && m@.is_prefix_of(messages@),
{
    let mut m = messages;
    m.truncate(HISTORY_LIMIT);
    proof {
        if m@.len() == messages@.len() {
            assert(m@ =~= messages@);
        }
    }
    ServerEvent::History(m)
}

} // verus!
