//! The conversation message log: roles, persisted messages, and the derived
//! resumability of a session.
//!
//! A session's ability to resume is never stored; it is computed from the
//! log: a session can resume exactly when at least one assistant-authored
//! message exists in it.

use vstd::prelude::*;

verus! {

/// Who authored a message in a design conversation.
#[derive(Clone, Debug, PartialEq, Eq, Structural)]
pub enum DesignMessageRole {
    User,
    Assistant,
}

/// A persisted conversation message. Identifiers are carried in their
/// textual form; the creation time is milliseconds since the epoch.
#[derive(Clone, Debug, PartialEq)]
pub struct DesignMessage {
    pub id: String,
    pub session_id: String,
    pub role: DesignMessageRole,
    pub content: String,
    pub created_at_ms: i64,
}

/// The data needed to append one message to a session's log.
#[derive(Clone, Debug, PartialEq)]
pub struct CreateDesignMessage {
    pub role: DesignMessageRole,
    pub content: String,
}

/// The inbound request to append one message to a task's design session.
#[derive(Clone, Debug, PartialEq)]
pub struct AddDesignMessageRequest {
    pub content: String,
    pub role: DesignMessageRole,
}

/// The inbound chat request: the user's message, and whether this call
/// leaves the message log untouched (the caller then supplies full context
/// inline each time).
#[derive(Clone, Debug, PartialEq)]
pub struct DesignChatRequest {
    pub message: String,
    pub skip_history: Option<bool>,
}

impl DesignChatRequest {
    /// Whether this request skips the message log: only an explicit true
    /// does.
    pub fn skips_history(&self) -> (r: bool)
        ensures
            r == (self.skip_history matches Some(true)),
    {
        match self.skip_history {
            Some(b) => b,
            None => false,
        }
    }
}

/// The reply of the one-shot chat call: the persisted user message and the
/// persisted assistant reply.
#[derive(Clone, Debug, PartialEq)]
pub struct DesignChatResponse {
    pub user_message: DesignMessage,
    pub assistant_message: DesignMessage,
}

/// Whether a log holds at least one assistant-authored message.
pub open spec fn spec_can_resume(log: Seq<DesignMessage>) -> bool {
    exists|i: int| 0 <= i < log.len() && log[i].role is Assistant
}

/// Resumability is derived from the message log: the external agent can
/// resume a session exactly when the log already holds an assistant reply.
pub fn can_resume(log: &Vec<DesignMessage>) -> (r: bool)
    ensures
        r == spec_can_resume(log@),
{
    let mut i: usize = 0;
    while i < log.len()
        invariant
            0 <= i <= log@.len(),
            forall|j: int| 0 <= j < i ==> !(log@[j].role is Assistant),
        decreases log@.len() - i,
    {
        if log[i].role == DesignMessageRole::Assistant {
            return true;
        }
        i = i + 1;
    }
    false
}

} // verus!
