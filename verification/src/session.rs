//! The session resolver: given the parent task's link to a design session
//! and what storage answered, decide whether to reuse the session or create
//! a fresh one, and whether the external agent can resume its own state.

use vstd::prelude::*;

use crate::messages::DesignMessage;
use crate::messages::can_resume;
use crate::messages::spec_can_resume;

verus! {

/// A design conversation session. Its identity is created once and never
/// changes; a workspace link is not needed for pure chat.
#[derive(Clone, Debug, PartialEq)]
pub struct Session {
    pub id: String,
    pub workspace_id: Option<String>,
}

/// A design session together with its full message log, as the combined
/// lookup returns it.
#[derive(Clone, Debug, PartialEq)]
pub struct DesignSessionWithMessages {
    pub session: Session,
    pub messages: Vec<DesignMessage>,
}

/// What the resolver decided about the parent's session link.
#[derive(Clone, Copy, Debug, PartialEq, Eq, Structural)]
pub enum SessionDecision {
    /// The parent links a session and it still exists: use it.
    UseExisting,
    /// The parent links nothing, or the linked session is gone (an orphaned
    /// reference): create a new session and link it to the parent.
    CreateNew,
}

/// Resolves the parent's session link against what storage found: the
/// existing session is used exactly when the link is present and the lookup
/// found it; anything else means a new session.
pub fn decide_session(linked_session_id: &Option<String>, lookup_found: bool) -> (r:
    SessionDecision)
    ensures
        r == SessionDecision::UseExisting <==> (linked_session_id is Some && lookup_found),
        r == SessionDecision::CreateNew <==> (linked_session_id is None || !lookup_found),
{
    match linked_session_id {
        Some(_) => if lookup_found {
            SessionDecision::UseExisting
        } else {
            SessionDecision::CreateNew
        },
        None => SessionDecision::CreateNew,
    }
}

/// Whether the agent process may resume the session for this request: the
/// log must hold an assistant reply, and a request that skips history never
/// resumes (nor reads the log at all).
pub fn resume_decision(skip_history: bool, log: &Vec<DesignMessage>) -> (r: bool)
    ensures
        r == (!skip_history && spec_can_resume(log@)),
{
    if skip_history {
        false
    } else {
        can_resume(log)
    }
}

} // verus!
