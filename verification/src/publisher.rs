//! The outbound side of the bridge: which events open the stream, which
//! event each failure produces, and what happens to the decoder's text once
//! the agent process is done.
//!
//! Every failure is terminal for the request: it is surfaced as exactly one
//! `Error` event and nothing follows it.

use vstd::prelude::*;

use crate::messages::DesignMessage;
use crate::protocol::DecoderStateV;
use crate::protocol::DecoderState;
use crate::protocol::DesignChatStreamEvent;
use crate::protocol::EventV;
use crate::text::spec_trim;
use crate::text::trim_text;
use crate::text::is_blank;

verus! {

/// Each read from the agent's output is bounded by this many seconds;
/// exceeding it fails the whole request.
pub const READ_TIMEOUT_SECS: u64 = 120;

/// Idle keep-alive pulses are sent on the outbound stream at this interval.
pub const KEEP_ALIVE_SECS: u64 = 15;

/// The final text of a run: the trimmed terminal-result text when it is
/// non-empty, otherwise the trimmed accumulated streamed text.
pub open spec fn spec_resolved_text(s: DecoderStateV) -> Seq<char> {
    if spec_trim(s.final_result).len() > 0 {
        spec_trim(s.final_result)
    } else {
        spec_trim(s.streamed)
    }
}

/// What to do once the read loop has ended and the process has exited.
#[derive(Clone, Debug, PartialEq)]
pub enum CompletionPlan {
    /// Persist the text as a new assistant message and, once storage
    /// answers, emit `AssistantComplete` carrying the persisted message.
    PersistAndComplete(String),
    /// The run produced text, but the request skips history: nothing is
    /// persisted and no completion event is emitted.
    StreamOnlyDone,
    /// The agent produced no usable text: emit an `Error` event.
    EmitEmptyError,
}

/// Decides the end of a run: an empty resolved text is an error; otherwise
/// the text is persisted unless the request skips history.
pub fn completion_plan(state: &DecoderState, skip_history: bool) -> (r: CompletionPlan)
    ensures
        ({
            let resolved = spec_resolved_text(state.deep_view());
            &&& (resolved.len() == 0 <==> r is EmitEmptyError)
            &&& (resolved.len() > 0 && skip_history <==> r is StreamOnlyDone)
            &&& (resolved.len() > 0 && !skip_history <==> (r matches
            CompletionPlan::PersistAndComplete(t) && t@ == resolved))
        }),
{
    let resolved = if !is_blank(final_result_text(state)) {
        trim_text(final_result_text(state))
    } else {
        trim_text(state.streamed.as_str())
    };
    if resolved.as_str().unicode_len() == 0 {
        CompletionPlan::EmitEmptyError
    } else if skip_history {
        CompletionPlan::StreamOnlyDone
    } else {
        CompletionPlan::PersistAndComplete(resolved)
    }
}

fn final_result_text(state: &DecoderState) -> (r: &str)
    ensures
        r@ == state.deep_view().final_result,
{
    state.final_result.as_str()
}

/// Whether the caller's message is persisted (and a `UserMessageSaved`
/// event opens the stream): exactly when the request does not skip history.
pub fn should_save_user_message(skip_history: bool) -> (r: bool)
    ensures
        r == !skip_history,
{
    !skip_history
}

/// The event that opens the stream when a user message was persisted.
pub fn user_saved_event(message: DesignMessage) -> (r: DesignChatStreamEvent)
    ensures
        r.deep_view() == (EventV::UserMessageSaved { message: message.deep_view() }),
{
    DesignChatStreamEvent::UserMessageSaved { message }
}

/// The event that closes the stream after the final text was persisted.
pub fn complete_event(message: DesignMessage) -> (r: DesignChatStreamEvent)
    ensures
        r.deep_view() == (EventV::AssistantComplete { message: message.deep_view() }),
{
    DesignChatStreamEvent::AssistantComplete { message }
}

/// The error event for a process that could not be spawned.
pub fn spawn_failure_event(err: &str) -> (r: DesignChatStreamEvent)
    ensures
        r.deep_view() == (EventV::Error {
            message: "Failed to spawn the agent CLI: "@ + err@ + ". Make sure npx is available."@,
        }),
{
    let mut m = String::from_str("Failed to spawn the agent CLI: ");
    m.append(err);
    m.append(". Make sure npx is available.");
    DesignChatStreamEvent::Error { message: m }
}

/// The error event for a prompt that could not be written to the process.
pub fn stdin_failure_event(err: &str) -> (r: DesignChatStreamEvent)
    ensures
        r.deep_view() == (EventV::Error {
            message: "Failed to write prompt to the agent CLI: "@ + err@,
        }),
{
    let mut m = String::from_str("Failed to write prompt to the agent CLI: ");
    m.append(err);
    DesignChatStreamEvent::Error { message: m }
}

/// The error event for a process without a readable output handle.
pub fn stdout_missing_event() -> (r: DesignChatStreamEvent)
    ensures
        r.deep_view() == (EventV::Error { message: "Failed to get the agent CLI's stdout"@ }),
{
    DesignChatStreamEvent::Error { message: String::from_str("Failed to get the agent CLI's stdout") }
}

/// The error event for a failed read from the process's output.
pub fn read_failure_event(err: &str) -> (r: DesignChatStreamEvent)
    ensures
        r.deep_view() == (EventV::Error { message: "Error reading from the agent CLI: "@ + err@ }),
{
    let mut m = String::from_str("Error reading from the agent CLI: ");
    m.append(err);
    DesignChatStreamEvent::Error { message: m }
}

/// The error event for a read that exceeded the per-line bound.
pub fn timeout_event() -> (r: DesignChatStreamEvent)
    ensures
        r.deep_view() == (EventV::Error {
            message: "Agent CLI timed out after 120 seconds"@,
        }),
{
    DesignChatStreamEvent::Error {
        message: String::from_str("Agent CLI timed out after 120 seconds"),
    }
}

/// The error event for a run whose resolved final text is empty.
pub fn empty_result_event() -> (r: DesignChatStreamEvent)
    ensures
        r.deep_view() == (EventV::Error { message: "No response received from the agent CLI"@ }),
{
    DesignChatStreamEvent::Error {
        message: String::from_str("No response received from the agent CLI"),
    }
}

/// The error text of a one-shot agent call that exited unsuccessfully: its
/// trimmed diagnostics, falling back to its trimmed output when the
/// diagnostics are empty, behind a fixed prefix.
pub fn one_shot_error_message(stderr: &str, stdout: &str) -> (r: String)
    ensures
        r@ == "Agent CLI error: "@ + (if spec_trim(stderr@).len() == 0 {
            spec_trim(stdout@)
        } else {
            spec_trim(stderr@)
        }),
{
    let mut m = String::from_str("Agent CLI error: ");
    let e = trim_text(stderr);
    if e.as_str().unicode_len() == 0 {
        let o = trim_text(stdout);
        m.append(o.as_str());
    } else {
        m.append(e.as_str());
    }
    m
}

/// The error event for a final text that could not be persisted.
pub fn persist_failure_event(err: &str) -> (r: DesignChatStreamEvent)
    ensures
        r.deep_view() == (EventV::Error { message: "Failed to save response: "@ + err@ }),
{
    let mut m = String::from_str("Failed to save response: ");
    m.append(err);
    DesignChatStreamEvent::Error { message: m }
}

} // verus!
