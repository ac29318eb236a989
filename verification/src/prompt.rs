//! The prompt builder and the agent's command line.
//!
//! On a first turn the agent has no memory of the conversation, so the
//! prompt carries a fixed preamble and the task's context; on a resumed turn
//! the agent reconstructs context itself and receives the user's message
//! verbatim. The prompt is always fed through the process's standard input,
//! never as an argument.

use vstd::prelude::*;

verus! {

/// The fixed preamble sent on a first (non-resumed) turn.
pub const SYSTEM_PROMPT: &'static str = "You are a helpful assistant for software design discussions. Help the user plan and design their implementation. Be concise but thorough. Respond in the same language as the user.";

/// The placeholder used when the task has no description.
pub const NO_DESCRIPTION: &'static str = "(no description)";

/// The exact text sent to the agent process. On a resumed turn it is the
/// user's message alone; otherwise the preamble, the task title, the task
/// description (or its placeholder) and the user's message.
pub open spec fn spec_prompt(
    user_text: Seq<char>,
    can_resume: bool,
    task_title: Seq<char>,
    task_description: Option<Seq<char>>,
) -> Seq<char> {
    if can_resume {
        user_text
    } else {
        SYSTEM_PROMPT@ + "\n\nTask Title: "@ + task_title + "\nTask Description: "@ + (match task_description {
            Some(d) => d,
            None => NO_DESCRIPTION@,
        }) + "\n\nUser: "@ + user_text
    }
}

/// Builds the prompt for one turn.
pub fn build_prompt(
    user_text: &str,
    can_resume: bool,
    task_title: &str,
    task_description: &Option<String>,
) -> (r: String)
    ensures
        r@ == spec_prompt(user_text@, can_resume, task_title@, task_description.deep_view()),
{
    if can_resume {
        String::from_str(user_text)
    } else {
        let mut p = String::from_str(SYSTEM_PROMPT);
        p.append("\n\nTask Title: ");
        p.append(task_title);
        p.append("\nTask Description: ");
        match task_description {
            Some(d) => p.append(d.as_str()),
            None => p.append(NO_DESCRIPTION),
        }
        p.append("\n\nUser: ");
        p.append(user_text);
        p
    }
}

/// The fixed flags of the streaming invocation, before the session flags.
pub open spec fn spec_stream_args_fixed() -> Seq<Seq<char>> {
    seq![
        "--print"@,
        "--output-format=stream-json"@,
        "--include-partial-messages"@,
        "--verbose"@,
        "--tools=Read,Glob,Grep,Edit,Write,WebSearch,WebFetch,LSP"@,
        "--permission-mode=bypassPermissions"@,
    ]
}

/// The session flags of one invocation: resume the session when the
/// resolver allowed it; otherwise start a new session under the given
/// identifier, unless the request skips history, in which case the agent
/// must not persist any session of its own.
pub open spec fn spec_session_args(
    can_resume: bool,
    skip_history: bool,
    session_id: Seq<char>,
) -> Seq<Seq<char>> {
    if can_resume {
        seq!["--resume"@, session_id]
    } else if !skip_history {
        seq!["--session-id"@, session_id]
    } else {
        seq!["--no-session-persistence"@]
    }
}

/// The full argument list of the streaming invocation.
pub fn stream_cli_args(can_resume: bool, skip_history: bool, session_id: &str) -> (r: Vec<String>)
    ensures
        r.deep_view() == spec_stream_args_fixed() + spec_session_args(
            can_resume,
            skip_history,
            session_id@,
        ),
{
    let mut args: Vec<String> = Vec::new();
    args.push(String::from_str("--print"));
    args.push(String::from_str("--output-format=stream-json"));
    args.push(String::from_str("--include-partial-messages"));
    args.push(String::from_str("--verbose"));
    args.push(String::from_str("--tools=Read,Glob,Grep,Edit,Write,WebSearch,WebFetch,LSP"));
    args.push(String::from_str("--permission-mode=bypassPermissions"));
    if can_resume {
        args.push(String::from_str("--resume"));
        args.push(String::from_str(session_id));
    } else if !skip_history {
        args.push(String::from_str("--session-id"));
        args.push(String::from_str(session_id));
    } else {
        args.push(String::from_str("--no-session-persistence"));
    }
    proof {
        assert(args.deep_view() =~= spec_stream_args_fixed() + spec_session_args(
            can_resume,
            skip_history,
            session_id@,
        ));
    }
    args
}

/// The argument list of the one-shot (non-streaming) invocation.
pub fn print_cli_args(can_resume: bool, session_id: &str) -> (r: Vec<String>)
    ensures
        r.deep_view() == seq![
            "--print"@,
            "--tools=Read,Glob,Grep,Edit,Write,WebSearch,WebFetch,LSP"@,
            "--permission-mode=bypassPermissions"@,
        ] + (if can_resume {
            seq!["--resume"@, session_id@]
        } else {
            seq!["--session-id"@, session_id@]
        }),
{
    let mut args: Vec<String> = Vec::new();
    args.push(String::from_str("--print"));
    args.push(String::from_str("--tools=Read,Glob,Grep,Edit,Write,WebSearch,WebFetch,LSP"));
    args.push(String::from_str("--permission-mode=bypassPermissions"));
    if can_resume {
        args.push(String::from_str("--resume"));
    } else {
        args.push(String::from_str("--session-id"));
    }
    args.push(String::from_str(session_id));
    proof {
        if can_resume {
            assert(args.deep_view() =~= seq![
                "--print"@,
                "--tools=Read,Glob,Grep,Edit,Write,WebSearch,WebFetch,LSP"@,
                "--permission-mode=bypassPermissions"@,
            ] + seq!["--resume"@, session_id@]);
        } else {
            assert(args.deep_view() =~= seq![
                "--print"@,
                "--tools=Read,Glob,Grep,Edit,Write,WebSearch,WebFetch,LSP"@,
                "--permission-mode=bypassPermissions"@,
            ] + seq!["--session-id"@, session_id@]);
        }
    }
    args
}

} // verus!
