use agent_bridge::messages::DesignMessage;
use agent_bridge::messages::DesignMessageRole;
use agent_bridge::messages::DesignChatRequest;
use agent_bridge::messages::can_resume;
use agent_bridge::prompt::build_prompt;
use agent_bridge::prompt::print_cli_args;
use agent_bridge::prompt::stream_cli_args;
use agent_bridge::prompt::SYSTEM_PROMPT;
use agent_bridge::protocol::DecoderState;
use agent_bridge::protocol::ContentBlock;
use agent_bridge::protocol::DesignChatStreamEvent;
use agent_bridge::protocol::Envelope;
use agent_bridge::publisher::completion_plan;
use agent_bridge::publisher::empty_result_event;
use agent_bridge::publisher::one_shot_error_message;
use agent_bridge::publisher::persist_failure_event;
use agent_bridge::publisher::read_failure_event;
use agent_bridge::publisher::should_save_user_message;
use agent_bridge::publisher::spawn_failure_event;
use agent_bridge::publisher::stdin_failure_event;
use agent_bridge::publisher::stdout_missing_event;
use agent_bridge::publisher::timeout_event;
use agent_bridge::publisher::user_saved_event;
use agent_bridge::publisher::complete_event;
use agent_bridge::publisher::CompletionPlan;
use agent_bridge::publisher::KEEP_ALIVE_SECS;
use agent_bridge::publisher::READ_TIMEOUT_SECS;
use agent_bridge::session::decide_session;
use agent_bridge::session::resume_decision;
use agent_bridge::session::SessionDecision;
use agent_bridge::wire::parse_envelope;

fn message(role: DesignMessageRole, content: &str) -> DesignMessage {
    DesignMessage {
        id: "m1".to_string(),
        session_id: "s1".to_string(),
        role,
        content: content.to_string(),
        created_at_ms: 0,
    }
}

fn decode_lines(lines: &[&str]) -> (DecoderState, Vec<DesignChatStreamEvent>) {
    let envs: Vec<Envelope> = lines.iter().map(|l| parse_envelope(l)).collect();
    DecoderState::decode_all(&envs)
}

#[test]
fn resumability_with_empty_log() {
    let log: Vec<DesignMessage> = Vec::new();
    assert!(!can_resume(&log));
}

#[test]
fn resumability_after_one_user_turn() {
    let log = vec![message(DesignMessageRole::User, "hi")];
    assert!(!can_resume(&log));
}

#[test]
fn resumability_after_assistant_reply() {
    let log = vec![
        message(DesignMessageRole::User, "hi"),
        message(DesignMessageRole::Assistant, "hello"),
    ];
    assert!(can_resume(&log));
}

#[test]
fn resumability_after_many_turns() {
    let mut log = Vec::new();
    for i in 0..5 {
        log.push(message(DesignMessageRole::User, &format!("q{}", i)));
        log.push(message(DesignMessageRole::Assistant, &format!("a{}", i)));
    }
    assert!(can_resume(&log));
    let users_only: Vec<DesignMessage> = (0..5)
        .map(|i| message(DesignMessageRole::User, &format!("q{}", i)))
        .collect();
    assert!(!can_resume(&users_only));
}

#[test]
fn skip_history_never_resumes() {
    let log = vec![message(DesignMessageRole::Assistant, "prior")];
    assert!(resume_decision(false, &log));
    assert!(!resume_decision(true, &log));
}

#[test]
fn tool_use_emitted_once_for_duplicate_envelopes() {
    let line = r#"{"type":"assistant","message":{"content":[{"type":"tool_use","id":"tu1","name":"Read","input":{"path":"x"}}]}}"#;
    let env = parse_envelope(line);
    let mut state = DecoderState::new();
    let first = state.step(&env);
    assert_eq!(first.len(), 1);
    match &first[0] {
        DesignChatStreamEvent::ToolUse { tool_name, tool_input } => {
            assert_eq!(tool_name, "Read");
            assert_eq!(tool_input, r#"{"path":"x"}"#);
        }
        other => panic!("expected a tool-use event, got {:?}", other),
    }
    let second = state.step(&env);
    assert_eq!(second.len(), 0);
}

#[test]
fn tool_use_with_null_input_is_withheld() {
    let line = r#"{"type":"assistant","message":{"content":[{"type":"tool_use","id":"tu2","name":"Grep","input":null}]}}"#;
    let env = parse_envelope(line);
    let mut state = DecoderState::new();
    assert_eq!(state.step(&env).len(), 0);
}

#[test]
fn tool_use_with_empty_id_is_not_deduplicated() {
    let line = r#"{"type":"assistant","message":{"content":[{"type":"tool_use","id":"","name":"Edit","input":{}}]}}"#;
    let env = parse_envelope(line);
    let mut state = DecoderState::new();
    assert_eq!(state.step(&env).len(), 1);
    assert_eq!(state.step(&env).len(), 1);
}

#[test]
fn chunks_keep_order_and_result_is_preferred() {
    let (state, events) = decode_lines(&[
        r#"{"type":"stream_event","event":{"type":"content_block_delta","delta":{"text":"A"}}}"#,
        r#"{"type":"stream_event","event":{"type":"content_block_delta","delta":{"text":"B"}}}"#,
        r#"{"type":"result","result":"AB"}"#,
    ]);
    assert_eq!(
        events,
        vec![
            DesignChatStreamEvent::AssistantChunk { content: "A".to_string() },
            DesignChatStreamEvent::AssistantChunk { content: "B".to_string() },
        ]
    );
    assert!(state.done);
    assert_eq!(state.streamed, "AB");
    match completion_plan(&state, false) {
        CompletionPlan::PersistAndComplete(t) => assert_eq!(t, "AB"),
        other => panic!("expected persistence, got {:?}", other),
    }
}

#[test]
fn fallback_to_streamed_text_without_result() {
    let (state, events) = decode_lines(&[
        r#"{"type":"stream_event","event":{"type":"content_block_delta","delta":{"text":"hello"}}}"#,
    ]);
    assert_eq!(events.len(), 1);
    assert!(!state.done);
    match completion_plan(&state, false) {
        CompletionPlan::PersistAndComplete(t) => assert_eq!(t, "hello"),
        other => panic!("expected persistence, got {:?}", other),
    }
}

#[test]
fn fallback_when_result_envelope_has_no_text() {
    let (state, _events) = decode_lines(&[
        r#"{"type":"stream_event","event":{"type":"content_block_delta","delta":{"text":" hi "}}}"#,
        r#"{"type":"result"}"#,
    ]);
    assert!(state.done);
    assert_eq!(state.final_result, "");
    match completion_plan(&state, false) {
        CompletionPlan::PersistAndComplete(t) => assert_eq!(t, "hi"),
        other => panic!("expected persistence, got {:?}", other),
    }
}

#[test]
fn skip_history_streams_without_persisting() {
    let (state, _events) = decode_lines(&[
        r#"{"type":"stream_event","event":{"type":"content_block_delta","delta":{"text":"hello"}}}"#,
        r#"{"type":"result","result":"hello"}"#,
    ]);
    assert_eq!(completion_plan(&state, true), CompletionPlan::StreamOnlyDone);
    assert!(!should_save_user_message(true));
    assert!(should_save_user_message(false));
}

#[test]
fn empty_run_is_an_error_even_when_skipping_history() {
    let (state, events) = decode_lines(&[r#"{"type":"result","result":"   "}"#]);
    assert_eq!(events.len(), 0);
    assert_eq!(completion_plan(&state, false), CompletionPlan::EmitEmptyError);
    assert_eq!(completion_plan(&state, true), CompletionPlan::EmitEmptyError);
    match empty_result_event() {
        DesignChatStreamEvent::Error { message } => {
            assert_eq!(message, "No response received from the agent CLI")
        }
        other => panic!("expected an error event, got {:?}", other),
    }
}

#[test]
fn timeout_yields_exactly_one_error_event() {
    let events = vec![timeout_event()];
    assert_eq!(events.len(), 1);
    match &events[0] {
        DesignChatStreamEvent::Error { message } => {
            assert_eq!(message, "Agent CLI timed out after 120 seconds")
        }
        other => panic!("expected an error event, got {:?}", other),
    }
    assert_eq!(READ_TIMEOUT_SECS, 120);
    assert_eq!(KEEP_ALIVE_SECS, 15);
}

#[test]
fn malformed_line_does_not_interrupt_chunks() {
    let (state, events) = decode_lines(&[
        r#"{"type":"stream_event","event":{"type":"content_block_delta","delta":{"text":"A"}}}"#,
        "this is not json at all {{{",
        r#"{"type":"stream_event","event":{"type":"content_block_delta","delta":{"text":"B"}}}"#,
    ]);
    assert_eq!(
        events,
        vec![
            DesignChatStreamEvent::AssistantChunk { content: "A".to_string() },
            DesignChatStreamEvent::AssistantChunk { content: "B".to_string() },
        ]
    );
    assert_eq!(state.streamed, "AB");
}

#[test]
fn unknown_envelope_types_are_ignored() {
    let (state, events) = decode_lines(&[
        r#"{"type":"system","subtype":"init"}"#,
        r#"{"type":"stream_event","event":{"type":"content_block_delta","delta":{"text":"x"}}}"#,
    ]);
    assert_eq!(events.len(), 1);
    assert_eq!(state.streamed, "x");
}

#[test]
fn envelopes_after_the_terminal_result_are_not_consumed() {
    let (state, events) = decode_lines(&[
        r#"{"type":"result","result":"done"}"#,
        r#"{"type":"stream_event","event":{"type":"content_block_delta","delta":{"text":"late"}}}"#,
    ]);
    assert_eq!(events.len(), 0);
    assert_eq!(state.streamed, "");
    assert_eq!(state.final_result, "done");
}

#[test]
fn empty_delta_is_not_emitted() {
    let (state, events) = decode_lines(&[
        r#"{"type":"stream_event","event":{"type":"content_block_delta","delta":{"text":""}}}"#,
    ]);
    assert_eq!(events.len(), 0);
    assert_eq!(state.streamed, "");
}

#[test]
fn tool_result_with_string_content() {
    let line = r#"{"type":"user","message":{"content":[{"type":"tool_result","tool_use_id":"tu1","content":"all good"}]}}"#;
    let mut state = DecoderState::new();
    let events = state.step(&parse_envelope(line));
    assert_eq!(
        events,
        vec![DesignChatStreamEvent::ToolResult {
            tool_name: "tu1".to_string(),
            output: "all good".to_string(),
        }]
    );
}

#[test]
fn tool_result_with_typed_parts_joins_text_parts() {
    let line = r#"{"type":"user","message":{"content":[{"type":"tool_result","tool_use_id":"tu9","content":[{"type":"text","text":"one"},{"type":"image","source":"ignored"},{"type":"text","text":"two"}]}]}}"#;
    let mut state = DecoderState::new();
    let events = state.step(&parse_envelope(line));
    assert_eq!(
        events,
        vec![DesignChatStreamEvent::ToolResult {
            tool_name: "tu9".to_string(),
            output: "one\ntwo".to_string(),
        }]
    );
}

#[test]
fn prompt_on_first_turn_carries_context() {
    let p = build_prompt("please help", false, "My Task", &Some("Details".to_string()));
    assert_eq!(
        p,
        format!(
            "{}\n\nTask Title: My Task\nTask Description: Details\n\nUser: please help",
            SYSTEM_PROMPT
        )
    );
}

#[test]
fn prompt_without_description_uses_placeholder() {
    let p = build_prompt("go", false, "T", &None);
    assert_eq!(
        p,
        format!("{}\n\nTask Title: T\nTask Description: (no description)\n\nUser: go", SYSTEM_PROMPT)
    );
}

#[test]
fn prompt_on_resumed_turn_is_verbatim() {
    let p = build_prompt("just this", true, "Ignored", &Some("Ignored too".to_string()));
    assert_eq!(p, "just this");
}

#[test]
fn stream_args_select_resume_or_new_session() {
    let fixed = vec![
        "--print",
        "--output-format=stream-json",
        "--include-partial-messages",
        "--verbose",
        "--tools=Read,Glob,Grep,Edit,Write,WebSearch,WebFetch,LSP",
        "--permission-mode=bypassPermissions",
    ];
    let resume = stream_cli_args(true, false, "sid-1");
    let mut expected: Vec<String> = fixed.iter().map(|s| s.to_string()).collect();
    expected.push("--resume".to_string());
    expected.push("sid-1".to_string());
    assert_eq!(resume, expected);

    let fresh = stream_cli_args(false, false, "sid-1");
    let mut expected: Vec<String> = fixed.iter().map(|s| s.to_string()).collect();
    expected.push("--session-id".to_string());
    expected.push("sid-1".to_string());
    assert_eq!(fresh, expected);

    let ephemeral = stream_cli_args(false, true, "sid-1");
    let mut expected: Vec<String> = fixed.iter().map(|s| s.to_string()).collect();
    expected.push("--no-session-persistence".to_string());
    assert_eq!(ephemeral, expected);
}

#[test]
fn one_shot_args_select_resume_or_new_session() {
    let resume = print_cli_args(true, "sid-2");
    assert_eq!(
        resume,
        vec![
            "--print".to_string(),
            "--tools=Read,Glob,Grep,Edit,Write,WebSearch,WebFetch,LSP".to_string(),
            "--permission-mode=bypassPermissions".to_string(),
            "--resume".to_string(),
            "sid-2".to_string(),
        ]
    );
    let fresh = print_cli_args(false, "sid-2");
    assert_eq!(fresh[3], "--session-id");
    assert_eq!(fresh[4], "sid-2");
}

#[test]
fn session_is_reused_only_when_link_resolves() {
    assert_eq!(
        decide_session(&Some("s1".to_string()), true),
        SessionDecision::UseExisting
    );
    assert_eq!(
        decide_session(&Some("s1".to_string()), false),
        SessionDecision::CreateNew
    );
    assert_eq!(decide_session(&None, false), SessionDecision::CreateNew);
}

#[test]
fn failure_events_carry_their_exact_messages() {
    match spawn_failure_event("boom") {
        DesignChatStreamEvent::Error { message } => assert_eq!(
            message,
            "Failed to spawn the agent CLI: boom. Make sure npx is available."
        ),
        other => panic!("expected an error event, got {:?}", other),
    }
    match stdin_failure_event("pipe closed") {
        DesignChatStreamEvent::Error { message } => {
            assert_eq!(message, "Failed to write prompt to the agent CLI: pipe closed")
        }
        other => panic!("expected an error event, got {:?}", other),
    }
    match stdout_missing_event() {
        DesignChatStreamEvent::Error { message } => {
            assert_eq!(message, "Failed to get the agent CLI's stdout")
        }
        other => panic!("expected an error event, got {:?}", other),
    }
    match read_failure_event("io broke") {
        DesignChatStreamEvent::Error { message } => {
            assert_eq!(message, "Error reading from the agent CLI: io broke")
        }
        other => panic!("expected an error event, got {:?}", other),
    }
    match persist_failure_event("db gone") {
        DesignChatStreamEvent::Error { message } => {
            assert_eq!(message, "Failed to save response: db gone")
        }
        other => panic!("expected an error event, got {:?}", other),
    }
}

#[test]
fn message_events_carry_the_persisted_message() {
    let m = message(DesignMessageRole::User, "hi");
    match user_saved_event(m.clone()) {
        DesignChatStreamEvent::UserMessageSaved { message } => assert_eq!(message, m),
        other => panic!("expected a user-saved event, got {:?}", other),
    }
    let a = message(DesignMessageRole::Assistant, "done");
    match complete_event(a.clone()) {
        DesignChatStreamEvent::AssistantComplete { message } => assert_eq!(message, a),
        other => panic!("expected a completion event, got {:?}", other),
    }
}

#[test]
fn one_shot_error_prefers_diagnostics() {
    assert_eq!(
        one_shot_error_message(" bad \n", "out"),
        "Agent CLI error: bad"
    );
    assert_eq!(
        one_shot_error_message("   ", " fallback "),
        "Agent CLI error: fallback"
    );
}

#[test]
fn chat_request_skips_history_only_when_explicit() {
    let on = DesignChatRequest { message: "m".to_string(), skip_history: Some(true) };
    let off = DesignChatRequest { message: "m".to_string(), skip_history: Some(false) };
    let unset = DesignChatRequest { message: "m".to_string(), skip_history: None };
    assert!(on.skips_history());
    assert!(!off.skips_history());
    assert!(!unset.skips_history());
}

#[test]
fn envelopes_are_classified_structurally() {
    let line = r#"{"type":"assistant","message":{"content":[{"type":"tool_use","id":"i","name":"n","input":{"k":1}},{"type":"text","text":"ignored"}]}}"#;
    assert_eq!(
        parse_envelope(line),
        Envelope::Assistant {
            blocks: vec![
                ContentBlock::ToolUse {
                    id: "i".to_string(),
                    name: "n".to_string(),
                    input: Some(r#"{"k":1}"#.to_string()),
                },
                ContentBlock::Other,
            ],
        }
    );
    assert_eq!(
        parse_envelope(r#"{"type":"stream_event","event":{"type":"content_block_delta","delta":{"text":"t"}}}"#),
        Envelope::StreamEvent { delta_text: Some("t".to_string()) }
    );
    assert_eq!(
        parse_envelope(r#"{"type":"stream_event","event":{"type":"message_start"}}"#),
        Envelope::StreamEvent { delta_text: None }
    );
    assert_eq!(
        parse_envelope(r#"{"type":"result","result":"done"}"#),
        Envelope::ResultEnvelope { result: Some("done".to_string()) }
    );
    assert_eq!(parse_envelope(r#"{"type":"unknown_kind"}"#), Envelope::Other);
    assert_eq!(parse_envelope("not json"), Envelope::Malformed);
    assert_eq!(parse_envelope(r#"{"no_type":true}"#), Envelope::Malformed);
}

#[test]
fn tool_use_without_name_gets_a_placeholder() {
    let line = r#"{"type":"assistant","message":{"content":[{"type":"tool_use","id":"x","input":{}}]}}"#;
    let mut state = DecoderState::new();
    let events = state.step(&parse_envelope(line));
    match &events[0] {
        DesignChatStreamEvent::ToolUse { tool_name, .. } => assert_eq!(tool_name, "unknown"),
        other => panic!("expected a tool-use event, got {:?}", other),
    }
}
