//! The bridge's guarantees, stated and proved once over the specification
//! functions that the executable functions' contracts use.

use vstd::prelude::*;

use crate::messages::DesignMessage;
use crate::messages::spec_can_resume;
use crate::protocol::ContentBlockV;
use crate::protocol::DecoderStateV;
use crate::protocol::EnvelopeV;
use crate::protocol::EventV;
use crate::protocol::spec_contains_id;
use crate::protocol::spec_initial_state;
use crate::protocol::spec_run_events;
use crate::protocol::spec_run_state;
use crate::protocol::spec_step_events;
use crate::protocol::spec_step_state;
use crate::publisher::CompletionPlan;
use crate::publisher::spec_resolved_text;
use crate::text::spec_trim;

verus! {

/// Resumability is derived from the log, turn by turn: appending a message
/// makes a session resumable exactly when it already was or the new message
/// is assistant-authored. With an empty log nothing can resume.
pub proof fn law_resumability_from_log(log: Seq<DesignMessage>, m: DesignMessage)
    ensures
        spec_can_resume(log.push(m)) == (spec_can_resume(log) || m.role is Assistant),
        !spec_can_resume(Seq::<DesignMessage>::empty()),
{
    let appended = log.push(m);
    if spec_can_resume(log) {
        let i = choose|i: int| 0 <= i < log.len() && log[i].role is Assistant;
        assert(appended[i].role is Assistant);
    }
    if m.role is Assistant {
        assert(appended[log.len() as int].role is Assistant);
    }
    if spec_can_resume(appended) {
        let i = choose|i: int| 0 <= i < appended.len() && appended[i].role is Assistant;
        if i < log.len() {
            assert(log[i].role is Assistant);
        }
    }
}

/// Emitting a tool use is idempotent: two envelopes carrying the same
/// tool-use identifier (non-empty, with input present) yield exactly one
/// `ToolUse` event — the first emits it and records the identifier, the
/// second emits nothing and leaves the state unchanged.
pub proof fn law_tool_use_emitted_once(
    s: DecoderStateV,
    id: Seq<char>,
    name: Seq<char>,
    input: Seq<char>,
)
    requires
        id.len() > 0,
        !spec_contains_id(s.emitted_tool_ids, id),
    ensures
        ({
            let e = EnvelopeV::Assistant {
                blocks: seq![
                    ContentBlockV::ToolUse { id: id, name: name, input: Some(input) },
                ],
            };
            let s1 = spec_step_state(s, e);
            &&& spec_step_events(s, e) == seq![
                EventV::ToolUse { tool_name: name, tool_input: input },
            ]
            &&& spec_step_events(s1, e) == Seq::<EventV>::empty()
            &&& spec_step_state(s1, e) == s1
        }),
{
    reveal_with_fuel(crate::protocol::spec_ids_after, 3);
    reveal_with_fuel(crate::protocol::spec_assistant_events, 3);
    let b = ContentBlockV::ToolUse { id: id, name: name, input: Some(input) };
    let blocks = seq![b];
    let e = EnvelopeV::Assistant { blocks: blocks };
    assert(blocks.drop_last() =~= Seq::<ContentBlockV>::empty());
    assert(blocks.last() == b);
    let s1 = spec_step_state(s, e);
    assert(s1.emitted_tool_ids == s.emitted_tool_ids.push(id));
    assert(spec_step_events(s, e) =~= seq![
        EventV::ToolUse { tool_name: name, tool_input: input },
    ]);
    assert(spec_contains_id(s1.emitted_tool_ids, id)) by {
        assert(s1.emitted_tool_ids[s.emitted_tool_ids.len() as int] == id);
    }
    assert(spec_step_events(s1, e) =~= Seq::<EventV>::empty());
    assert(spec_step_state(s1, e).emitted_tool_ids =~= s1.emitted_tool_ids);
    assert(spec_step_state(s1, e) =~= s1);
}

/// Events keep arrival order, and the terminal result is preferred: two
/// stream deltas followed by a terminal result yield exactly the two chunks
/// in order, and the run's final text is the trimmed result text — even
/// when the concatenated chunks would have said the same.
pub proof fn law_order_and_result_preference(a: Seq<char>, b: Seq<char>, r: Seq<char>)
    requires
        a.len() > 0,
        b.len() > 0,
        spec_trim(r).len() > 0,
    ensures
        ({
            let envs = seq![
                EnvelopeV::StreamEvent { delta_text: Some(a) },
                EnvelopeV::StreamEvent { delta_text: Some(b) },
                EnvelopeV::ResultEnvelope { result: Some(r) },
            ];
            let s = spec_run_state(spec_initial_state(), envs);
            &&& spec_run_events(spec_initial_state(), envs) == seq![
                EventV::AssistantChunk { content: a },
                EventV::AssistantChunk { content: b },
            ]
            &&& s.streamed == a + b
            &&& s.done
            &&& spec_resolved_text(s) == spec_trim(r)
        }),
{
    reveal_with_fuel(spec_run_state, 4);
    reveal_with_fuel(spec_run_events, 4);
    let s0 = spec_initial_state();
    let envs = seq![
        EnvelopeV::StreamEvent { delta_text: Some(a) },
        EnvelopeV::StreamEvent { delta_text: Some(b) },
        EnvelopeV::ResultEnvelope { result: Some(r) },
    ];
    let envs1 = envs.drop_last();
    let envs2 = envs1.drop_last();
    assert(envs2.drop_last() =~= Seq::<EnvelopeV>::empty());
    assert(envs2.last() == EnvelopeV::StreamEvent { delta_text: Some(a) });
    assert(envs1.last() == EnvelopeV::StreamEvent { delta_text: Some(b) });
    let sa = spec_run_state(s0, envs2);
    assert(sa.streamed =~= a) by {
        assert(Seq::<char>::empty() + a =~= a);
    }
    let sb = spec_run_state(s0, envs1);
    assert(sb.streamed == a + b);
    let s = spec_run_state(s0, envs);
    assert(s.done && s.final_result == r);
    assert(spec_run_events(s0, envs) =~= seq![
        EventV::AssistantChunk { content: a },
        EventV::AssistantChunk { content: b },
    ]);
}

/// Fallback: a run that streamed text but ended without a terminal result
/// resolves to the trimmed streamed text.
pub proof fn law_fallback_to_streamed(t: Seq<char>)
    requires
        t.len() > 0,
    ensures
        ({
            let envs = seq![EnvelopeV::StreamEvent { delta_text: Some(t) }];
            let s = spec_run_state(spec_initial_state(), envs);
            &&& s.final_result.len() == 0
            &&& spec_resolved_text(s) == spec_trim(t)
        }),
{
    reveal_with_fuel(spec_run_state, 2);
    let envs = seq![EnvelopeV::StreamEvent { delta_text: Some(t) }];
    assert(envs.drop_last() =~= Seq::<EnvelopeV>::empty());
    let s = spec_run_state(spec_initial_state(), envs);
    assert(s.streamed =~= t) by {
        assert(Seq::<char>::empty() + t =~= t);
    }
    assert(s.final_result =~= Seq::<char>::empty());
    assert(crate::text::spec_trim_start(s.final_result) == s.final_result);
    assert(crate::text::spec_trim_end(s.final_result) == s.final_result);
}

/// A request that skips history never persists: whatever the decoder's
/// state, the completion plan is never to persist, and the stream is never
/// opened with a saved user message.
pub proof fn law_skip_history_never_persists(s: DecoderStateV, plan: CompletionPlan)
    requires
        ({
            let resolved = spec_resolved_text(s);
            &&& (resolved.len() == 0 <==> plan is EmitEmptyError)
            &&& (resolved.len() > 0 <==> plan is StreamOnlyDone)
        }),
    ensures
        !(plan is PersistAndComplete),
{
}

/// A malformed line is skipped without a trace: it emits nothing, leaves
/// the decoder unchanged, and chunk delivery around it is undisturbed.
pub proof fn law_malformed_line_tolerated(s: DecoderStateV, a: Seq<char>, b: Seq<char>)
    ensures
        spec_step_events(s, EnvelopeV::Malformed) == Seq::<EventV>::empty(),
        spec_step_state(s, EnvelopeV::Malformed) == s,
        ({
            let with_noise = seq![
                EnvelopeV::StreamEvent { delta_text: Some(a) },
                EnvelopeV::Malformed,
                EnvelopeV::StreamEvent { delta_text: Some(b) },
            ];
            let clean = seq![
                EnvelopeV::StreamEvent { delta_text: Some(a) },
                EnvelopeV::StreamEvent { delta_text: Some(b) },
            ];
            &&& spec_run_events(s, with_noise) == spec_run_events(s, clean)
            &&& spec_run_state(s, with_noise) == spec_run_state(s, clean)
        }),
{
    reveal_with_fuel(spec_run_state, 4);
    reveal_with_fuel(spec_run_events, 4);
    let with_noise = seq![
        EnvelopeV::StreamEvent { delta_text: Some(a) },
        EnvelopeV::Malformed,
        EnvelopeV::StreamEvent { delta_text: Some(b) },
    ];
    let clean = seq![
        EnvelopeV::StreamEvent { delta_text: Some(a) },
        EnvelopeV::StreamEvent { delta_text: Some(b) },
    ];
    let n1 = with_noise.drop_last();
    let n2 = n1.drop_last();
    assert(n2.drop_last() =~= Seq::<EnvelopeV>::empty());
    assert(n2.last() == EnvelopeV::StreamEvent { delta_text: Some(a) });
    assert(n1.last() == EnvelopeV::Malformed);
    let c1 = clean.drop_last();
    assert(c1.drop_last() =~= Seq::<EnvelopeV>::empty());
    assert(c1.last() == EnvelopeV::StreamEvent { delta_text: Some(a) });
    assert(spec_run_state(s, n1) == spec_run_state(s, c1));
    assert(spec_run_state(s, with_noise) == spec_run_state(s, clean));
    assert(spec_run_events(s, n1) =~= spec_run_events(s, c1));
    assert(spec_run_events(s, with_noise) =~= spec_run_events(s, clean));
}

} // verus!
