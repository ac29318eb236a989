//! The agent process's line-oriented streaming protocol, normalised.
//!
//! Each line the agent writes is one JSON envelope with a `type`
//! discriminator. This module models the envelope as a plain datatype and
//! gives the stateful decoder that turns a sequence of envelopes into the
//! normalised event feed: tool uses are deduplicated by identifier, streamed
//! text deltas are accumulated, and a terminal `result` envelope captures the
//! authoritative final text and ends the run.

use vstd::prelude::*;

use crate::messages::DesignMessage;
use crate::messages::DesignMessageRole;

verus! {

/// One part of a tool result whose content arrived as an array of typed
/// parts; only text-typed parts carry usable output.
#[derive(Clone, Debug, PartialEq)]
pub enum ResultPart {
    Text(String),
    Other,
}

/// The content of a tool-result block: missing, a plain string, or an array
/// of typed parts.
#[derive(Clone, Debug, PartialEq)]
pub enum ToolResultContent {
    Absent,
    Text(String),
    Parts(Vec<ResultPart>),
}

/// One content block of an `assistant` or `user` envelope. A tool-use block
/// carries its input as JSON text, present exactly when the envelope held a
/// non-null `input` field.
#[derive(Clone, Debug, PartialEq)]
pub enum ContentBlock {
    ToolUse { id: String, name: String, input: Option<String> },
    ToolResult { tool_use_id: String, content: ToolResultContent },
    Other,
}

/// One envelope read from the agent's output, classified by its `type`
/// field. A line that is not a JSON envelope at all is `Malformed`; an
/// envelope of an unrecognised type is `Other` — both are skipped.
#[derive(Clone, Debug, PartialEq)]
pub enum Envelope {
    Assistant { blocks: Vec<ContentBlock> },
    User { blocks: Vec<ContentBlock> },
    StreamEvent { delta_text: Option<String> },
    ResultEnvelope { result: Option<String> },
    Other,
    Malformed,
}

/// One event of the outbound feed. The persisted-message payloads are filled
/// by the publisher once storage has answered.
#[derive(Clone, Debug, PartialEq)]
pub enum DesignChatStreamEvent {
    UserMessageSaved { message: DesignMessage },
    AssistantChunk { content: String },
    AssistantComplete { message: DesignMessage },
    ToolUse { tool_name: String, tool_input: String },
    ToolResult { tool_name: String, output: String },
    Error { message: String },
}

/// The mathematical image of a persisted message.
pub struct DesignMessageV {
    pub id: Seq<char>,
    pub session_id: Seq<char>,
    pub role: DesignMessageRole,
    pub content: Seq<char>,
    pub created_at_ms: i64,
}

impl DeepView for DesignMessage {
    type V = DesignMessageV;

    open spec fn deep_view(&self) -> DesignMessageV {
        DesignMessageV {
            id: self.id@,
            session_id: self.session_id@,
            role: self.role,
            content: self.content@,
            created_at_ms: self.created_at_ms,
        }
    }
}

/// The mathematical image of a result part.
pub enum ResultPartV {
    Text(Seq<char>),
    Other,
}

impl DeepView for ResultPart {
    type V = ResultPartV;

    open spec fn deep_view(&self) -> ResultPartV {
        match self {
            ResultPart::Text(s) => ResultPartV::Text(s@),
            ResultPart::Other => ResultPartV::Other,
        }
    }
}

/// The mathematical image of a tool-result content.
pub enum ToolResultContentV {
    Absent,
    Text(Seq<char>),
    Parts(Seq<ResultPartV>),
}

impl DeepView for ToolResultContent {
    type V = ToolResultContentV;

    open spec fn deep_view(&self) -> ToolResultContentV {
        match self {
            ToolResultContent::Absent => ToolResultContentV::Absent,
            ToolResultContent::Text(s) => ToolResultContentV::Text(s@),
            ToolResultContent::Parts(ps) => ToolResultContentV::Parts(ps.deep_view()),
        }
    }
}

/// The mathematical image of a content block.
pub enum ContentBlockV {
    ToolUse { id: Seq<char>, name: Seq<char>, input: Option<Seq<char>> },
    ToolResult { tool_use_id: Seq<char>, content: ToolResultContentV },
    Other,
}

impl DeepView for ContentBlock {
    type V = ContentBlockV;

    open spec fn deep_view(&self) -> ContentBlockV {
        match self {
            ContentBlock::ToolUse { id, name, input } => ContentBlockV::ToolUse {
                id: id@,
                name: name@,
                input: input.deep_view(),
            },
            ContentBlock::ToolResult { tool_use_id, content } => ContentBlockV::ToolResult {
                tool_use_id: tool_use_id@,
                content: content.deep_view(),
            },
            ContentBlock::Other => ContentBlockV::Other,
        }
    }
}

/// The mathematical image of an envelope.
pub enum EnvelopeV {
    Assistant { blocks: Seq<ContentBlockV> },
    User { blocks: Seq<ContentBlockV> },
    StreamEvent { delta_text: Option<Seq<char>> },
    ResultEnvelope { result: Option<Seq<char>> },
    Other,
    Malformed,
}

impl DeepView for Envelope {
    type V = EnvelopeV;

    open spec fn deep_view(&self) -> EnvelopeV {
        match self {
            Envelope::Assistant { blocks } => EnvelopeV::Assistant { blocks: blocks.deep_view() },
            Envelope::User { blocks } => EnvelopeV::User { blocks: blocks.deep_view() },
            Envelope::StreamEvent { delta_text } => EnvelopeV::StreamEvent {
                delta_text: delta_text.deep_view(),
            },
            Envelope::ResultEnvelope { result } => EnvelopeV::ResultEnvelope {
                result: result.deep_view(),
            },
            Envelope::Other => EnvelopeV::Other,
            Envelope::Malformed => EnvelopeV::Malformed,
        }
    }
}

/// The mathematical image of an outbound event.
pub enum EventV {
    UserMessageSaved { message: DesignMessageV },
    AssistantChunk { content: Seq<char> },
    AssistantComplete { message: DesignMessageV },
    ToolUse { tool_name: Seq<char>, tool_input: Seq<char> },
    ToolResult { tool_name: Seq<char>, output: Seq<char> },
    Error { message: Seq<char> },
}

impl DeepView for DesignChatStreamEvent {
    type V = EventV;

    open spec fn deep_view(&self) -> EventV {
        match self {
            DesignChatStreamEvent::UserMessageSaved { message } => EventV::UserMessageSaved {
                message: message.deep_view(),
            },
            DesignChatStreamEvent::AssistantChunk { content } => EventV::AssistantChunk {
                content: content@,
            },
            DesignChatStreamEvent::AssistantComplete { message } => EventV::AssistantComplete {
                message: message.deep_view(),
            },
            DesignChatStreamEvent::ToolUse { tool_name, tool_input } => EventV::ToolUse {
                tool_name: tool_name@,
                tool_input: tool_input@,
            },
            DesignChatStreamEvent::ToolResult { tool_name, output } => EventV::ToolResult {
                tool_name: tool_name@,
                output: output@,
            },
            DesignChatStreamEvent::Error { message } => EventV::Error { message: message@ },
        }
    }
}

/// Whether `ids` already holds `id`.
pub open spec fn spec_contains_id(ids: Seq<Seq<char>>, id: Seq<char>) -> bool {
    exists|k: int| 0 <= k < ids.len() && ids[k] == id
}

/// Whether a tool-use block would be emitted given the identifiers already
/// emitted: its input must be present (non-null) and its identifier must be
/// empty or not yet seen.
pub open spec fn spec_tool_use_emits(ids: Seq<Seq<char>>, b: ContentBlockV) -> bool {
    &&& b matches ContentBlockV::ToolUse { id, input, .. }
    &&& input is Some
    &&& (id.len() == 0 || !spec_contains_id(ids, id))
}

/// The emitted-identifier set after scanning the blocks of one `assistant`
/// envelope, left to right: each emitted tool use with a non-empty
/// identifier records it.
pub open spec fn spec_ids_after(ids: Seq<Seq<char>>, blocks: Seq<ContentBlockV>) -> Seq<Seq<char>>
    decreases blocks.len(),
{
    if blocks.len() == 0 {
        ids
    } else {
        let prev = spec_ids_after(ids, blocks.drop_last());
        let b = blocks.last();
        if spec_tool_use_emits(prev, b) && (b matches ContentBlockV::ToolUse { id, .. }
            && id.len() > 0) {
            prev.push(b->ToolUse_id)
        } else {
            prev
        }
    }
}

/// The `ToolUse` events emitted while scanning the blocks of one
/// `assistant` envelope.
pub open spec fn spec_assistant_events(ids: Seq<Seq<char>>, blocks: Seq<ContentBlockV>) -> Seq<
    EventV,
>
    decreases blocks.len(),
{
    if blocks.len() == 0 {
        Seq::empty()
    } else {
        let evs = spec_assistant_events(ids, blocks.drop_last());
        let prev = spec_ids_after(ids, blocks.drop_last());
        let b = blocks.last();
        if spec_tool_use_emits(prev, b) {
            evs.push(
                EventV::ToolUse {
                    tool_name: b->ToolUse_name,
                    tool_input: b->ToolUse_input->0,
                },
            )
        } else {
            evs
        }
    }
}

/// The text parts of a tool result's part array, in order.
pub open spec fn spec_text_parts(ps: Seq<ResultPartV>) -> Seq<Seq<char>>
    decreases ps.len(),
{
    if ps.len() == 0 {
        Seq::empty()
    } else {
        let rest = spec_text_parts(ps.drop_last());
        match ps.last() {
            ResultPartV::Text(s) => rest.push(s),
            ResultPartV::Other => rest,
        }
    }
}

/// Texts joined with a newline between each pair.
pub open spec fn spec_join_lines(xs: Seq<Seq<char>>) -> Seq<char>
    decreases xs.len(),
{
    if xs.len() == 0 {
        Seq::empty()
    } else if xs.len() == 1 {
        xs[0]
    } else {
        spec_join_lines(xs.drop_last()) + seq!['\n'] + xs.last()
    }
}

/// The textual output extracted from a tool-result content: a plain string
/// as it is; an array of parts as its text parts joined with newlines;
/// missing content as empty.
pub open spec fn spec_output_of(c: ToolResultContentV) -> Seq<char> {
    match c {
        ToolResultContentV::Absent => Seq::empty(),
        ToolResultContentV::Text(s) => s,
        ToolResultContentV::Parts(ps) => spec_join_lines(spec_text_parts(ps)),
    }
}

/// The `ToolResult` events emitted while scanning the blocks of one `user`
/// envelope.
pub open spec fn spec_user_events(blocks: Seq<ContentBlockV>) -> Seq<EventV>
    decreases blocks.len(),
{
    if blocks.len() == 0 {
        Seq::empty()
    } else {
        let evs = spec_user_events(blocks.drop_last());
        match blocks.last() {
            ContentBlockV::ToolResult { tool_use_id, content } => evs.push(
                EventV::ToolResult { tool_name: tool_use_id, output: spec_output_of(content) },
            ),
            _ => evs,
        }
    }
}

/// The decoder's state: text accumulated from stream deltas, the final
/// result text captured from a terminal envelope, the tool-use identifiers
/// already emitted, and whether the terminal envelope has been seen.
pub struct DecoderState {
    pub streamed: String,
    pub final_result: String,
    pub emitted_tool_ids: Vec<String>,
    pub done: bool,
}

/// The mathematical image of the decoder's state.
pub struct DecoderStateV {
    pub streamed: Seq<char>,
    pub final_result: Seq<char>,
    pub emitted_tool_ids: Seq<Seq<char>>,
    pub done: bool,
}

impl DeepView for DecoderState {
    type V = DecoderStateV;

    open spec fn deep_view(&self) -> DecoderStateV {
        DecoderStateV {
            streamed: self.streamed@,
            final_result: self.final_result@,
            emitted_tool_ids: self.emitted_tool_ids.deep_view(),
            done: self.done,
        }
    }
}

/// The decoder's state before any envelope.
pub open spec fn spec_initial_state() -> DecoderStateV {
    DecoderStateV {
        streamed: Seq::empty(),
        final_result: Seq::empty(),
        emitted_tool_ids: Seq::empty(),
        done: false,
    }
}

/// The decoder's state after one envelope.
pub open spec fn spec_step_state(s: DecoderStateV, e: EnvelopeV) -> DecoderStateV {
    match e {
        EnvelopeV::Assistant { blocks } => DecoderStateV {
            emitted_tool_ids: spec_ids_after(s.emitted_tool_ids, blocks),
            ..s
        },
        EnvelopeV::User { blocks } => s,
        EnvelopeV::StreamEvent { delta_text } => match delta_text {
            Some(t) => if t.len() > 0 {
                DecoderStateV { streamed: s.streamed + t, ..s }
            } else {
                s
            },
            None => s,
        },
        EnvelopeV::ResultEnvelope { result } => DecoderStateV {
            final_result: match result {
                Some(r) => r,
                None => s.final_result,
            },
            done: true,
            ..s
        },
        EnvelopeV::Other => s,
        EnvelopeV::Malformed => s,
    }
}

/// The events emitted for one envelope.
pub open spec fn spec_step_events(s: DecoderStateV, e: EnvelopeV) -> Seq<EventV> {
    match e {
        EnvelopeV::Assistant { blocks } => spec_assistant_events(s.emitted_tool_ids, blocks),
        EnvelopeV::User { blocks } => spec_user_events(blocks),
        EnvelopeV::StreamEvent { delta_text } => match delta_text {
            Some(t) => if t.len() > 0 {
                seq![EventV::AssistantChunk { content: t }]
            } else {
                Seq::empty()
            },
            None => Seq::empty(),
        },
        EnvelopeV::ResultEnvelope { result } => Seq::empty(),
        EnvelopeV::Other => Seq::empty(),
        EnvelopeV::Malformed => Seq::empty(),
    }
}

/// The decoder's state after a whole sequence of envelopes, read in order;
/// envelopes after the terminal one are never consumed.
pub open spec fn spec_run_state(s: DecoderStateV, envs: Seq<EnvelopeV>) -> DecoderStateV
    decreases envs.len(),
{
    if envs.len() == 0 {
        s
    } else {
        let prev = spec_run_state(s, envs.drop_last());
        if prev.done {
            prev
        } else {
            spec_step_state(prev, envs.last())
        }
    }
}

/// All events emitted over a whole sequence of envelopes, in order.
pub open spec fn spec_run_events(s: DecoderStateV, envs: Seq<EnvelopeV>) -> Seq<EventV>
    decreases envs.len(),
{
    if envs.len() == 0 {
        Seq::empty()
    } else {
        let evs = spec_run_events(s, envs.drop_last());
        let prev = spec_run_state(s, envs.drop_last());
        if prev.done {
            evs
        } else {
            evs + spec_step_events(prev, envs.last())
        }
    }
}

fn contains_string(ids: &Vec<String>, id: &String) -> (r: bool)
    ensures
        r == spec_contains_id(ids.deep_view(), id@),
{
    let mut k: usize = 0;
    while k < ids.len()
        invariant
            0 <= k <= ids@.len(),
            forall|j: int| 0 <= j < k ==> ids.deep_view()[j] != id@,
        decreases ids@.len() - k,
    {
        proof {
            assert(ids.deep_view()[k as int] == ids@[k as int]@);
        }
        if ids[k].eq(id) {
            return true;
        }
        k = k + 1;
    }
    false
}

fn join_parts(ps: &Vec<ResultPart>) -> (r: String)
    ensures
        r@ == spec_join_lines(spec_text_parts(ps.deep_view())),
{
    let mut texts: Vec<&String> = Vec::new();
    let mut i: usize = 0;
    while i < ps.len()
        invariant
            0 <= i <= ps@.len(),
            texts.deep_view() =~= spec_text_parts(ps.deep_view().take(i as int)),
        decreases ps@.len() - i,
    {
        proof {
            let pv = ps.deep_view();
            assert(pv.take(i + 1).drop_last() =~= pv.take(i as int));
            assert(pv.take(i + 1).last() == pv[i as int]);
        }
        match &ps[i] {
            ResultPart::Text(t) => {
                texts.push(t);
            },
            ResultPart::Other => {},
        }
        i = i + 1;
    }
    proof {
        assert(ps.deep_view().take(ps@.len() as int) =~= ps.deep_view());
    }
    let mut out = String::new();
    let mut k: usize = 0;
    while k < texts.len()
        invariant
            0 <= k <= texts@.len(),
            texts.deep_view() == spec_text_parts(ps.deep_view()),
            out@ == spec_join_lines(texts.deep_view().take(k as int)),
        decreases texts@.len() - k,
    {
        proof {
            reveal_strlit("\n");
            let tv = texts.deep_view();
            assert(tv.take(k + 1).drop_last() =~= tv.take(k as int));
            assert(tv.take(k + 1).last() == tv[k as int]);
            assert(tv.take(k + 1)[0] == tv[0]);
        }
        if k == 0 {
            out = texts[0].clone();
        } else {
            out.append("\n");
            out.append(texts[k].as_str());
        }
        k = k + 1;
    }
    proof {
        assert(texts.deep_view().take(texts@.len() as int) =~= texts.deep_view());
    }
    out
}

impl DecoderState {
    /// A fresh decoder for one request.
    pub fn new() -> (r: DecoderState)
        ensures
            r.deep_view() == spec_initial_state(),
    {
        let r = DecoderState {
            streamed: String::new(),
            final_result: String::new(),
            emitted_tool_ids: Vec::new(),
            done: false,
        };
        proof {
            assert(r.deep_view().emitted_tool_ids =~= Seq::<Seq<char>>::empty());
            assert(r.deep_view() =~= spec_initial_state());
        }
        r
    }

    /// Consumes one envelope: updates the accumulated text, the captured
    /// final result and the emitted tool-use identifiers, and returns the
    /// events this envelope produces, in order.
    pub fn step(&mut self, env: &Envelope) -> (events: Vec<DesignChatStreamEvent>)
        ensures
            final(self).deep_view() == spec_step_state(old(self).deep_view(), env.deep_view()),
            events.deep_view() == spec_step_events(old(self).deep_view(), env.deep_view()),
    {
        let mut events: Vec<DesignChatStreamEvent> = Vec::new();
        match env {
            Envelope::Assistant { blocks } => {
                let ghost ids0 = old(self).deep_view().emitted_tool_ids;
                let ghost bv = blocks.deep_view();
                let mut i: usize = 0;
                while i < blocks.len()
                    invariant
                        0 <= i <= blocks@.len(),
                        bv == blocks.deep_view(),
                        self.emitted_tool_ids.deep_view() == spec_ids_after(ids0, bv.take(i as int)),
                        events.deep_view() =~= spec_assistant_events(ids0, bv.take(i as int)),
                        self.streamed == old(self).streamed,
                        self.final_result == old(self).final_result,
                        self.done == old(self).done,
                    decreases blocks@.len() - i,
                {
                    proof {
                        assert(bv.take(i + 1).drop_last() =~= bv.take(i as int));
                        assert(bv.take(i + 1).last() == bv[i as int]);
                    }
                    match &blocks[i] {
                        ContentBlock::ToolUse { id, name, input } => {
                            match input {
                                Some(inp) => {
                                    let id_empty = id.as_str().unicode_len() == 0;
                                    if id_empty || !contains_string(&self.emitted_tool_ids, id) {
                                        if !id_empty {
                                            self.emitted_tool_ids.push(id.clone());
                                            proof {
                                                assert(self.emitted_tool_ids.deep_view()
                                                    =~= spec_ids_after(ids0, bv.take(i as int)).push(
                                                    id@,
                                                ));
                                            }
                                        }
                                        events.push(
                                            DesignChatStreamEvent::ToolUse {
                                                tool_name: name.clone(),
                                                tool_input: inp.clone(),
                                            },
                                        );
                                    }
                                },
                                None => {},
                            }
                        },
                        ContentBlock::ToolResult { .. } => {},
                        ContentBlock::Other => {},
                    }
                    i = i + 1;
                }
                proof {
                    assert(bv.take(blocks@.len() as int) =~= bv);
                }
            },
            Envelope::User { blocks } => {
                let ghost bv = blocks.deep_view();
                let mut i: usize = 0;
                while i < blocks.len()
                    invariant
                        0 <= i <= blocks@.len(),
                        bv == blocks.deep_view(),
                        events.deep_view() =~= spec_user_events(bv.take(i as int)),
                        self.deep_view() == old(self).deep_view(),
                    decreases blocks@.len() - i,
                {
                    proof {
                        assert(bv.take(i + 1).drop_last() =~= bv.take(i as int));
                        assert(bv.take(i + 1).last() == bv[i as int]);
                    }
                    match &blocks[i] {
                        ContentBlock::ToolResult { tool_use_id, content } => {
                            let output = match content {
                                ToolResultContent::Absent => String::new(),
                                ToolResultContent::Text(s) => s.clone(),
                                ToolResultContent::Parts(ps) => join_parts(ps),
                            };
                            events.push(
                                DesignChatStreamEvent::ToolResult {
                                    tool_name: tool_use_id.clone(),
                                    output,
                                },
                            );
                        },
                        ContentBlock::ToolUse { .. } => {},
                        ContentBlock::Other => {},
                    }
                    i = i + 1;
                }
                proof {
                    assert(bv.take(blocks@.len() as int) =~= bv);
                }
            },
            Envelope::StreamEvent { delta_text } => {
                match delta_text {
                    Some(t) => {
                        if t.as_str().unicode_len() > 0 {
                            events.push(
                                DesignChatStreamEvent::AssistantChunk { content: t.clone() },
                            );
                            self.streamed.append(t.as_str());
                        }
                    },
                    None => {},
                }
            },
            Envelope::ResultEnvelope { result } => {
                match result {
                    Some(r) => {
                        self.final_result = r.clone();
                    },
                    None => {},
                }
                self.done = true;
            },
            Envelope::Other => {},
            Envelope::Malformed => {},
        }
        proof {
            if events.deep_view().len() == 0 {
                assert(events.deep_view() =~= Seq::<EventV>::empty());
            }
        }
        events
    }

    /// Feeds a whole sequence of envelopes through a fresh decoder, as the
    /// read loop does, stopping at the terminal envelope. Returns the final
    /// state and all events in emission order.
    pub fn decode_all(envs: &Vec<Envelope>) -> (r: (DecoderState, Vec<DesignChatStreamEvent>))
        ensures
            r.0.deep_view() == spec_run_state(spec_initial_state(), envs.deep_view()),
            r.1.deep_view() == spec_run_events(spec_initial_state(), envs.deep_view()),
    {
        let mut state = DecoderState::new();
        let mut events: Vec<DesignChatStreamEvent> = Vec::new();
        let ghost ev = envs.deep_view();
        let mut i: usize = 0;
        while i < envs.len()
            invariant
                0 <= i <= envs@.len(),
                ev == envs.deep_view(),
                state.deep_view() == spec_run_state(spec_initial_state(), ev.take(i as int)),
                events.deep_view() =~= spec_run_events(spec_initial_state(), ev.take(i as int)),
            decreases envs@.len() - i,
        {
            proof {
                assert(ev.take(i + 1).drop_last() =~= ev.take(i as int));
                assert(ev.take(i + 1).last() == ev[i as int]);
            }
            if !state.done {
                let mut evs = state.step(&envs[i]);
                let ghost evs_v = evs.deep_view();
                let ghost before = events.deep_view();
                events.append(&mut evs);
                proof {
                    assert(events.deep_view() =~= before + evs_v);
                }
            }
            i = i + 1;
        }
        proof {
            assert(ev.take(envs@.len() as int) =~= ev);
        }
        (state, events)
    }
}

} // verus!
