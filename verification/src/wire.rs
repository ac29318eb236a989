//! Reading envelopes off the wire: one line of the agent's output is parsed
//! as JSON and classified into an [`Envelope`](crate::protocol::Envelope).
//!
//! The JSON parsing itself is done by serde_json behind trusted wrappers; a
//! parsed value is opaque here, so the classification walks it through those
//! wrappers and everything downstream of the resulting envelope is verified
//! against the decoder's exact contracts.

use vstd::prelude::*;

use crate::protocol::ContentBlock;
use crate::protocol::Envelope;
use crate::protocol::ResultPart;
use crate::protocol::ToolResultContent;

verus! {

#[verifier::external_type_specification]
#[verifier::external_body]
pub struct ExValue(serde_json::Value);

/// Relies on serde_json::from_str: parses one line as a JSON value, or
/// nothing when the line is not valid JSON.
#[verifier::external_body]
fn jv_parse(s: &str) -> Option<serde_json::Value> {
    serde_json::from_str(s).ok()
}

/// Relies on serde_json::Value::get: the field of an object under a key, or
/// nothing when the value is no object or has no such field.
#[verifier::external_body]
fn jv_get<'a>(v: &'a serde_json::Value, key: &str) -> Option<&'a serde_json::Value> {
    v.get(key)
}

/// Relies on serde_json::Value::as_str: the owned text of a JSON string, or
/// nothing when the value is no string.
#[verifier::external_body]
fn jv_as_string(v: &serde_json::Value) -> Option<String> {
    v.as_str().map(|s| s.to_string())
}

/// Relies on serde_json::Value::as_array: the elements of a JSON array, or
/// nothing when the value is no array.
#[verifier::external_body]
fn jv_as_array(v: &serde_json::Value) -> Option<&Vec<serde_json::Value>> {
    v.as_array()
}

/// Relies on serde_json::Value::is_null: whether the value is JSON null.
#[verifier::external_body]
fn jv_is_null(v: &serde_json::Value) -> bool {
    v.is_null()
}

/// Relies on serde_json::Value's Display: the value rendered back as
/// compact JSON text.
#[verifier::external_body]
fn jv_to_text(v: &serde_json::Value) -> String {
    v.to_string()
}

fn field_string(v: &serde_json::Value, key: &str) -> Option<String> {
    match jv_get(v, key) {
        Some(f) => jv_as_string(f),
        None => None,
    }
}

fn tool_use_block(block: &serde_json::Value) -> ContentBlock {
    let id = match field_string(block, "id") {
        Some(s) => s,
        None => String::new(),
    };
    let name = match field_string(block, "name") {
        Some(s) => s,
        None => String::from_str("unknown"),
    };
    let input = match jv_get(block, "input") {
        Some(inp) => if jv_is_null(inp) {
            None
        } else {
            Some(jv_to_text(inp))
        },
        None => None,
    };
    ContentBlock::ToolUse { id, name, input }
}

fn tool_result_block(block: &serde_json::Value) -> ContentBlock {
    let tool_use_id = match field_string(block, "tool_use_id") {
        Some(s) => s,
        None => String::from_str("unknown"),
    };
    let content = match jv_get(block, "content") {
        Some(c) => {
            match jv_as_string(c) {
                Some(s) => ToolResultContent::Text(s),
                None => {
                    match jv_as_array(c) {
                        Some(items) => {
                            let mut parts: Vec<ResultPart> = Vec::new();
                            let mut i: usize = 0;
                            while i < items.len()
                                decreases items@.len() - i,
                            {
                                let item = &items[i];
                                let is_text = match field_string(item, "type") {
                                    Some(t) => t.eq(&String::from_str("text")),
                                    None => false,
                                };
                                if is_text {
                                    match field_string(item, "text") {
                                        Some(t) => parts.push(ResultPart::Text(t)),
                                        None => parts.push(ResultPart::Other),
                                    }
                                } else {
                                    parts.push(ResultPart::Other);
                                }
                                i = i + 1;
                            }
                            ToolResultContent::Parts(parts)
                        },
                        None => ToolResultContent::Absent,
                    }
                },
            }
        },
        None => ToolResultContent::Absent,
    };
    ContentBlock::ToolResult { tool_use_id, content }
}

fn message_blocks(v: &serde_json::Value) -> Vec<ContentBlock> {
    let mut blocks: Vec<ContentBlock> = Vec::new();
    let content = match jv_get(v, "message") {
        Some(message) => jv_get(message, "content"),
        None => None,
    };
    match content {
        Some(c) => {
            match jv_as_array(c) {
                Some(items) => {
                    let mut i: usize = 0;
                    while i < items.len()
                        decreases items@.len() - i,
                    {
                        let item = &items[i];
                        let block_type = field_string(item, "type");
                        let block = match block_type {
                            Some(t) => if t.eq(&String::from_str("tool_use")) {
                                tool_use_block(item)
                            } else if t.eq(&String::from_str("tool_result")) {
                                tool_result_block(item)
                            } else {
                                ContentBlock::Other
                            },
                            None => ContentBlock::Other,
                        };
                        blocks.push(block);
                        i = i + 1;
                    }
                },
                None => {},
            }
        },
        None => {},
    }
    blocks
}

fn stream_delta_text(v: &serde_json::Value) -> Option<String> {
    let event = match jv_get(v, "event") {
        Some(e) => e,
        None => {
            return None;
        },
    };
    let is_delta = match field_string(event, "type") {
        Some(t) => t.eq(&String::from_str("content_block_delta")),
        None => false,
    };
    if !is_delta {
        return None;
    }
    match jv_get(event, "delta") {
        Some(delta) => field_string(delta, "text"),
        None => None,
    }
}

/// Classifies one raw output line. A line that is not a JSON object with a
/// `type` field is malformed and will be skipped by the decoder; an
/// envelope of an unknown type is kept as `Other` for forward
/// compatibility. The decoder's exact contracts take over from the
/// returned envelope; what this classification reads out of a concrete
/// line is exercised by the test suite.
pub fn parse_envelope(line: &str) -> Envelope {
    let v = match jv_parse(line) {
        Some(v) => v,
        None => {
            return Envelope::Malformed;
        },
    };
    let env_type = match field_string(&v, "type") {
        Some(t) => t,
        None => {
            return Envelope::Malformed;
        },
    };
    if env_type.eq(&String::from_str("assistant")) {
        Envelope::Assistant { blocks: message_blocks(&v) }
    } else if env_type.eq(&String::from_str("user")) {
        Envelope::User { blocks: message_blocks(&v) }
    } else if env_type.eq(&String::from_str("stream_event")) {
        Envelope::StreamEvent { delta_text: stream_delta_text(&v) }
    } else if env_type.eq(&String::from_str("result")) {
        Envelope::ResultEnvelope { result: field_string(&v, "result") }
    } else {
        Envelope::Other
    }
}

} // verus!
