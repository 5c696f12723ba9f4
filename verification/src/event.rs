//! The line protocol: one line of the agent's output, one typed event.

use crate::json::{json_parse, parse, Json, JsonTree};
use crate::text::{blank, is_blank, same_text};
use vstd::prelude::*;

verus! {

/// What one line of the agent's primary output says.
#[derive(Debug, PartialEq)]
pub enum ProtocolEvent {
    /// The run announces the session it belongs to.
    Init { session_id: String },
    /// The whole answer as it stands now; it replaces what came before.
    AssistantText { text: String },
    /// The closing answer. `subtype` is absent where the line names none.
    Result { subtype: Option<String>, result: String },
    /// Any other line, kept as it came.
    Unrecognized { raw_line: String },
}

/// The mathematical value of a [`ProtocolEvent`].
pub enum EventView {
    Init { session_id: Seq<char> },
    AssistantText { text: Seq<char> },
    Result { subtype: Option<Seq<char>>, result: Seq<char> },
    Unrecognized { raw_line: Seq<char> },
}

impl View for ProtocolEvent {
    type V = EventView;

    open spec fn view(&self) -> EventView {
        match self {
            ProtocolEvent::Init { session_id } => EventView::Init { session_id: session_id@ },
            ProtocolEvent::AssistantText { text } => EventView::AssistantText { text: text@ },
            ProtocolEvent::Result { subtype, result } => EventView::Result {
                subtype: match subtype {
                    Some(s) => Some(s@),
                    None => None,
                },
                result: result@,
            },
            ProtocolEvent::Unrecognized { raw_line } => EventView::Unrecognized {
                raw_line: raw_line@,
            },
        }
    }
}

impl Clone for ProtocolEvent {
    fn clone(&self) -> (copy: Self)
        ensures
            copy@ == self@,
    {
        match self {
            ProtocolEvent::Init { session_id } => ProtocolEvent::Init {
                session_id: session_id.clone(),
            },
            ProtocolEvent::AssistantText { text } => ProtocolEvent::AssistantText {
                text: text.clone(),
            },
            ProtocolEvent::Result { subtype, result } => ProtocolEvent::Result {
                subtype: match subtype {
                    Some(s) => Some(s.clone()),
                    None => None,
                },
                result: result.clone(),
            },
            ProtocolEvent::Unrecognized { raw_line } => ProtocolEvent::Unrecognized {
                raw_line: raw_line.clone(),
            },
        }
    }
}

/// The text that a content block carries: that of its `text` member, where
/// the block's `type` is `"text"`.
pub open spec fn block_text(block: JsonTree) -> Option<Seq<char>> {
    if block.text_member("type"@) == Some("text"@) {
        block.text_member("text"@)
    } else {
        None
    }
}

/// The text of the last block of `blocks` that carries one.
pub open spec fn last_block_text(blocks: Seq<JsonTree>) -> Option<Seq<char>>
    decreases blocks.len(),
{
    if blocks.len() == 0 {
        None
    } else {
        match block_text(blocks.last()) {
            Some(text) => Some(text),
            None => last_block_text(blocks.drop_last()),
        }
    }
}

/// The text that an assistant message carries: that of the last textual
/// block under `message.content`.
pub open spec fn assistant_text(document: JsonTree) -> Option<Seq<char>> {
    match document.member("message"@) {
        Some(message) => match message.member("content"@) {
            Some(content) => match content.as_items() {
                Some(blocks) => last_block_text(blocks),
                None => None,
            },
            None => None,
        },
        None => None,
    }
}

/// The event that a JSON document stands for, `raw_line` being the line it
/// was read from.
pub open spec fn classify_spec(document: JsonTree, raw_line: Seq<char>) -> EventView {
    let kind = document.text_member("type"@);
    if kind == Some("system"@) {
        match document.text_member("session_id"@) {
            Some(session_id) => EventView::Init { session_id },
            None => EventView::Unrecognized { raw_line },
        }
    } else if kind == Some("assistant"@) {
        match assistant_text(document) {
            Some(text) => EventView::AssistantText { text },
            None => EventView::Unrecognized { raw_line },
        }
    } else if kind == Some("result"@) {
        EventView::Result {
            subtype: document.text_member("subtype"@),
            result: match document.text_member("result"@) {
                Some(result) => result,
                None => Seq::empty(),
            },
        }
    } else {
        EventView::Unrecognized { raw_line }
    }
}

/// The event that a line stands for: none for a blank line, `Unrecognized`
/// for a line that is not JSON, else what its document says.
pub open spec fn decode_spec(line: Seq<char>) -> Option<EventView> {
    if blank(line) {
        None
    } else {
        Some(
            match json_parse(line) {
                Some(document) => classify_spec(document, line),
                None => EventView::Unrecognized { raw_line: line },
            },
        )
    }
}

/// The text of a content block, where it carries one.
fn text_of_block(block: &Json) -> (text: Option<&str>)
    ensures
        match text {
            Some(t) => block_text(block@) == Some(t@),
            None => block_text(block@) is None,
        },
{
    match block.text_member("type") {
        Some(kind) => {
            if same_text(kind, "text") {
                block.text_member("text")
            } else {
                None
            }
        },
        None => None,
    }
}

/// The text of the last block of `blocks` that carries one.
fn text_of_last_block(blocks: &Vec<Json>) -> (text: Option<&str>)
    ensures
        match text {
            Some(t) => last_block_text(blocks@.map_values(|j: Json| j@)) == Some(t@),
            None => last_block_text(blocks@.map_values(|j: Json| j@)) is None,
        },
{
    let ghost trees = blocks@.map_values(|j: Json| j@);
    let mut found: Option<&str> = None;
    let mut i: usize = 0;
    while i < blocks.len()
        invariant
            i <= blocks.len(),
            trees == blocks@.map_values(|j: Json| j@),
            match found {
                Some(t) => last_block_text(trees.take(i as int)) == Some(t@),
                None => last_block_text(trees.take(i as int)) is None,
            },
        decreases blocks.len() - i,
    {
        proof {
            let next = trees.take(i + 1);
            assert(next.last() == blocks@[i as int]@);
            assert(next.drop_last() =~= trees.take(i as int));
        }
        match text_of_block(&blocks[i]) {
            Some(t) => {
                found = Some(t);
            },
            None => {},
        }
        i += 1;
    }
    assert(trees.take(i as int) =~= trees);
    found
}

/// The text that an assistant message carries.
fn text_of_assistant(document: &Json) -> (text: Option<&str>)
    ensures
        match text {
            Some(t) => assistant_text(document@) == Some(t@),
            None => assistant_text(document@) is None,
        },
{
    match document.get("message") {
        Some(message) => match message.get("content") {
            Some(content) => match content.as_array() {
                Some(blocks) => text_of_last_block(blocks),
                None => None,
            },
            None => None,
        },
        None => None,
    }
}

/// Says which event a JSON document stands for. `raw_line` is the line the
/// document was read from; it is what an `Unrecognized` event carries.
pub fn classify(document: &Json, raw_line: &str) -> (event: ProtocolEvent)
    ensures
        event@ == classify_spec(document@, raw_line@),
{
    let unrecognized = ProtocolEvent::Unrecognized { raw_line: raw_line.to_owned() };
    match document.text_member("type") {
        None => unrecognized,
        Some(kind) => {
            if same_text(kind, "system") {
                match document.text_member("session_id") {
                    Some(id) => ProtocolEvent::Init { session_id: id.to_owned() },
                    None => unrecognized,
                }
            } else if same_text(kind, "assistant") {
                match text_of_assistant(document) {
                    Some(text) => ProtocolEvent::AssistantText { text: text.to_owned() },
                    None => unrecognized,
                }
            } else if same_text(kind, "result") {
                let subtype = match document.text_member("subtype") {
                    Some(s) => Some(s.to_owned()),
                    None => None,
                };
                let result = match document.text_member("result") {
                    Some(r) => r.to_owned(),
                    None => String::new(),
                };
                ProtocolEvent::Result { subtype, result }
            } else {
                unrecognized
            }
        },
    }
}

/// Decodes one line of the agent's output. A blank line gives no event; a
/// line that is not JSON, or whose document is of no known shape, gives
/// `Unrecognized` with the line as it came. No line is an error.
pub fn decode_line(line: &str) -> (event: Option<ProtocolEvent>)
    ensures
        match event {
            Some(e) => decode_spec(line@) == Some(e@),
            None => decode_spec(line@) is None,
        },
{
    if is_blank(line) {
        return None;
    }
    match parse(line) {
        Ok(document) => Some(classify(&document, line)),
        Err(_) => Some(ProtocolEvent::Unrecognized { raw_line: line.to_owned() }),
    }
}

/// The view of what `decode_line` returned.
pub open spec fn decoded(event: Option<ProtocolEvent>) -> Option<EventView> {
    match event {
        Some(e) => Some(e@),
        None => None,
    }
}

/// Decoding is a function of the line: whatever two calls of `decode_line`
/// on the same line return, they return the same event.
pub proof fn law_decode_again(
    line: Seq<char>,
    first: Option<ProtocolEvent>,
    second: Option<ProtocolEvent>,
)
    requires
        decoded(first) == decode_spec(line),
        decoded(second) == decode_spec(line),
    ensures
        decoded(first) == decoded(second),
{
}

/// A line that is neither blank nor JSON is never an error: it decodes to
/// `Unrecognized`, carrying the line as it came.
pub proof fn law_malformed_is_unrecognized(line: Seq<char>)
    requires
        !blank(line),
        json_parse(line) is None,
    ensures
        decode_spec(line) == Some(EventView::Unrecognized { raw_line: line }),
{
}

/// A document without a `type` that the protocol knows decodes to
/// `Unrecognized`, carrying the line as it came.
pub proof fn law_unknown_kind_is_unrecognized(document: JsonTree, raw_line: Seq<char>)
    requires
        document.text_member("type"@) != Some("system"@),
        document.text_member("type"@) != Some("assistant"@),
        document.text_member("type"@) != Some("result"@),
    ensures
        classify_spec(document, raw_line) == (EventView::Unrecognized { raw_line }),
{
}

} // verus!
