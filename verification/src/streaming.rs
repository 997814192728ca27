//! Streaming parser for incremental tool call parsing from SSE responses.
//!
//! Tool calls are followed in real time as they stream from a provider,
//! without waiting for the complete response.
use vstd::prelude::*;
use crate::decode::{
    text_field, optional_text_field, read_text_field, read_optional_text_field, shape_error,
    struct_error, field_of, is_shape_error, check_struct, field_at,
};
use crate::error::Error;
use crate::json::{Json, JsonView, lookup, parse_json, serde_json_reading};
use crate::provider::Provider;
use crate::text::{trim, has_prefix, trim_text, text_has_prefix, text_skip};
use crate::tool::{ToolCall, ToolCallView};

verus! {

/// Delta updates during streaming tool call construction.
#[derive(Debug, Clone)]
pub enum ToolDelta {
    /// Tool call has started
    Start { id: String, name: String },
    /// New arguments data (may be partial JSON)
    Arguments { delta: String },
    /// Tool call is complete
    End,
}

/// The view of a [`ToolDelta`].
pub enum DeltaView {
    Start { id: Seq<char>, name: Seq<char> },
    Arguments { delta: Seq<char> },
    End,
}

impl View for ToolDelta {
    type V = DeltaView;

    open spec fn view(&self) -> DeltaView {
        match self {
            ToolDelta::Start { id, name } => DeltaView::Start { id: id@, name: name@ },
            ToolDelta::Arguments { delta } => DeltaView::Arguments { delta: delta@ },
            ToolDelta::End => DeltaView::End,
        }
    }
}

/// What a parser knows: its provider, the id and name of the current tool
/// call, the arguments text gathered so far, and whether the call is complete.
pub struct ParserView {
    pub provider: Provider,
    pub id: Option<Seq<char>>,
    pub name: Option<Seq<char>>,
    pub args: Seq<char>,
    pub complete: bool,
}

impl ParserView {
    /// A fresh parser.
    pub open spec fn initial(provider: Provider) -> ParserView {
        ParserView { provider, id: None, name: None, args: Seq::empty(), complete: false }
    }

    /// The id and the name are known together, and only a started call completes.
    pub open spec fn wf(self) -> bool {
        &&& (self.id is Some <==> self.name is Some)
        &&& (self.complete ==> self.id is Some)
    }

    /// A tool call with this id and name has started.
    pub open spec fn started(self, id: Seq<char>, name: Seq<char>) -> ParserView {
        ParserView { id: Some(id), name: Some(name), ..self }
    }

    /// The arguments text grows by `delta`.
    pub open spec fn extended(self, delta: Seq<char>) -> ParserView {
        ParserView { args: self.args + delta, ..self }
    }

    /// The tool call is complete.
    pub open spec fn completed(self) -> ParserView {
        ParserView { complete: true, ..self }
    }
}

/// The JSON after the `data: ` of an SSE line.
pub open spec fn data_payload(line: Seq<char>) -> Seq<char> {
    line.skip("data: "@.len() as int)
}

/// The first tool call of the first choice's delta in an OpenAI chunk.
pub open spec fn openai_tool_call(chunk: JsonView) -> Option<JsonView> {
    match chunk.at("choices"@) {
        JsonView::Array(choices) => if choices.len() > 0 {
            match choices[0].at("delta"@) {
                JsonView::Object(delta) => match lookup(delta, "tool_calls"@) {
                    Some(calls) => calls.first_element(),
                    None => None,
                },
                _ => None,
            }
        } else {
            None
        },
        _ => None,
    }
}

/// What an OpenAI chunk does to the parser, and the delta it yields.
pub open spec fn openai_event(p: ParserView, chunk: JsonView) -> (ParserView, Option<DeltaView>) {
    match openai_tool_call(chunk) {
        None => (p, None),
        Some(call) => {
            let id = call.at("id"@).as_str();
            let name = call.at("function"@).at("name"@).as_str();
            if id is Some && name is Some {
                (p.started(id->0, name->0), Some(DeltaView::Start { id: id->0, name: name->0 }))
            } else {
                match call.at("function"@).at("arguments"@).as_str() {
                    Some(a) => if a.len() > 0 {
                        (p.extended(a), Some(DeltaView::Arguments { delta: a }))
                    } else {
                        (p, None)
                    },
                    None => (p, None),
                }
            }
        },
    }
}

/// One chunk in OpenAI's SSE format: `Err(None)` where its JSON cannot be read.
pub open spec fn openai_step(p: ParserView, chunk: Seq<char>) -> Result<(ParserView, Option<DeltaView>), Option<Seq<char>>> {
    let line = trim(chunk);
    if has_prefix(line, "data: [DONE]"@) {
        if p.id is Some {
            Ok((p.completed(), Some(DeltaView::End)))
        } else {
            Ok((p, None))
        }
    } else if !has_prefix(line, "data: "@) {
        Ok((p, None))
    } else {
        match serde_json_reading(data_payload(line)) {
            None => Err(None),
            Some(v) => Ok(openai_event(p, v)),
        }
    }
}

/// The `content_block` of an Anthropic event.
pub struct BlockView {
    pub block_type: Seq<char>,
    pub id: Option<Seq<char>>,
    pub name: Option<Seq<char>>,
}

/// The `delta` of an Anthropic event.
pub struct DeltaFieldView {
    pub delta_type: Seq<char>,
    pub partial_json: Option<Seq<char>>,
}

/// An Anthropic streaming event.
pub struct EventView {
    pub event_type: Seq<char>,
    pub content_block: Option<BlockView>,
    pub delta: Option<DeltaFieldView>,
}

/// A `content_block` read from JSON: a string `type`, and an `id` and a
/// `name` that may be absent or `null`.
pub open spec fn decode_block(v: JsonView) -> Result<BlockView, Seq<char>> {
    match struct_error(
        v,
        1,
        3,
        "invalid type: expected struct ContentBlock"@,
        "invalid length: expected struct ContentBlock with at most 3 elements"@,
    ) {
        Some(m) => Err(m),
        None => match text_field(v, 0, "type"@) {
            Err(m) => Err(m),
            Ok(t) => match optional_text_field(v, 1, "id"@) {
                Err(m) => Err(m),
                Ok(id) => match optional_text_field(v, 2, "name"@) {
                    Err(m) => Err(m),
                    Ok(name) => Ok(BlockView { block_type: t, id, name }),
                },
            },
        },
    }
}

/// A `delta` read from JSON: a string `type`, and a `partial_json` that may
/// be absent or `null`.
pub open spec fn decode_delta(v: JsonView) -> Result<DeltaFieldView, Seq<char>> {
    match struct_error(
        v,
        1,
        2,
        "invalid type: expected struct Delta"@,
        "invalid length: expected struct Delta with at most 2 elements"@,
    ) {
        Some(m) => Err(m),
        None => match text_field(v, 0, "type"@) {
            Err(m) => Err(m),
            Ok(t) => match optional_text_field(v, 1, "partial_json"@) {
                Err(m) => Err(m),
                Ok(pj) => Ok(DeltaFieldView { delta_type: t, partial_json: pj }),
            },
        },
    }
}

/// An Anthropic event read from JSON: a string `type`, and a
/// `content_block` and a `delta` that may be absent or `null`; or why it
/// cannot be read.
pub open spec fn decode_event(v: JsonView) -> Result<EventView, Seq<char>> {
    match struct_error(
        v,
        1,
        3,
        "invalid type: expected struct AnthropicEvent"@,
        "invalid length: expected struct AnthropicEvent with at most 3 elements"@,
    ) {
        Some(m) => Err(m),
        None => match text_field(v, 0, "type"@) {
            Err(m) => Err(m),
            Ok(t) => {
                let block = match field_of(v, 1, "content_block"@) {
                    None => Ok(None),
                    Some(JsonView::Null) => Ok(None),
                    Some(b) => match decode_block(b) {
                        Ok(x) => Ok(Some(x)),
                        Err(m) => Err(m),
                    },
                };
                match block {
                    Err(m) => Err(m),
                    Ok(b) => {
                        let delta = match field_of(v, 2, "delta"@) {
                            None => Ok(None),
                            Some(JsonView::Null) => Ok(None),
                            Some(d) => match decode_delta(d) {
                                Ok(x) => Ok(Some(x)),
                                Err(m) => Err(m),
                            },
                        };
                        match delta {
                            Err(m) => Err(m),
                            Ok(d) => Ok(EventView { event_type: t, content_block: b, delta: d }),
                        }
                    },
                }
            },
        },
    }
}

/// The text, or the empty text where there is none.
pub open spec fn text_or_empty(t: Option<Seq<char>>) -> Seq<char> {
    match t {
        Some(s) => s,
        None => Seq::empty(),
    }
}

/// What an Anthropic event does to the parser, and the delta it yields.
pub open spec fn anthropic_event(p: ParserView, ev: EventView) -> (ParserView, Option<DeltaView>) {
    if ev.event_type == "content_block_start"@ {
        match ev.content_block {
            Some(b) => if b.block_type == "tool_use"@ {
                let id = text_or_empty(b.id);
                let name = text_or_empty(b.name);
                (p.started(id, name), Some(DeltaView::Start { id, name }))
            } else {
                (p, None)
            },
            None => (p, None),
        }
    } else if ev.event_type == "content_block_delta"@ {
        match ev.delta {
            Some(d) => if d.delta_type == "input_json_delta"@ {
                match d.partial_json {
                    Some(a) => (p.extended(a), Some(DeltaView::Arguments { delta: a })),
                    None => (p, None),
                }
            } else {
                (p, None)
            },
            None => (p, None),
        }
    } else if ev.event_type == "content_block_stop"@ {
        if p.id is Some {
            (p.completed(), Some(DeltaView::End))
        } else {
            (p, None)
        }
    } else if ev.event_type == "message_stop"@ {
        if p.id is Some && !p.complete {
            (p.completed(), Some(DeltaView::End))
        } else {
            (p, None)
        }
    } else {
        (p, None)
    }
}

/// One chunk in Anthropic's SSE format: `Err(None)` where its JSON cannot be
/// read, `Err(Some(m))` where it is not an event, for the reason `m`.
pub open spec fn anthropic_step(p: ParserView, chunk: Seq<char>) -> Result<(ParserView, Option<DeltaView>), Option<Seq<char>>> {
    let line = trim(chunk);
    if !has_prefix(line, "data: "@) {
        Ok((p, None))
    } else {
        match serde_json_reading(data_payload(line)) {
            None => Err(None),
            Some(v) => match decode_event(v) {
                Err(m) => Err(Some(m)),
                Ok(ev) => Ok(anthropic_event(p, ev)),
            },
        }
    }
}

/// One chunk, read in the format of the parser's provider; a local model
/// streams in OpenAI's format.
pub open spec fn step(p: ParserView, chunk: Seq<char>) -> Result<(ParserView, Option<DeltaView>), Option<Seq<char>>> {
    match p.provider {
        Provider::Anthropic => anthropic_step(p, chunk),
        _ => openai_step(p, chunk),
    }
}

/// `r` and the parser's state after a chunk (`after`, from `before`) are
/// what `outcome` says: on a failure, the parser is unchanged and the error
/// is a JSON error, with the message `m` where it is `Err(Some(m))`.
pub open spec fn chunk_matches(
    before: ParserView,
    after: ParserView,
    r: Result<Option<ToolDelta>, Error>,
    outcome: Result<(ParserView, Option<DeltaView>), Option<Seq<char>>>,
) -> bool {
    match outcome {
        Err(None) => r matches Err(e) && e is Json && after == before,
        Err(Some(m)) => r matches Err(e) && is_shape_error(e, m) && after == before,
        Ok((p, d)) => r matches Ok(delta) && after == p && match delta {
            Some(x) => d == Some(x@),
            None => d is None,
        },
    }
}

/// How `finalize` ends for a parser in state `p`.
pub enum FinalView {
    /// The stream has not completed.
    NotCompleted,
    /// No tool call was seen.
    NoToolCall,
    /// The gathered arguments are not JSON.
    BadArguments,
    /// The tool call.
    Call(ToolCallView),
}

/// How `finalize` ends: an incomplete stream fails; arguments that were
/// never sent are `{}`; other arguments must be JSON.
pub open spec fn final_outcome(p: ParserView) -> FinalView {
    if !p.complete {
        FinalView::NotCompleted
    } else if p.id is None || p.name is None {
        FinalView::NoToolCall
    } else if p.args.len() == 0 {
        FinalView::Call(
            ToolCallView { id: p.id->0, name: p.name->0, arguments: JsonView::empty_object() },
        )
    } else {
        match serde_json_reading(p.args) {
            None => FinalView::BadArguments,
            Some(v) => FinalView::Call(ToolCallView { id: p.id->0, name: p.name->0, arguments: v }),
        }
    }
}

/// Parser for streaming SSE responses.
///
/// Accumulates partial data of a tool call and emits deltas as they arrive.
pub struct StreamParser {
    provider: Provider,
    state: ParserState,
}

struct ParserState {
    current_tool_id: Option<String>,
    current_tool_name: Option<String>,
    accumulated_args: String,
    is_complete: bool,
}

/// The view of an optional text.
pub open spec fn opt_view(t: Option<String>) -> Option<Seq<char>> {
    match t {
        Some(s) => Some(s@),
        None => None,
    }
}

impl View for StreamParser {
    type V = ParserView;

    closed spec fn view(&self) -> ParserView {
        ParserView {
            provider: self.provider,
            id: opt_view(self.state.current_tool_id),
            name: opt_view(self.state.current_tool_name),
            args: self.state.accumulated_args@,
            complete: self.state.is_complete,
        }
    }
}

struct ContentBlock {
    block_type: String,
    id: Option<String>,
    name: Option<String>,
}

struct DeltaField {
    delta_type: String,
    partial_json: Option<String>,
}

struct AnthropicEvent {
    event_type: String,
    content_block: Option<ContentBlock>,
    delta: Option<DeltaField>,
}

spec fn block_view(b: ContentBlock) -> BlockView {
    BlockView { block_type: b.block_type@, id: opt_view(b.id), name: opt_view(b.name) }
}

spec fn delta_field_view(d: DeltaField) -> DeltaFieldView {
    DeltaFieldView { delta_type: d.delta_type@, partial_json: opt_view(d.partial_json) }
}

spec fn event_view(e: AnthropicEvent) -> EventView {
    EventView {
        event_type: e.event_type@,
        content_block: match e.content_block {
            Some(b) => Some(block_view(b)),
            None => None,
        },
        delta: match e.delta {
            Some(d) => Some(delta_field_view(d)),
            None => None,
        },
    }
}

fn read_block(v: &Json) -> (r: Result<ContentBlock, Error>)
    ensures
        match decode_block(v@) {
            Ok(b) => r matches Ok(b2) && block_view(b2) == b,
            Err(m) => r matches Err(e) && is_shape_error(e, m),
        },
{
    check_struct(
        v,
        1,
        3,
        "invalid type: expected struct ContentBlock",
        "invalid length: expected struct ContentBlock with at most 3 elements",
    )?;
    let block_type = read_text_field(v, 0, "type")?;
    let id = read_optional_text_field(v, 1, "id")?;
    let name = read_optional_text_field(v, 2, "name")?;
    Ok(ContentBlock { block_type, id, name })
}

fn read_delta(v: &Json) -> (r: Result<DeltaField, Error>)
    ensures
        match decode_delta(v@) {
            Ok(d) => r matches Ok(d2) && delta_field_view(d2) == d,
            Err(m) => r matches Err(e) && is_shape_error(e, m),
        },
{
    check_struct(
        v,
        1,
        2,
        "invalid type: expected struct Delta",
        "invalid length: expected struct Delta with at most 2 elements",
    )?;
    let delta_type = read_text_field(v, 0, "type")?;
    let partial_json = read_optional_text_field(v, 1, "partial_json")?;
    Ok(DeltaField { delta_type, partial_json })
}

fn read_event(v: &Json) -> (r: Result<AnthropicEvent, Error>)
    ensures
        match decode_event(v@) {
            Ok(ev) => r matches Ok(e2) && event_view(e2) == ev,
            Err(m) => r matches Err(e) && is_shape_error(e, m),
        },
{
    check_struct(
        v,
        1,
        3,
        "invalid type: expected struct AnthropicEvent",
        "invalid length: expected struct AnthropicEvent with at most 3 elements",
    )?;
    let event_type = read_text_field(v, 0, "type")?;
    let content_block = match field_at(v, 1, "content_block") {
        None => None,
        Some(Json::Null) => None,
        Some(b) => Some(read_block(b)?),
    };
    let delta = match field_at(v, 2, "delta") {
        None => None,
        Some(Json::Null) => None,
        Some(d) => Some(read_delta(d)?),
    };
    Ok(AnthropicEvent { event_type, content_block, delta })
}

/// The first tool call of the first choice's delta in an OpenAI chunk.
fn first_tool_call(chunk: &Json) -> (r: Option<&Json>)
    ensures
        r is Some <==> openai_tool_call(chunk@) is Some,
        r matches Some(c) ==> openai_tool_call(chunk@) == Some(c@),
{
    let choices = match chunk.get("choices") {
        Some(c) => c,
        None => {
            return None;
        },
    };
    let choices = match choices.as_array() {
        Some(c) => c,
        None => {
            return None;
        },
    };
    if choices.len() == 0 {
        return None;
    }
    let delta = match choices[0].get("delta") {
        Some(d) => d,
        None => {
            return None;
        },
    };
    let delta = match delta.as_object() {
        Some(d) => d,
        None => {
            return None;
        },
    };
    let calls = match crate::json::lookup_entry(delta, "tool_calls") {
        Some(c) => c,
        None => {
            return None;
        },
    };
    match calls.as_array() {
        Some(calls) => if calls.len() > 0 {
            Some(&calls[0])
        } else {
            None
        },
        None => None,
    }
}

/// `value[key]` when it is a string.
fn text_at<'a>(value: &'a Json, key: &str) -> (r: Option<&'a String>)
    ensures
        r is Some <==> value@.at(key@).as_str() is Some,
        r matches Some(s) ==> value@.at(key@).as_str() == Some(s@),
{
    match value.get(key) {
        Some(v) => v.as_str(),
        None => None,
    }
}

/// `value[outer][inner]` when it is a string.
fn text_at_path<'a>(value: &'a Json, outer: &str, inner: &str) -> (r: Option<&'a String>)
    ensures
        r is Some <==> value@.at(outer@).at(inner@).as_str() is Some,
        r matches Some(s) ==> value@.at(outer@).at(inner@).as_str() == Some(s@),
{
    match value.get(outer) {
        Some(v) => text_at(v, inner),
        None => None,
    }
}

impl StreamParser {
    /// Create a new streaming parser for the specified provider.
    pub fn new(provider: Provider) -> (r: StreamParser)
        ensures
            r@ == ParserView::initial(provider),
    {
        let r = StreamParser {
            provider,
            state: ParserState {
                current_tool_id: None,
                current_tool_name: None,
                accumulated_args: String::new(),
                is_complete: false,
            },
        };
        assert(r@.args =~= Seq::<char>::empty());
        r
    }

    /// Parse a single SSE chunk and return any delta.
    ///
    /// Returns `None` if the chunk holds no tool call data, and
    /// `Some(ToolDelta)` when a tool call event occurs.
    pub fn parse_chunk(&mut self, chunk: &str) -> (r: Result<Option<ToolDelta>, Error>)
        ensures
            chunk_matches(old(self)@, final(self)@, r, step(old(self)@, chunk@)),
    {
        match self.provider {
            Provider::OpenAI => self.parse_openai_chunk(chunk),
            Provider::Anthropic => self.parse_anthropic_chunk(chunk),
            Provider::Local => self.parse_local_chunk(chunk),
        }
    }

    fn start(&mut self, id: &String, name: &String) -> (r: ToolDelta)
        ensures
            final(self)@ == old(self)@.started(id@, name@),
            r@ == (DeltaView::Start { id: id@, name: name@ }),
    {
        self.state.current_tool_id = Some(id.clone());
        self.state.current_tool_name = Some(name.clone());
        ToolDelta::Start { id: id.clone(), name: name.clone() }
    }

    fn extend(&mut self, delta: &String) -> (r: ToolDelta)
        ensures
            final(self)@ == old(self)@.extended(delta@),
            r@ == (DeltaView::Arguments { delta: delta@ }),
    {
        self.state.accumulated_args.append(delta.as_str());
        ToolDelta::Arguments { delta: delta.clone() }
    }

    fn parse_openai_chunk(&mut self, chunk: &str) -> (r: Result<Option<ToolDelta>, Error>)
        ensures
            chunk_matches(old(self)@, final(self)@, r, openai_step(old(self)@, chunk@)),
    {
        let line = trim_text(chunk);
        if text_has_prefix(line, "data: [DONE]") {
            if self.state.current_tool_id.is_some() {
                self.state.is_complete = true;
                return Ok(Some(ToolDelta::End));
            }
            return Ok(None);
        }
        if !text_has_prefix(line, "data: ") {
            return Ok(None);
        }
        proof {
            reveal_strlit("data: ");
        }
        let payload = text_skip(line, 6);
        let data = match parse_json(payload) {
            Ok(v) => v,
            Err(e) => {
                return Err(Error::Json(e));
            },
        };
        let call = match first_tool_call(&data) {
            Some(c) => c,
            None => {
                return Ok(None);
            },
        };
        match (text_at(call, "id"), text_at_path(call, "function", "name")) {
            (Some(id), Some(name)) => {
                let delta = self.start(id, name);
                return Ok(Some(delta));
            },
            _ => {},
        }
        match text_at_path(call, "function", "arguments") {
            Some(args) => {
                if !args.as_str().is_empty() {
                    let delta = self.extend(args);
                    return Ok(Some(delta));
                }
                Ok(None)
            },
            None => Ok(None),
        }
    }

    fn parse_anthropic_chunk(&mut self, chunk: &str) -> (r: Result<Option<ToolDelta>, Error>)
        ensures
            chunk_matches(old(self)@, final(self)@, r, anthropic_step(old(self)@, chunk@)),
    {
        let line = trim_text(chunk);
        if !text_has_prefix(line, "data: ") {
            return Ok(None);
        }
        proof {
            reveal_strlit("data: ");
        }
        let payload = text_skip(line, 6);
        let data = match parse_json(payload) {
            Ok(v) => v,
            Err(e) => {
                return Err(Error::Json(e));
            },
        };
        let event = read_event(&data)?;
        let ghost ev = event_view(event);
        if crate::json::string_is(&event.event_type, "content_block_start") {
            match &event.content_block {
                Some(block) => {
                    if crate::json::string_is(&block.block_type, "tool_use") {
                        let id = match &block.id {
                            Some(id) => id.clone(),
                            None => String::new(),
                        };
                        let name = match &block.name {
                            Some(name) => name.clone(),
                            None => String::new(),
                        };
                        assert(id@ == text_or_empty(ev.content_block->0.id));
                        assert(name@ == text_or_empty(ev.content_block->0.name));
                        let delta = self.start(&id, &name);
                        return Ok(Some(delta));
                    }
                },
                None => {},
            }
        } else if crate::json::string_is(&event.event_type, "content_block_delta") {
            match &event.delta {
                Some(d) => {
                    if crate::json::string_is(&d.delta_type, "input_json_delta") {
                        match &d.partial_json {
                            Some(partial) => {
                                let delta = self.extend(partial);
                                return Ok(Some(delta));
                            },
                            None => {},
                        }
                    }
                },
                None => {},
            }
        } else if crate::json::string_is(&event.event_type, "content_block_stop") {
            if self.state.current_tool_id.is_some() {
                self.state.is_complete = true;
                return Ok(Some(ToolDelta::End));
            }
        } else if crate::json::string_is(&event.event_type, "message_stop") {
            if self.state.current_tool_id.is_some() && !self.state.is_complete {
                self.state.is_complete = true;
                return Ok(Some(ToolDelta::End));
            }
        }
        Ok(None)
    }

    fn parse_local_chunk(&mut self, chunk: &str) -> (r: Result<Option<ToolDelta>, Error>)
        ensures
            chunk_matches(old(self)@, final(self)@, r, openai_step(old(self)@, chunk@)),
    {
        self.parse_openai_chunk(chunk)
    }

    /// Get the final complete tool call after streaming is done.
    pub fn finalize(self) -> (r: Result<ToolCall, Error>)
        ensures
            match final_outcome(self@) {
                FinalView::NotCompleted => r matches Err(Error::InvalidResponseFormat(m)) && m@
                    == "Tool call stream not completed"@,
                FinalView::NoToolCall => r matches Err(e) && e is NoToolCalls,
                FinalView::BadArguments => r matches Err(e) && e is Json,
                FinalView::Call(c) => r matches Ok(call) && call@ == c,
            },
            r is Ok ==> self@.complete,
            !self@.complete ==> (r matches Err(Error::InvalidResponseFormat(m)) && m@
                == "Tool call stream not completed"@),
    {
        if !self.state.is_complete {
            return Err(Error::InvalidResponseFormat("Tool call stream not completed".to_owned()));
        }
        let id = match self.state.current_tool_id {
            Some(id) => id,
            None => {
                return Err(Error::NoToolCalls);
            },
        };
        let name = match self.state.current_tool_name {
            Some(name) => name,
            None => {
                return Err(Error::NoToolCalls);
            },
        };
        let arguments = if self.state.accumulated_args.as_str().is_empty() {
            Json::empty_object()
        } else {
            match parse_json(self.state.accumulated_args.as_str()) {
                Ok(v) => v,
                Err(e) => {
                    return Err(Error::Json(e));
                },
            }
        };
        Ok(ToolCall { id, name, arguments })
    }
}

/// The text an arguments delta carries; empty for the other deltas.
pub open spec fn delta_args(d: Option<DeltaView>) -> Seq<char> {
    match d {
        Some(DeltaView::Arguments { delta }) => delta,
        _ => Seq::empty(),
    }
}

/// Feeds `chunks` to a parser in state `p`, one after the other, as a caller
/// that goes on after an error does: a chunk that fails leaves the parser as
/// it was. The final state, and the deltas yielded in order.
pub open spec fn run(p: ParserView, chunks: Seq<Seq<char>>) -> (ParserView, Seq<DeltaView>)
    decreases chunks.len(),
{
    if chunks.len() == 0 {
        (p, Seq::empty())
    } else {
        let (q, ds) = run(p, chunks.drop_last());
        match step(q, chunks[chunks.len() - 1]) {
            Err(_) => (q, ds),
            Ok((q2, d)) => (
                q2,
                match d {
                    Some(x) => ds.push(x),
                    None => ds,
                },
            ),
        }
    }
}

/// The concatenated texts of the arguments deltas among `ds`.
pub open spec fn arguments_text(ds: Seq<DeltaView>) -> Seq<char>
    decreases ds.len(),
{
    if ds.len() == 0 {
        Seq::empty()
    } else {
        arguments_text(ds.drop_last()) + delta_args(Some(ds[ds.len() - 1]))
    }
}

/// The id and name of the last start delta among `ds`.
pub open spec fn last_start(ds: Seq<DeltaView>) -> Option<(Seq<char>, Seq<char>)>
    decreases ds.len(),
{
    if ds.len() == 0 {
        None
    } else {
        match ds[ds.len() - 1] {
            DeltaView::Start { id, name } => Some((id, name)),
            _ => last_start(ds.drop_last()),
        }
    }
}

/// One chunk: the arguments grow by exactly the text of the arguments delta
/// it yields; the id and name change exactly when it yields a start delta,
/// to that delta's; an end delta comes only for a started call, and marks it
/// complete; the provider stays.
pub proof fn law_step(p: ParserView, chunk: Seq<char>)
    ensures
        step(p, chunk) matches Ok((q, d)) ==> {
            &&& q.provider == p.provider
            &&& q.args == p.args + delta_args(d)
            &&& match d {
                Some(DeltaView::Start { id, name }) => q.id == Some(id) && q.name == Some(name)
                    && q.complete == p.complete,
                Some(DeltaView::End) => q.id == p.id && q.name == p.name && p.id is Some
                    && q.complete,
                _ => q.id == p.id && q.name == p.name && q.complete == p.complete,
            }
        },
{
    match step(p, chunk) {
        Ok((q, d)) => {
            if d is None || d matches Some(DeltaView::End) || d matches Some(DeltaView::Start { .. }) {
                assert(p.args + delta_args(d) =~= p.args);
            }
        },
        Err(_) => {},
    }
}

/// A parser stays well formed: it knows an id exactly when it knows a name,
/// and completes only a started call.
pub proof fn law_step_keeps_wf(p: ParserView, chunk: Seq<char>)
    requires
        p.wf(),
    ensures
        step(p, chunk) matches Ok((q, d)) ==> q.wf(),
{
    law_step(p, chunk);
}

/// A local model's stream is read exactly as an OpenAI stream.
pub proof fn law_local_reads_as_openai(p: ParserView, chunk: Seq<char>)
    requires
        p.provider == Provider::Local,
    ensures
        step(p, chunk) == openai_step(p, chunk),
{
}

/// After any chunks, a fresh parser holds as arguments exactly the
/// concatenation of the arguments deltas it yielded, holds as id and name
/// those of the last start delta, and is well formed, so that `finalize`
/// never reports a missing tool call: it fails only for an incomplete
/// stream or arguments that are not JSON.
pub proof fn law_run(provider: Provider, chunks: Seq<Seq<char>>)
    ensures
        ({
            let (p, ds) = run(ParserView::initial(provider), chunks);
            &&& p.provider == provider
            &&& p.args == arguments_text(ds)
            &&& p.wf()
            &&& match last_start(ds) {
                Some((id, name)) => p.id == Some(id) && p.name == Some(name),
                None => p.id is None && p.name is None,
            }
            &&& !(final_outcome(p) is NoToolCall)
        }),
    decreases chunks.len(),
{
    let p0 = ParserView::initial(provider);
    if chunks.len() == 0 {
        assert(arguments_text(Seq::<DeltaView>::empty()) =~= Seq::<char>::empty());
    } else {
        law_run(provider, chunks.drop_last());
        let (q, ds) = run(p0, chunks.drop_last());
        let c = chunks[chunks.len() - 1];
        law_step(q, c);
        law_step_keeps_wf(q, c);
        match step(q, c) {
            Err(_) => {},
            Ok((q2, d)) => {
                match d {
                    Some(x) => {
                        let ds2 = ds.push(x);
                        assert(ds2.drop_last() =~= ds);
                        assert(arguments_text(ds2) == arguments_text(ds) + delta_args(Some(x)));
                        assert(q2.args =~= arguments_text(ds2));
                    },
                    None => {
                        assert(q2.args =~= q.args);
                    },
                }
            },
        }
    }
}

/// `finalize` gives a tool call only for a completed stream: a stream that
/// was cut off before its end is reported as not completed, whatever it
/// gathered; and a completed stream never lacks its tool call's id and name
/// once a call has started.
pub proof fn law_finalize_needs_completion(p: ParserView)
    ensures
        final_outcome(p) is Call ==> p.complete,
        !p.complete ==> final_outcome(p) is NotCompleted,
        final_outcome(p) matches FinalView::Call(c) ==> p.id == Some(c.id) && p.name == Some(c.name),
        p.complete && p.wf() ==> !(final_outcome(p) is NoToolCall),
{
}

/// An OpenAI (or local) chunk `data: <json>` whose first tool call carries
/// no id and name but a non-empty `arguments` text `a` yields exactly `a`, as
/// sent, as an arguments delta, and the gathered arguments grow by exactly
/// `a`; nothing else of the parser changes.
pub proof fn law_openai_arguments_chunk(p: ParserView, chunk: Seq<char>, v: JsonView, a: Seq<char>)
    requires
        p.provider != Provider::Anthropic,
        has_prefix(trim(chunk), "data: "@),
        !has_prefix(trim(chunk), "data: [DONE]"@),
        serde_json_reading(trim(chunk).skip(6)) == Some(v),
        v.at("choices"@).first_element() is Some,
        v.at("choices"@).first_element()->0.at("delta"@).at("tool_calls"@).first_element() is Some,
        ({
            let call = v.at("choices"@).first_element()->0.at("delta"@).at("tool_calls"@).first_element()->0;
            &&& !(call.at("id"@) is Str && call.at("function"@).at("name"@) is Str)
            &&& call.at("function"@).at("arguments"@) == JsonView::Str(a)
        }),
        a.len() > 0,
    ensures
        step(p, chunk) == Ok::<(ParserView, Option<DeltaView>), Option<Seq<char>>>(
            (
                ParserView { args: p.args + a, ..p },
                Some(DeltaView::Arguments { delta: a }),
            ),
        ),
{
    reveal_strlit("data: ");
    let choice = v.at("choices"@).first_element()->0;
    let delta = choice.at("delta"@);
    assert(delta is Object);
    assert(openai_tool_call(v) == delta.at("tool_calls"@).first_element());
}

} // verus!
