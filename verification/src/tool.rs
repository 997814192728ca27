//! Tool definitions, and tool calls read from provider responses.
use vstd::prelude::*;
use crate::decode::{
    text_field, field_of, struct_error, missing_field, is_shape_error, read_text_field, shape_error,
    check_struct, field_at, missing_field_error,
};
use crate::error::Error;
use crate::json::{
    Json, JsonView, lookup, lookup_entry, views, entry_views, lemma_array_view, lemma_object_view, parse_json,
    serde_json_reading, string_is,
};
use crate::provider::Provider;
use crate::schema::{valid, validate, validation_error};
use crate::StructuredOutput;

verus! {

/// Tool definition for function calling.
#[derive(Debug, Clone)]
pub struct ToolDefinition {
    /// Name of the tool
    pub name: String,
    /// Description of what the tool does
    pub description: String,
    /// JSON Schema for the tool's parameters
    pub parameters: Json,
}

/// The view of a [`ToolDefinition`].
pub struct ToolDefinitionView {
    pub name: Seq<char>,
    pub description: Seq<char>,
    pub parameters: JsonView,
}

impl View for ToolDefinition {
    type V = ToolDefinitionView;

    open spec fn view(&self) -> ToolDefinitionView {
        ToolDefinitionView {
            name: self.name@,
            description: self.description@,
            parameters: self.parameters@,
        }
    }
}

/// A tool call made by a model.
#[derive(Debug, Clone)]
pub struct ToolCall {
    /// Unique identifier for this tool call
    pub id: String,
    /// Name of the tool being called
    pub name: String,
    /// Arguments passed to the tool
    pub arguments: Json,
}

/// The view of a [`ToolCall`].
pub struct ToolCallView {
    pub id: Seq<char>,
    pub name: Seq<char>,
    pub arguments: JsonView,
}

impl View for ToolCall {
    type V = ToolCallView;

    open spec fn view(&self) -> ToolCallView {
        ToolCallView { id: self.id@, name: self.name@, arguments: self.arguments@ }
    }
}

impl ToolDefinition {
    /// A copy of the definition.
    pub fn copy(&self) -> (r: ToolDefinition)
        ensures
            r@ == self@,
    {
        ToolDefinition {
            name: self.name.clone(),
            description: self.description.clone(),
            parameters: self.parameters.deep_copy(),
        }
    }
}

impl ToolCall {
    /// A copy of the call.
    pub fn copy(&self) -> (r: ToolCall)
        ensures
            r@ == self@,
    {
        ToolCall { id: self.id.clone(), name: self.name.clone(), arguments: self.arguments.deep_copy() }
    }
}

/// The views of a sequence of tool calls.
pub open spec fn call_views(calls: Seq<ToolCall>) -> Seq<ToolCallView> {
    Seq::new(calls.len(), |i: int| calls[i]@)
}

/// How reading tool calls out of a response ends.
pub enum ExtractView {
    /// The tool calls.
    Calls(Seq<ToolCallView>),
    /// The response text is not JSON.
    Unreadable,
    /// The JSON is not of the provider's shape, for the reason given.
    Malformed(Seq<char>),
    /// An OpenAI response without choices.
    NoChoices,
    /// No tool calls in the response.
    NoToolCalls,
}

/// `r` is the outcome `outcome` describes.
pub open spec fn extract_matches(r: Result<Vec<ToolCall>, Error>, outcome: ExtractView) -> bool {
    match outcome {
        ExtractView::Calls(calls) => r matches Ok(v) && call_views(v@) == calls,
        ExtractView::Unreadable => r matches Err(e) && e is Json,
        ExtractView::Malformed(m) => r matches Err(e) && is_shape_error(e, m),
        ExtractView::NoChoices => r matches Err(Error::InvalidResponseFormat(m)) && m@
            == "No choices in response"@,
        ExtractView::NoToolCalls => r matches Err(e) && e is NoToolCalls,
    }
}

/// A function call of an OpenAI response: its arguments are JSON text.
pub struct OpenAICallView {
    pub id: Seq<char>,
    pub name: Seq<char>,
    pub arguments: Seq<char>,
}

/// `{"name": .., "arguments": ..}` (or `[name, arguments]`), both strings.
pub open spec fn decode_openai_function(v: JsonView) -> Result<(Seq<char>, Seq<char>), Seq<char>> {
    match struct_error(
        v,
        2,
        2,
        "invalid type: expected struct OpenAIFunction"@,
        "invalid length: expected struct OpenAIFunction with 2 elements"@,
    ) {
        Some(m) => Err(m),
        None => match text_field(v, 0, "name"@) {
            Err(m) => Err(m),
            Ok(name) => match text_field(v, 1, "arguments"@) {
                Err(m) => Err(m),
                Ok(arguments) => Ok((name, arguments)),
            },
        },
    }
}

/// `{"id": .., "function": ..}` (or `[id, function]`): a string and a function.
pub open spec fn decode_openai_call(v: JsonView) -> Result<OpenAICallView, Seq<char>> {
    match struct_error(
        v,
        2,
        2,
        "invalid type: expected struct OpenAIToolCall"@,
        "invalid length: expected struct OpenAIToolCall with 2 elements"@,
    ) {
        Some(m) => Err(m),
        None => match text_field(v, 0, "id"@) {
            Err(m) => Err(m),
            Ok(id) => match field_of(v, 1, "function"@) {
                None => Err(missing_field("function"@)),
                Some(f) => match decode_openai_function(f) {
                    Err(m) => Err(m),
                    Ok((name, arguments)) => Ok(OpenAICallView { id, name, arguments }),
                },
            },
        },
    }
}

/// Every element read as a function call, or why the first that cannot be
/// read cannot.
pub open spec fn decode_openai_calls(vs: Seq<JsonView>) -> Result<Seq<OpenAICallView>, Seq<char>>
    decreases vs.len(),
{
    if vs.len() == 0 {
        Ok(Seq::empty())
    } else {
        match decode_openai_calls(vs.drop_last()) {
            Err(m) => Err(m),
            Ok(cs) => match decode_openai_call(vs.last()) {
                Err(m) => Err(m),
                Ok(c) => Ok(cs.push(c)),
            },
        }
    }
}

/// A message: its `tool_calls`, which may be absent or `null`.
pub open spec fn decode_openai_message(v: JsonView) -> Result<Option<Seq<OpenAICallView>>, Seq<char>> {
    match struct_error(
        v,
        1,
        1,
        "invalid type: expected struct OpenAIMessage"@,
        "invalid length: expected struct OpenAIMessage with 1 element"@,
    ) {
        Some(m) => Err(m),
        None => match field_of(v, 0, "tool_calls"@) {
            None => Ok(None),
            Some(JsonView::Null) => Ok(None),
            Some(JsonView::Array(calls)) => match decode_openai_calls(calls) {
                Err(m) => Err(m),
                Ok(cs) => Ok(Some(cs)),
            },
            Some(_) => Err("invalid type: expected a sequence"@),
        },
    }
}

/// A choice: its `message`, which must be there.
pub open spec fn decode_openai_choice(v: JsonView) -> Result<Option<Seq<OpenAICallView>>, Seq<char>> {
    match struct_error(
        v,
        1,
        1,
        "invalid type: expected struct OpenAIChoice"@,
        "invalid length: expected struct OpenAIChoice with 1 element"@,
    ) {
        Some(m) => Err(m),
        None => match field_of(v, 0, "message"@) {
            None => Err(missing_field("message"@)),
            Some(m) => decode_openai_message(m),
        },
    }
}

/// Every element read as a choice, or why the first that cannot be read
/// cannot.
pub open spec fn decode_openai_choices(vs: Seq<JsonView>) -> Result<Seq<Option<Seq<OpenAICallView>>>, Seq<char>>
    decreases vs.len(),
{
    if vs.len() == 0 {
        Ok(Seq::empty())
    } else {
        match decode_openai_choices(vs.drop_last()) {
            Err(m) => Err(m),
            Ok(cs) => match decode_openai_choice(vs.last()) {
                Err(m) => Err(m),
                Ok(c) => Ok(cs.push(c)),
            },
        }
    }
}

/// A response: the tool calls of each of its `choices`.
pub open spec fn decode_openai_response(v: JsonView) -> Result<Seq<Option<Seq<OpenAICallView>>>, Seq<char>> {
    match struct_error(
        v,
        1,
        1,
        "invalid type: expected struct OpenAIResponse"@,
        "invalid length: expected struct OpenAIResponse with 1 element"@,
    ) {
        Some(m) => Err(m),
        None => match field_of(v, 0, "choices"@) {
            None => Err(missing_field("choices"@)),
            Some(JsonView::Array(choices)) => decode_openai_choices(choices),
            Some(_) => Err("invalid type: expected a sequence"@),
        },
    }
}

/// The arguments of a function call: its text read as JSON, or `{}` where
/// the text is not JSON.
pub open spec fn call_arguments(text: Seq<char>) -> JsonView {
    match serde_json_reading(text) {
        Some(v) => v,
        None => JsonView::empty_object(),
    }
}

/// The tool calls of an OpenAI response: those of its first choice, which
/// must hold at least one.
pub open spec fn openai_outcome(v: JsonView) -> ExtractView {
    match decode_openai_response(v) {
        Err(m) => ExtractView::Malformed(m),
        Ok(choices) => if choices.len() == 0 {
            ExtractView::NoChoices
        } else {
            match choices[0] {
                None => ExtractView::NoToolCalls,
                Some(calls) => if calls.len() == 0 {
                    ExtractView::NoToolCalls
                } else {
                    ExtractView::Calls(
                        Seq::new(
                            calls.len(),
                            |i: int|
                                ToolCallView {
                                    id: calls[i].id,
                                    name: calls[i].name,
                                    arguments: call_arguments(calls[i].arguments),
                                },
                        ),
                    )
                },
            }
        },
    }
}

/// A content block of an Anthropic response.
pub enum ContentView {
    ToolUse(ToolCallView),
    Other,
}

/// The fields of a tool use block: `{"id": .., "name": .., "input": ..}`
/// (other keys ignored) or `[id, name, input]`.
pub open spec fn decode_tool_use(w: JsonView) -> Result<ToolCallView, Seq<char>> {
    match struct_error(
        w,
        3,
        3,
        "invalid type: expected struct variant AnthropicContent::ToolUse"@,
        "invalid length: expected struct variant AnthropicContent::ToolUse with 3 elements"@,
    ) {
        Some(m) => Err(m),
        None => match text_field(w, 0, "id"@) {
            Err(m) => Err(m),
            Ok(id) => match text_field(w, 1, "name"@) {
                Err(m) => Err(m),
                Ok(name) => match field_of(w, 2, "input"@) {
                    None => Err(missing_field("input"@)),
                    Some(input) => Ok(ToolCallView { id, name, arguments: input }),
                },
            },
        },
    }
}

/// A content block, tagged by its `"type"`: an object whose `"type"` is a
/// string, or an array whose first element is; `"tool_use"` is a tool use,
/// any other tag a block of no interest (in an array, with nothing after the
/// tag).
pub open spec fn decode_anthropic_content(v: JsonView) -> Result<ContentView, Seq<char>> {
    match v {
        JsonView::Object(es) => match lookup(es, "type"@) {
            None => Err(missing_field("type"@)),
            Some(JsonView::Str(t)) => if t == "tool_use"@ {
                match decode_tool_use(v) {
                    Err(m) => Err(m),
                    Ok(c) => Ok(ContentView::ToolUse(c)),
                }
            } else {
                Ok(ContentView::Other)
            },
            Some(_) => Err("invalid type: expected variant identifier"@),
        },
        JsonView::Array(items) => if items.len() == 0 {
            Err(missing_field("type"@))
        } else {
            match items[0] {
                JsonView::Str(t) => if t == "tool_use"@ {
                    match decode_tool_use(JsonView::Array(items.drop_first())) {
                        Err(m) => Err(m),
                        Ok(c) => Ok(ContentView::ToolUse(c)),
                    }
                } else if items.len() == 1 {
                    Ok(ContentView::Other)
                } else {
                    Err("invalid length: expected unit variant AnthropicContent::Other"@)
                },
                _ => Err("invalid type: expected variant identifier"@),
            }
        },
        _ => Err("invalid type: expected internally tagged enum AnthropicContent"@),
    }
}

/// Every element read as a content block, or why the first that cannot be
/// read cannot.
pub open spec fn decode_anthropic_blocks(vs: Seq<JsonView>) -> Result<Seq<ContentView>, Seq<char>>
    decreases vs.len(),
{
    if vs.len() == 0 {
        Ok(Seq::empty())
    } else {
        match decode_anthropic_blocks(vs.drop_last()) {
            Err(m) => Err(m),
            Ok(bs) => match decode_anthropic_content(vs.last()) {
                Err(m) => Err(m),
                Ok(b) => Ok(bs.push(b)),
            },
        }
    }
}

/// A response: each of its `content` blocks.
pub open spec fn decode_anthropic_response(v: JsonView) -> Result<Seq<ContentView>, Seq<char>> {
    match struct_error(
        v,
        1,
        1,
        "invalid type: expected struct AnthropicResponse"@,
        "invalid length: expected struct AnthropicResponse with 1 element"@,
    ) {
        Some(m) => Err(m),
        None => match field_of(v, 0, "content"@) {
            None => Err(missing_field("content"@)),
            Some(JsonView::Array(blocks)) => decode_anthropic_blocks(blocks),
            Some(_) => Err("invalid type: expected a sequence"@),
        },
    }
}

/// The tool uses among `blocks`, in order.
pub open spec fn tool_uses(blocks: Seq<ContentView>) -> Seq<ToolCallView>
    decreases blocks.len(),
{
    if blocks.len() == 0 {
        Seq::empty()
    } else {
        let rest = tool_uses(blocks.drop_last());
        match blocks[blocks.len() - 1] {
            ContentView::ToolUse(c) => rest.push(c),
            ContentView::Other => rest,
        }
    }
}

/// The tool calls of an Anthropic response: its tool use blocks.
pub open spec fn anthropic_outcome(v: JsonView) -> ExtractView {
    match decode_anthropic_response(v) {
        Err(m) => ExtractView::Malformed(m),
        Ok(blocks) => if tool_uses(blocks).len() == 0 {
            ExtractView::NoToolCalls
        } else {
            ExtractView::Calls(tool_uses(blocks))
        },
    }
}

/// The tool calls of a response text in a provider's format; a local model
/// answers in OpenAI's format.
pub open spec fn extract_outcome(response: Seq<char>, provider: Provider) -> ExtractView {
    match serde_json_reading(response) {
        None => ExtractView::Unreadable,
        Some(v) => match provider {
            Provider::Anthropic => anthropic_outcome(v),
            _ => openai_outcome(v),
        },
    }
}

struct OpenAICall {
    id: String,
    name: String,
    arguments: String,
}

spec fn openai_call_view(c: OpenAICall) -> OpenAICallView {
    OpenAICallView { id: c.id@, name: c.name@, arguments: c.arguments@ }
}

spec fn openai_call_views(cs: Seq<OpenAICall>) -> Seq<OpenAICallView> {
    Seq::new(cs.len(), |i: int| openai_call_view(cs[i]))
}

spec fn opt_calls(m: Option<Vec<OpenAICall>>) -> Option<Seq<OpenAICallView>> {
    match m {
        Some(cs) => Some(openai_call_views(cs@)),
        None => None,
    }
}

fn read_openai_function(v: &Json) -> (r: Result<(String, String), Error>)
    ensures
        match decode_openai_function(v@) {
            Ok((n, a)) => r matches Ok((n2, a2)) && n2@ == n && a2@ == a,
            Err(m) => r matches Err(e) && is_shape_error(e, m),
        },
{
    check_struct(
        v,
        2,
        2,
        "invalid type: expected struct OpenAIFunction",
        "invalid length: expected struct OpenAIFunction with 2 elements",
    )?;
    let name = read_text_field(v, 0, "name")?;
    let arguments = read_text_field(v, 1, "arguments")?;
    Ok((name, arguments))
}

fn read_openai_call(v: &Json) -> (r: Result<OpenAICall, Error>)
    ensures
        match decode_openai_call(v@) {
            Ok(c) => r matches Ok(c2) && openai_call_view(c2) == c,
            Err(m) => r matches Err(e) && is_shape_error(e, m),
        },
{
    check_struct(
        v,
        2,
        2,
        "invalid type: expected struct OpenAIToolCall",
        "invalid length: expected struct OpenAIToolCall with 2 elements",
    )?;
    let id = read_text_field(v, 0, "id")?;
    let function = match field_at(v, 1, "function") {
        Some(f) => f,
        None => {
            return Err(missing_field_error("function"));
        },
    };
    let (name, arguments) = read_openai_function(function)?;
    Ok(OpenAICall { id, name, arguments })
}

fn read_openai_calls(vs: &Vec<Json>) -> (r: Result<Vec<OpenAICall>, Error>)
    ensures
        match decode_openai_calls(views(vs@)) {
            Ok(cs) => r matches Ok(out) && openai_call_views(out@) == cs,
            Err(m) => r matches Err(e) && is_shape_error(e, m),
        },
{
    let ghost vv = views(vs@);
    let mut out: Vec<OpenAICall> = Vec::new();
    let mut i: usize = 0;
    assert(vv.take(0) =~= Seq::<JsonView>::empty());
    assert(openai_call_views(out@) =~= Seq::<OpenAICallView>::empty());
    while i < vs.len()
        invariant
            i <= vs@.len(),
            vv == views(vs@),
            decode_openai_calls(vv.take(i as int)) == Ok::<Seq<OpenAICallView>, Seq<char>>(
                openai_call_views(out@),
            ),
        decreases vs@.len() - i,
    {
        let ghost before = out@;
        assert(vv.take(i + 1).drop_last() =~= vv.take(i as int));
        assert(vv.take(i + 1).last() == vv[i as int]);
        match read_openai_call(&vs[i]) {
            Ok(c) => {
                out.push(c);
                assert(openai_call_views(out@) =~= openai_call_views(before).push(openai_call_view(c)));
            },
            Err(e) => {
                proof {
                    lemma_prefix_error_calls(vv, i as int + 1);
                }
                return Err(e);
            },
        }
        i = i + 1;
    }
    assert(vv.take(vs@.len() as int) =~= vv);
    Ok(out)
}

/// An error at a prefix is the error of the whole.
proof fn lemma_prefix_error_calls(vs: Seq<JsonView>, n: int)
    requires
        0 <= n <= vs.len(),
        decode_openai_calls(vs.take(n)) is Err,
    ensures
        decode_openai_calls(vs) == decode_openai_calls(vs.take(n)),
    decreases vs.len() - n,
{
    if n < vs.len() {
        assert(vs.take(n + 1).drop_last() =~= vs.take(n));
        lemma_prefix_error_calls(vs, n + 1);
    } else {
        assert(vs.take(n) =~= vs);
    }
}

/// An error at a prefix is the error of the whole.
proof fn lemma_prefix_error_choices(vs: Seq<JsonView>, n: int)
    requires
        0 <= n <= vs.len(),
        decode_openai_choices(vs.take(n)) is Err,
    ensures
        decode_openai_choices(vs) == decode_openai_choices(vs.take(n)),
    decreases vs.len() - n,
{
    if n < vs.len() {
        assert(vs.take(n + 1).drop_last() =~= vs.take(n));
        lemma_prefix_error_choices(vs, n + 1);
    } else {
        assert(vs.take(n) =~= vs);
    }
}

/// An error at a prefix is the error of the whole.
proof fn lemma_prefix_error_blocks(vs: Seq<JsonView>, n: int)
    requires
        0 <= n <= vs.len(),
        decode_anthropic_blocks(vs.take(n)) is Err,
    ensures
        decode_anthropic_blocks(vs) == decode_anthropic_blocks(vs.take(n)),
    decreases vs.len() - n,
{
    if n < vs.len() {
        assert(vs.take(n + 1).drop_last() =~= vs.take(n));
        lemma_prefix_error_blocks(vs, n + 1);
    } else {
        assert(vs.take(n) =~= vs);
    }
}

fn read_openai_message(v: &Json) -> (r: Result<Option<Vec<OpenAICall>>, Error>)
    ensures
        match decode_openai_message(v@) {
            Ok(m) => r matches Ok(m2) && opt_calls(m2) == m,
            Err(m) => r matches Err(e) && is_shape_error(e, m),
        },
{
    check_struct(
        v,
        1,
        1,
        "invalid type: expected struct OpenAIMessage",
        "invalid length: expected struct OpenAIMessage with 1 element",
    )?;
    match field_at(v, 0, "tool_calls") {
        None => Ok(None),
        Some(Json::Null) => Ok(None),
        Some(Json::Array(calls)) => {
            proof {
                lemma_array_view(*calls);
            }
            let cs = read_openai_calls(calls)?;
            Ok(Some(cs))
        },
        Some(_) => Err(shape_error("invalid type: expected a sequence")),
    }
}

fn read_openai_choice(v: &Json) -> (r: Result<Option<Vec<OpenAICall>>, Error>)
    ensures
        match decode_openai_choice(v@) {
            Ok(m) => r matches Ok(m2) && opt_calls(m2) == m,
            Err(m) => r matches Err(e) && is_shape_error(e, m),
        },
{
    check_struct(
        v,
        1,
        1,
        "invalid type: expected struct OpenAIChoice",
        "invalid length: expected struct OpenAIChoice with 1 element",
    )?;
    match field_at(v, 0, "message") {
        Some(m) => read_openai_message(m),
        None => Err(missing_field_error("message")),
    }
}

/// The tool calls of the first choice of an OpenAI response, read from its
/// JSON; each call's arguments text is read as JSON, or as `{}` where it is
/// not JSON.
#[verifier::loop_isolation(false)]
pub fn tool_calls_from_openai(response: &Json) -> (r: Result<Vec<ToolCall>, Error>)
    ensures
        extract_matches(r, openai_outcome(response@)),
{
    check_struct(
        response,
        1,
        1,
        "invalid type: expected struct OpenAIResponse",
        "invalid length: expected struct OpenAIResponse with 1 element",
    )?;
    let choices = match field_at(response, 0, "choices") {
        Some(Json::Array(choices)) => choices,
        Some(_) => {
            return Err(shape_error("invalid type: expected a sequence"));
        },
        None => {
            return Err(missing_field_error("choices"));
        },
    };
    proof {
        lemma_array_view(*choices);
    }
    let ghost cv = views(choices@);
    let ghost mut decoded: Seq<Option<Seq<OpenAICallView>>> = Seq::empty();
    let mut first: Option<Vec<OpenAICall>> = None;
    let mut i: usize = 0;
    assert(cv.take(0) =~= Seq::<JsonView>::empty());
    while i < choices.len()
        invariant
            i <= choices@.len(),
            cv == views(choices@),
            decode_openai_choices(cv.take(i as int)) == Ok::<
                Seq<Option<Seq<OpenAICallView>>>,
                Seq<char>,
            >(decoded),
            decoded.len() == i,
            i > 0 ==> decoded[0] == opt_calls(first),
        decreases choices@.len() - i,
    {
        assert(cv.take(i + 1).drop_last() =~= cv.take(i as int));
        assert(cv.take(i + 1).last() == cv[i as int]);
        match read_openai_choice(&choices[i]) {
            Ok(m) => {
                proof {
                    decoded = decoded.push(opt_calls(m));
                }
                if i == 0 {
                    first = m;
                }
            },
            Err(e) => {
                proof {
                    lemma_prefix_error_choices(cv, i as int + 1);
                }
                return Err(e);
            },
        }
        i = i + 1;
    }
    assert(cv.take(choices@.len() as int) =~= cv);
    if choices.len() == 0 {
        return Err(Error::InvalidResponseFormat("No choices in response".to_owned()));
    }
    let calls = match first {
        Some(calls) => calls,
        None => {
            return Err(Error::NoToolCalls);
        },
    };
    if calls.len() == 0 {
        return Err(Error::NoToolCalls);
    }
    let ghost expected = openai_outcome(response@)->Calls_0;
    let mut out: Vec<ToolCall> = Vec::new();
    let mut j: usize = 0;
    while j < calls.len()
        invariant
            j <= calls@.len(),
            out@.len() == j,
            expected.len() == calls@.len(),
            forall|k: int|
                0 <= k < calls@.len() ==> #[trigger] expected[k] == (ToolCallView {
                    id: calls@[k].id@,
                    name: calls@[k].name@,
                    arguments: call_arguments(calls@[k].arguments@),
                }),
            forall|k: int| 0 <= k < j ==> (#[trigger] out@[k])@ == expected[k],
        decreases calls@.len() - j,
    {
        let c = &calls[j];
        let arguments = match parse_json(c.arguments.as_str()) {
            Ok(v) => v,
            Err(_) => Json::empty_object(),
        };
        out.push(ToolCall { id: c.id.clone(), name: c.name.clone(), arguments });
        j = j + 1;
    }
    assert(call_views(out@) =~= expected);
    Ok(out)
}

fn read_tool_use(w: &Json) -> (r: Result<ToolCall, Error>)
    ensures
        match decode_tool_use(w@) {
            Ok(c) => r matches Ok(c2) && c2@ == c,
            Err(m) => r matches Err(e) && is_shape_error(e, m),
        },
{
    check_struct(
        w,
        3,
        3,
        "invalid type: expected struct variant AnthropicContent::ToolUse",
        "invalid length: expected struct variant AnthropicContent::ToolUse with 3 elements",
    )?;
    let id = read_text_field(w, 0, "id")?;
    let name = read_text_field(w, 1, "name")?;
    let input = match field_at(w, 2, "input") {
        Some(input) => input.deep_copy(),
        None => {
            return Err(missing_field_error("input"));
        },
    };
    Ok(ToolCall { id, name, arguments: input })
}

spec fn content_view(c: Option<ToolCall>) -> ContentView {
    match c {
        Some(call) => ContentView::ToolUse(call@),
        None => ContentView::Other,
    }
}

/// The elements of `items` after the first.
fn rest_of(items: &Vec<Json>) -> (r: Json)
    requires
        items@.len() > 0,
    ensures
        r@ == JsonView::Array(views(items@).drop_first()),
{
    let mut out: Vec<Json> = Vec::new();
    let mut i: usize = 1;
    while i < items.len()
        invariant
            1 <= i <= items@.len(),
            out@.len() == i - 1,
            forall|k: int| 0 <= k < i - 1 ==> (#[trigger] out@[k])@ == items@[k + 1]@,
        decreases items@.len() - i,
    {
        out.push(items[i].deep_copy());
        i = i + 1;
    }
    proof {
        lemma_array_view(out);
        assert(views(out@) =~= views(items@).drop_first());
    }
    Json::Array(out)
}

fn read_anthropic_content(v: &Json) -> (r: Result<Option<ToolCall>, Error>)
    ensures
        match decode_anthropic_content(v@) {
            Ok(c) => r matches Ok(c2) && content_view(c2) == c,
            Err(m) => r matches Err(e) && is_shape_error(e, m),
        },
{
    match v {
        Json::Object(es) => {
            proof {
                lemma_object_view(*es);
            }
            let tag = match lookup_entry(es, "type") {
                Some(Json::String(t)) => t,
                Some(_) => {
                    return Err(shape_error("invalid type: expected variant identifier"));
                },
                None => {
                    return Err(missing_field_error("type"));
                },
            };
            if !string_is(tag, "tool_use") {
                return Ok(None);
            }
            let call = read_tool_use(v)?;
            Ok(Some(call))
        },
        Json::Array(items) => {
            proof {
                lemma_array_view(*items);
            }
            if items.len() == 0 {
                return Err(missing_field_error("type"));
            }
            let tag = match &items[0] {
                Json::String(t) => t,
                _ => {
                    return Err(shape_error("invalid type: expected variant identifier"));
                },
            };
            if string_is(tag, "tool_use") {
                let rest = rest_of(items);
                let call = read_tool_use(&rest)?;
                Ok(Some(call))
            } else if items.len() == 1 {
                Ok(None)
            } else {
                Err(shape_error("invalid length: expected unit variant AnthropicContent::Other"))
            }
        },
        _ => {
            proof {
                crate::json::lemma_view_kind(*v);
            }
            Err(shape_error("invalid type: expected internally tagged enum AnthropicContent"))
        },
    }
}

/// The tool use blocks of an Anthropic response, read from its JSON.
#[verifier::loop_isolation(false)]
pub fn tool_calls_from_anthropic(response: &Json) -> (r: Result<Vec<ToolCall>, Error>)
    ensures
        extract_matches(r, anthropic_outcome(response@)),
{
    check_struct(
        response,
        1,
        1,
        "invalid type: expected struct AnthropicResponse",
        "invalid length: expected struct AnthropicResponse with 1 element",
    )?;
    let blocks = match field_at(response, 0, "content") {
        Some(Json::Array(blocks)) => blocks,
        Some(_) => {
            return Err(shape_error("invalid type: expected a sequence"));
        },
        None => {
            return Err(missing_field_error("content"));
        },
    };
    proof {
        lemma_array_view(*blocks);
    }
    let ghost bv = views(blocks@);
    let ghost mut decoded: Seq<ContentView> = Seq::empty();
    let mut out: Vec<ToolCall> = Vec::new();
    let mut i: usize = 0;
    assert(bv.take(0) =~= Seq::<JsonView>::empty());
    while i < blocks.len()
        invariant
            i <= blocks@.len(),
            bv == views(blocks@),
            decode_anthropic_blocks(bv.take(i as int)) == Ok::<Seq<ContentView>, Seq<char>>(decoded),
            call_views(out@) == tool_uses(decoded),
        decreases blocks@.len() - i,
    {
        assert(bv.take(i + 1).drop_last() =~= bv.take(i as int));
        assert(bv.take(i + 1).last() == bv[i as int]);
        match read_anthropic_content(&blocks[i]) {
            Ok(c) => {
                let ghost before = decoded;
                proof {
                    decoded = decoded.push(content_view(c));
                    assert(decoded.drop_last() =~= before);
                }
                match c {
                    Some(call) => {
                        let ghost prev = out@;
                        out.push(call);
                        assert(call_views(out@) =~= call_views(prev).push(out@[out@.len() - 1]@)) by {
                            assert(out@ =~= prev.push(out@[out@.len() - 1]));
                        }
                    },
                    None => {},
                }
            },
            Err(e) => {
                proof {
                    lemma_prefix_error_blocks(bv, i as int + 1);
                }
                return Err(e);
            },
        }
        i = i + 1;
    }
    assert(bv.take(blocks@.len() as int) =~= bv);
    if out.len() == 0 {
        return Err(Error::NoToolCalls);
    }
    Ok(out)
}

/// Extract the tool calls of an OpenAI (or compatible) response text.
pub fn extract_openai_tool_calls(response: &str) -> (r: Result<Vec<ToolCall>, Error>)
    ensures
        extract_matches(r, extract_outcome(response@, Provider::OpenAI)),
{
    match parse_json(response) {
        Ok(v) => tool_calls_from_openai(&v),
        Err(e) => Err(Error::Json(e)),
    }
}

/// Extract the tool calls of an Anthropic response text.
pub fn extract_anthropic_tool_calls(response: &str) -> (r: Result<Vec<ToolCall>, Error>)
    ensures
        extract_matches(r, extract_outcome(response@, Provider::Anthropic)),
{
    match parse_json(response) {
        Ok(v) => tool_calls_from_anthropic(&v),
        Err(e) => Err(Error::Json(e)),
    }
}

/// Extract tool calls from an API response.
///
/// Parses the raw response text of a model API and extracts any tool calls
/// that were made. The format varies by provider.
pub fn extract_tool_calls(response: &str, provider: Provider) -> (r: Result<Vec<ToolCall>, Error>)
    ensures
        extract_matches(r, extract_outcome(response@, provider)),
{
    match provider {
        Provider::OpenAI | Provider::Local => extract_openai_tool_calls(response),
        Provider::Anthropic => extract_anthropic_tool_calls(response),
    }
}

/// Checks a tool call against the tool it should call: its name must be
/// `expected_name`, and its arguments must satisfy `schema`.
pub fn check_tool_call(tool_call: &ToolCall, expected_name: &str, schema: &Json) -> (r: Result<
    (),
    Error,
>)
    ensures
        tool_call.name@ != expected_name@ ==> (r matches Err(Error::ToolMismatch(called, expected))
            && called@ == tool_call.name@ && expected@ == expected_name@),
        tool_call.name@ == expected_name@ ==> (r is Ok <==> valid(tool_call.arguments@, schema@)),
        tool_call.name@ == expected_name@ ==> (r matches Err(e) ==> (e matches Error::ValidationFailed(
            m,
        ) && m@ == validation_error(tool_call.arguments@, schema@))),
{
    if !string_is(&tool_call.name, expected_name) {
        return Err(Error::ToolMismatch(tool_call.name.clone(), expected_name.to_owned()));
    }
    validate(&tool_call.arguments, schema)
}

/// What `parse_tool_response` gives for a tool call, where the type's tool
/// is named `name` and its schema is `schema`: a mismatch error for another
/// tool; the validator's error for arguments that do not satisfy the schema;
/// otherwise what `read` (the type's reading of the arguments) gives.
pub open spec fn parse_outcome<T>(
    tool_call: ToolCallView,
    name: Seq<char>,
    schema: JsonView,
    r: Result<T, Error>,
    read: spec_fn(Result<T, Error>) -> bool,
) -> bool {
    if tool_call.name != name {
        r matches Err(Error::ToolMismatch(called, expected)) && called@ == tool_call.name && expected@
            == name
    } else if !valid(tool_call.arguments, schema) {
        r matches Err(Error::ValidationFailed(m)) && m@ == validation_error(tool_call.arguments, schema)
    } else {
        read(r)
    }
}

/// Parse a tool call into a structured type.
///
/// Checks that the call is of the type's tool, validates its arguments
/// against the type's schema, and only then reads the value out of them.
pub fn parse_tool_response<T: StructuredOutput>(tool_call: &ToolCall) -> (r: Result<T, Error>)
    ensures
        exists|name: &'static str, schema: Json|
            {
                &&& call_ensures(T::tool_name, (), name)
                &&& call_ensures(T::json_schema, (), schema)
                &&& parse_outcome(
                    tool_call@,
                    name@,
                    schema@,
                    r,
                    |x: Result<T, Error>| call_ensures(T::from_arguments, (&tool_call.arguments,), x),
                )
            },
{
    let name = T::tool_name();
    let schema = T::json_schema();
    let ghost schema_view = schema@;
    let r = match check_tool_call(tool_call, name, &schema) {
        Ok(()) => T::from_arguments(&tool_call.arguments),
        Err(e) => Err(e),
    };
    assert(parse_outcome(
        tool_call@,
        name@,
        schema@,
        r,
        |x: Result<T, Error>| call_ensures(T::from_arguments, (&tool_call.arguments,), x),
    ));
    r
}

/// A local model's response is read exactly as an OpenAI response.
pub proof fn law_local_extracts_as_openai(response: Seq<char>)
    ensures
        extract_outcome(response, Provider::Local) == extract_outcome(response, Provider::OpenAI),
{
}

/// Text that is not JSON is reported as such, whatever the provider.
pub proof fn law_unreadable_response(response: Seq<char>, provider: Provider)
    requires
        serde_json_reading(response) is None,
    ensures
        extract_outcome(response, provider) is Unreadable,
{
}

/// Tool calls read from a response are never an empty list, whatever the
/// provider: a response without any is reported as having no tool calls.
pub proof fn law_calls_nonempty(response: Seq<char>, provider: Provider)
    ensures
        extract_outcome(response, provider) matches ExtractView::Calls(calls) ==> calls.len() > 0,
{
}

/// A list of calls decodes element by element.
proof fn lemma_calls_decoded(vs: Seq<JsonView>)
    ensures
        decode_openai_calls(vs) matches Ok(cs) ==> cs.len() == vs.len() && forall|i: int|
            0 <= i < vs.len() ==> decode_openai_call(#[trigger] vs[i]) == Ok::<OpenAICallView, Seq<char>>(cs[i]),
    decreases vs.len(),
{
    if vs.len() > 0 {
        lemma_calls_decoded(vs.drop_last());
        assert forall|i: int| 0 <= i < vs.len() - 1 implies vs.drop_last()[i] == vs[i] by {}
    }
}

/// A list of choices decodes element by element.
proof fn lemma_choices_decoded(vs: Seq<JsonView>)
    ensures
        decode_openai_choices(vs) matches Ok(cs) ==> cs.len() == vs.len() && forall|i: int|
            0 <= i < vs.len() ==> decode_openai_choice(#[trigger] vs[i]) == Ok::<
                Option<Seq<OpenAICallView>>,
                Seq<char>,
            >(cs[i]),
    decreases vs.len(),
{
    if vs.len() > 0 {
        lemma_choices_decoded(vs.drop_last());
        assert forall|i: int| 0 <= i < vs.len() - 1 implies vs.drop_last()[i] == vs[i] by {}
    }
}

/// Each call read from an OpenAI response is the call at the same place in
/// its first choice's `tool_calls`: it carries that element's own `id`, its
/// `function`'s `name`, and its `function`'s `arguments` text read as JSON
/// (`{}` where the text is not JSON); and there are as many calls as
/// elements.
pub proof fn law_openai_calls_by_index(v: JsonView)
    ensures
        openai_outcome(v) matches ExtractView::Calls(calls) ==> ({
            let choices = field_of(v, 0, "choices"@)->0->Array_0;
            let message = field_of(choices[0], 0, "message"@)->0;
            let elements = field_of(message, 0, "tool_calls"@)->0->Array_0;
            &&& calls.len() == elements.len()
            &&& forall|i: int|
                0 <= i < calls.len() ==> {
                    let function = field_of(#[trigger] elements[i], 1, "function"@)->0;
                    &&& field_of(elements[i], 0, "id"@) == Some(JsonView::Str(calls[i].id))
                    &&& field_of(function, 0, "name"@) == Some(JsonView::Str(calls[i].name))
                    &&& (field_of(function, 1, "arguments"@) matches Some(JsonView::Str(t))
                        && calls[i].arguments == match serde_json_reading(t) {
                        Some(a) => a,
                        None => JsonView::empty_object(),
                    })
                }
        }),
{
    if openai_outcome(v) is Calls {
        let choices = field_of(v, 0, "choices"@)->0->Array_0;
        lemma_choices_decoded(choices);
        let message = field_of(choices[0], 0, "message"@)->0;
        let elements = field_of(message, 0, "tool_calls"@)->0->Array_0;
        lemma_calls_decoded(elements);
        let calls = openai_outcome(v)->Calls_0;
        assert forall|i: int| 0 <= i < calls.len() implies {
            let function = field_of(#[trigger] elements[i], 1, "function"@)->0;
            &&& field_of(elements[i], 0, "id"@) == Some(JsonView::Str(calls[i].id))
            &&& field_of(function, 0, "name"@) == Some(JsonView::Str(calls[i].name))
            &&& (field_of(function, 1, "arguments"@) matches Some(JsonView::Str(t))
                && calls[i].arguments == match serde_json_reading(t) {
                Some(a) => a,
                None => JsonView::empty_object(),
            })
        } by {
            assert(decode_openai_call(elements[i]) is Ok);
        }
    }
}

} // verus!
