//! Provider-specific adapters for different model APIs.
use vstd::prelude::*;
use crate::json::{Json, JsonView, views, lemma_array_view, lemma_object_view, entry_views};
use crate::tool::{ToolDefinition, ToolDefinitionView};
use crate::{Message, MessageView};

verus! {

/// Supported model API providers.
#[derive(Debug, Clone, Copy, PartialEq, Eq, Structural)]
pub enum Provider {
    /// OpenAI API
    OpenAI,
    /// Anthropic API
    Anthropic,
    /// Local or generic OpenAI-compatible API
    Local,
}

/// Different tool definition formats used by providers.
#[derive(Debug, Clone, Copy, PartialEq, Eq, Structural)]
pub enum ToolFormat {
    /// `{ "type": "function", "function": { "name": ..., "parameters": ... } }`
    OpenAI,
    /// `{ "name": ..., "description": ..., "input_schema": ... }`
    Anthropic,
}

/// The tool format of a provider: a local model speaks OpenAI's format.
pub open spec fn format_of(provider: Provider) -> ToolFormat {
    match provider {
        Provider::Anthropic => ToolFormat::Anthropic,
        _ => ToolFormat::OpenAI,
    }
}

impl Provider {
    /// Returns the expected format for tool definitions.
    pub fn tool_format(&self) -> (r: ToolFormat)
        ensures
            r == format_of(*self),
    {
        match self {
            Provider::OpenAI | Provider::Local => ToolFormat::OpenAI,
            Provider::Anthropic => ToolFormat::Anthropic,
        }
    }
}

/// A message in a request: `{"role": .., "content": ..}`.
pub open spec fn message_json(m: MessageView) -> JsonView {
    JsonView::Object(seq![("role"@, JsonView::Str(m.role)), ("content"@, JsonView::Str(m.content))])
}

/// A tool in OpenAI's format:
/// `{"type": "function", "function": {"name", "description", "parameters"}}`.
pub open spec fn openai_tool_json(t: ToolDefinitionView) -> JsonView {
    JsonView::Object(
        seq![
            ("type"@, JsonView::Str("function"@)),
            (
                "function"@,
                JsonView::Object(
                    seq![
                        ("name"@, JsonView::Str(t.name)),
                        ("description"@, JsonView::Str(t.description)),
                        ("parameters"@, t.parameters),
                    ],
                ),
            ),
        ],
    )
}

/// A tool in Anthropic's format: `{"name", "description", "input_schema"}`.
pub open spec fn anthropic_tool_json(t: ToolDefinitionView) -> JsonView {
    JsonView::Object(
        seq![
            ("name"@, JsonView::Str(t.name)),
            ("description"@, JsonView::Str(t.description)),
            ("input_schema"@, t.parameters),
        ],
    )
}

/// A tool in the given format.
pub open spec fn tool_json(format: ToolFormat, t: ToolDefinitionView) -> JsonView {
    match format {
        ToolFormat::OpenAI => openai_tool_json(t),
        ToolFormat::Anthropic => anthropic_tool_json(t),
    }
}

/// The views of a sequence of messages.
pub open spec fn message_views(messages: Seq<Message>) -> Seq<MessageView> {
    Seq::new(messages.len(), |i: int| messages[i]@)
}

/// The views of a sequence of tool definitions.
pub open spec fn definition_views(tools: Seq<ToolDefinition>) -> Seq<ToolDefinitionView> {
    Seq::new(tools.len(), |i: int| tools[i]@)
}

/// A request body: `{"messages": [..]}`, with `"tools": [..]` in the given
/// format when there are tools.
pub open spec fn request_json(
    messages: Seq<MessageView>,
    tools: Seq<ToolDefinitionView>,
    format: ToolFormat,
) -> JsonView {
    let entry = ("messages"@, JsonView::Array(messages.map_values(|m: MessageView| message_json(m))));
    if tools.len() == 0 {
        JsonView::Object(seq![entry])
    } else {
        JsonView::Object(
            seq![
                entry,
                (
                    "tools"@,
                    JsonView::Array(
                        tools.map_values(|t: ToolDefinitionView| tool_json(format, t)),
                    ),
                ),
            ],
        )
    }
}

/// The `tool_choice` that forces a call of the tool named `name`.
pub open spec fn forced_choice(format: ToolFormat, name: Seq<char>) -> JsonView {
    match format {
        ToolFormat::OpenAI => JsonView::Object(
            seq![
                ("type"@, JsonView::Str("function"@)),
                ("function"@, JsonView::Object(seq![("name"@, JsonView::Str(name))])),
            ],
        ),
        ToolFormat::Anthropic => JsonView::Object(
            seq![("type"@, JsonView::Str("tool"@)), ("name"@, JsonView::Str(name))],
        ),
    }
}

/// A request body that offers one tool and forces the model to call it.
pub open spec fn enforced_request_json(
    messages: Seq<MessageView>,
    tool: ToolDefinitionView,
    format: ToolFormat,
) -> JsonView {
    let base = request_json(messages, seq![tool], format);
    JsonView::Object(base->Object_0.push(("tool_choice"@, forced_choice(format, tool.name))))
}

fn text_json(s: &String) -> (r: Json)
    ensures
        r@ == JsonView::Str(s@),
{
    Json::String(s.clone())
}

fn message_to_json(m: &Message) -> (r: Json)
    ensures
        r@ == message_json(m@),
{
    let mut entries: Vec<(String, Json)> = Vec::new();
    entries.push(("role".to_owned(), text_json(&m.role)));
    entries.push(("content".to_owned(), text_json(&m.content)));
    proof {
        lemma_object_view(entries);
        assert(entry_views(entries@) =~= message_json(m@)->Object_0);
    }
    Json::Object(entries)
}

fn tool_to_json(format: ToolFormat, t: &ToolDefinition) -> (r: Json)
    ensures
        r@ == tool_json(format, t@),
{
    match format {
        ToolFormat::OpenAI => {
            let mut function: Vec<(String, Json)> = Vec::new();
            function.push(("name".to_owned(), text_json(&t.name)));
            function.push(("description".to_owned(), text_json(&t.description)));
            function.push(("parameters".to_owned(), t.parameters.deep_copy()));
            proof {
                lemma_object_view(function);
            }
            let mut entries: Vec<(String, Json)> = Vec::new();
            entries.push(("type".to_owned(), Json::from_text("function")));
            entries.push(("function".to_owned(), Json::Object(function)));
            proof {
                lemma_object_view(entries);
                assert(entry_views(function@) =~= openai_tool_json(t@)->Object_0[1].1->Object_0);
                assert(entry_views(entries@) =~= openai_tool_json(t@)->Object_0);
            }
            Json::Object(entries)
        },
        ToolFormat::Anthropic => {
            let mut entries: Vec<(String, Json)> = Vec::new();
            entries.push(("name".to_owned(), text_json(&t.name)));
            entries.push(("description".to_owned(), text_json(&t.description)));
            entries.push(("input_schema".to_owned(), t.parameters.deep_copy()));
            proof {
                lemma_object_view(entries);
                assert(entry_views(entries@) =~= anthropic_tool_json(t@)->Object_0);
            }
            Json::Object(entries)
        },
    }
}

fn build_request(messages: &[Message], tools: &[ToolDefinition], format: ToolFormat) -> (r: Json)
    ensures
        r@ == request_json(message_views(messages@), definition_views(tools@), format),
{
    let mut ms: Vec<Json> = Vec::new();
    let mut i: usize = 0;
    while i < messages.len()
        invariant
            i <= messages@.len(),
            ms@.len() == i,
            forall|k: int| 0 <= k < i ==> (#[trigger] ms@[k])@ == message_json(messages@[k]@),
        decreases messages@.len() - i,
    {
        ms.push(message_to_json(&messages[i]));
        i = i + 1;
    }
    proof {
        lemma_array_view(ms);
        assert(views(ms@) =~= message_views(messages@).map_values(|m: MessageView| message_json(m)));
    }
    let mut entries: Vec<(String, Json)> = Vec::new();
    entries.push(("messages".to_owned(), Json::Array(ms)));
    if tools.len() > 0 {
        let mut ts: Vec<Json> = Vec::new();
        let mut j: usize = 0;
        while j < tools.len()
            invariant
                j <= tools@.len(),
                ts@.len() == j,
                forall|k: int| 0 <= k < j ==> (#[trigger] ts@[k])@ == tool_json(format, tools@[k]@),
            decreases tools@.len() - j,
        {
            ts.push(tool_to_json(format, &tools[j]));
            j = j + 1;
        }
        proof {
            lemma_array_view(ts);
            assert(views(ts@) =~= definition_views(tools@).map_values(
                |t: ToolDefinitionView| tool_json(format, t),
            ));
        }
        entries.push(("tools".to_owned(), Json::Array(ts)));
    }
    proof {
        lemma_object_view(entries);
        assert(entry_views(entries@) =~= request_json(
            message_views(messages@),
            definition_views(tools@),
            format,
        )->Object_0);
    }
    Json::Object(entries)
}

/// Builds an OpenAI request body.
fn build_openai_request(messages: &[Message], tools: &[ToolDefinition]) -> (r: Json)
    ensures
        r@ == request_json(message_views(messages@), definition_views(tools@), ToolFormat::OpenAI),
{
    build_request(messages, tools, ToolFormat::OpenAI)
}

/// Builds an Anthropic request body.
fn build_anthropic_request(messages: &[Message], tools: &[ToolDefinition]) -> (r: Json)
    ensures
        r@ == request_json(
            message_views(messages@),
            definition_views(tools@),
            ToolFormat::Anthropic,
        ),
{
    build_request(messages, tools, ToolFormat::Anthropic)
}

/// Helper to build request bodies with tools for different providers.
pub fn build_request_with_tools(messages: &[Message], tools: &[ToolDefinition], provider: Provider) -> (r: Json)
    ensures
        r@ == request_json(message_views(messages@), definition_views(tools@), format_of(provider)),
{
    match provider {
        Provider::OpenAI | Provider::Local => build_openai_request(messages, tools),
        Provider::Anthropic => build_anthropic_request(messages, tools),
    }
}

fn forced_choice_json(format: ToolFormat, name: &String) -> (r: Json)
    ensures
        r@ == forced_choice(format, name@),
{
    match format {
        ToolFormat::OpenAI => {
            let mut function: Vec<(String, Json)> = Vec::new();
            function.push(("name".to_owned(), text_json(name)));
            proof {
                lemma_object_view(function);
            }
            let mut entries: Vec<(String, Json)> = Vec::new();
            entries.push(("type".to_owned(), Json::from_text("function")));
            entries.push(("function".to_owned(), Json::Object(function)));
            proof {
                lemma_object_view(entries);
                assert(entry_views(function@) =~= seq![("name"@, JsonView::Str(name@))]);
                assert(entry_views(entries@) =~= forced_choice(format, name@)->Object_0);
            }
            Json::Object(entries)
        },
        ToolFormat::Anthropic => {
            let mut entries: Vec<(String, Json)> = Vec::new();
            entries.push(("type".to_owned(), Json::from_text("tool")));
            entries.push(("name".to_owned(), text_json(name)));
            proof {
                lemma_object_view(entries);
                assert(entry_views(entries@) =~= forced_choice(format, name@)->Object_0);
            }
            Json::Object(entries)
        },
    }
}

/// Build a request that enforces a call of `tool`.
///
/// The recommended approach for structured outputs: the model must call
/// the tool, so that the structured data always comes back.
pub fn build_enforced_tool_request(messages: &[Message], tool: &ToolDefinition, provider: Provider) -> (r: Json)
    ensures
        r@ == enforced_request_json(message_views(messages@), tool@, format_of(provider)),
{
    let format = provider.tool_format();
    let mut one: Vec<ToolDefinition> = Vec::new();
    one.push(tool.copy());
    assert(definition_views(one@) =~= seq![tool@]);
    let request = build_request(messages, one.as_slice(), format);
    let choice = forced_choice_json(format, &tool.name);
    match request {
        Json::Object(entries) => {
            let mut entries = entries;
            let ghost before = entry_views(entries@);
            proof {
                lemma_object_view(entries);
            }
            entries.push(("tool_choice".to_owned(), choice));
            proof {
                lemma_object_view(entries);
                assert(entry_views(entries@) =~= before.push(("tool_choice"@, forced_choice(format, tool.name@))));
            }
            Json::Object(entries)
        },
        other => other,
    }
}

/// A local model gets requests in OpenAI's format.
pub proof fn law_local_requests_as_openai(messages: Seq<MessageView>, tools: Seq<ToolDefinitionView>)
    ensures
        request_json(messages, tools, format_of(Provider::Local)) == request_json(
            messages,
            tools,
            format_of(Provider::OpenAI),
        ),
{
}

/// A request carries its messages in order, and a `"tools"` list exactly
/// when there are tools, holding each in the provider's format.
pub proof fn law_request_shape(messages: Seq<MessageView>, tools: Seq<ToolDefinitionView>, format: ToolFormat)
    ensures
        ({
            let r = request_json(messages, tools, format);
            &&& r.get("messages"@) == Some(JsonView::Array(messages.map_values(|m: MessageView| message_json(m))))
            &&& (r.get("tools"@) is Some <==> tools.len() > 0)
            &&& tools.len() > 0 ==> r.get("tools"@) == Some(
                JsonView::Array(tools.map_values(|t: ToolDefinitionView| tool_json(format, t))),
            )
        }),
{
    reveal_strlit("messages");
    reveal_strlit("tools");
    assert("messages"@.len() != "tools"@.len());
    reveal_with_fuel(crate::json::lookup, 3);
    let r = request_json(messages, tools, format);
    if tools.len() == 0 {
        assert(r->Object_0.drop_first() =~= Seq::empty());
    } else {
        assert(r->Object_0.drop_first().drop_first() =~= Seq::empty());
    }
}

/// An enforced request offers exactly the one tool, and its `"tool_choice"`
/// names that tool.
pub proof fn law_enforced_request(messages: Seq<MessageView>, tool: ToolDefinitionView, format: ToolFormat)
    ensures
        ({
            let r = enforced_request_json(messages, tool, format);
            &&& r.get("tools"@) == Some(JsonView::Array(seq![tool_json(format, tool)]))
            &&& r.get("tool_choice"@) == Some(forced_choice(format, tool.name))
            &&& r.get("messages"@) == request_json(messages, seq![tool], format).get("messages"@)
        }),
{
    reveal_strlit("messages");
    reveal_strlit("tools");
    reveal_strlit("tool_choice");
    assert("messages"@.len() != "tools"@.len());
    assert("messages"@.len() != "tool_choice"@.len());
    assert("tools"@.len() != "tool_choice"@.len());
    reveal_with_fuel(crate::json::lookup, 4);
    let r = enforced_request_json(messages, tool, format);
    let es = r->Object_0;
    assert(es.drop_first().drop_first().drop_first() =~= Seq::empty());
    assert(seq![tool].map_values(|t: ToolDefinitionView| tool_json(format, t)) =~= seq![tool_json(format, tool)]);
}

} // verus!
