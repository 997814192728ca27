//! Structured outputs from language models through tool calls.
//!
//! An output type is offered to a model as a tool; the model calls it with
//! structured arguments; the library validates the arguments against the
//! type's JSON Schema before they become a value of the type.
use vstd::prelude::*;

pub mod decode;
pub mod derive;
pub mod error;
pub mod json;
pub mod provider;
pub mod schema;
pub mod streaming;
pub mod text;
pub mod tool;

pub use error::{Error, JsonError, Result};
pub use json::{Json, JsonNumber, JsonView};
pub use provider::{Provider, ToolFormat, build_request_with_tools, build_enforced_tool_request};
pub use schema::{SchemaBuilder, validate};
pub use streaming::{StreamParser, ToolDelta};
pub use tool::{
    ToolCall, ToolDefinition, extract_tool_calls, parse_tool_response, check_tool_call,
};

verus! {

/// Core trait for types that can be used as structured outputs of a model.
///
/// A type is offered to the model as a tool with a name, a description and
/// the JSON Schema of its arguments; the arguments of the model's call are
/// validated against that schema before `from_arguments` reads them.
///
/// The methods carry no contract of their own: what the library states of a
/// type's tool is stated of what these methods return.
pub trait StructuredOutput: Sized {
    /// Tool name used in API requests (e.g. "final_answer").
    fn tool_name() -> &'static str;

    /// Human-readable description of what this output represents.
    fn tool_description() -> &'static str;

    /// JSON Schema describing this type's structure.
    fn json_schema() -> Json;

    /// Reads a value of the type out of validated tool call arguments.
    fn from_arguments(arguments: &Json) -> Result<Self>;

    /// Complete tool definition ready for API requests: the type's tool name,
    /// description and schema, as its own methods give them.
    fn tool_definition() -> (r: ToolDefinition)
        ensures
            exists|name: &'static str, description: &'static str, schema: Json|
                {
                    &&& call_ensures(Self::tool_name, (), name)
                    &&& call_ensures(Self::tool_description, (), description)
                    &&& call_ensures(Self::json_schema, (), schema)
                    &&& r@ == (tool::ToolDefinitionView {
                        name: name@,
                        description: description@,
                        parameters: schema@,
                    })
                },
    {
        let name = Self::tool_name();
        let description = Self::tool_description();
        let schema = Self::json_schema();
        let ghost schema_view = schema@;
        let r = ToolDefinition {
            name: name.to_owned(),
            description: description.to_owned(),
            parameters: schema,
        };
        assert(r@.parameters == schema_view);
        r
    }
}

/// Message in a conversation.
#[derive(Debug, Clone)]
pub struct Message {
    pub role: String,
    pub content: String,
}

/// The view of a [`Message`].
pub struct MessageView {
    pub role: Seq<char>,
    pub content: Seq<char>,
}

impl View for Message {
    type V = MessageView;

    open spec fn view(&self) -> MessageView {
        MessageView { role: self.role@, content: self.content@ }
    }
}

impl Message {
    /// A system message.
    pub fn system(content: &str) -> (r: Message)
        ensures
            r@ == (MessageView { role: "system"@, content: content@ }),
    {
        Message { role: "system".to_owned(), content: content.to_owned() }
    }

    /// A user message.
    pub fn user(content: &str) -> (r: Message)
        ensures
            r@ == (MessageView { role: "user"@, content: content@ }),
    {
        Message { role: "user".to_owned(), content: content.to_owned() }
    }

    /// An assistant message.
    pub fn assistant(content: &str) -> (r: Message)
        ensures
            r@ == (MessageView { role: "assistant"@, content: content@ }),
    {
        Message { role: "assistant".to_owned(), content: content.to_owned() }
    }

    /// A copy of the message.
    pub fn copy(&self) -> (r: Message)
        ensures
            r@ == self@,
    {
        Message { role: self.role.clone(), content: self.content.clone() }
    }
}

} // verus!
