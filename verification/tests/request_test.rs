use struct_llm::{
    build_enforced_tool_request, build_request_with_tools, Json, Message, Provider, SchemaBuilder,
    ToolDefinition,
};

fn text(s: &str) -> Json {
    Json::String(s.to_string())
}

fn object(entries: Vec<(&str, Json)>) -> Json {
    Json::Object(entries.into_iter().map(|(k, v)| (k.to_string(), v)).collect())
}

fn answer_tool() -> ToolDefinition {
    ToolDefinition {
        name: "final_answer".to_string(),
        description: "The answer".to_string(),
        parameters: SchemaBuilder::string(),
    }
}

fn messages() -> Vec<Message> {
    vec![Message::system("Be brief"), Message::user("Hi")]
}

fn message_json(role: &str, content: &str) -> Json {
    object(vec![("role", text(role)), ("content", text(content))])
}

#[test]
fn test_request_without_tools() {
    let request = build_request_with_tools(&messages(), &[], Provider::OpenAI);
    assert_eq!(
        request,
        object(vec![(
            "messages",
            Json::Array(vec![message_json("system", "Be brief"), message_json("user", "Hi")])
        )])
    );
    assert_eq!(request.get("tools"), None);
}

#[test]
fn test_openai_request_tools() {
    let request = build_request_with_tools(&messages(), &[answer_tool()], Provider::OpenAI);
    let tools = request.get("tools").unwrap().as_array().unwrap();
    assert_eq!(tools.len(), 1);
    assert_eq!(
        tools[0],
        object(vec![
            ("type", text("function")),
            (
                "function",
                object(vec![
                    ("name", text("final_answer")),
                    ("description", text("The answer")),
                    ("parameters", SchemaBuilder::string()),
                ])
            ),
        ])
    );
}

#[test]
fn test_anthropic_request_tools() {
    let request = build_request_with_tools(&messages(), &[answer_tool()], Provider::Anthropic);
    let tools = request.get("tools").unwrap().as_array().unwrap();
    assert_eq!(
        tools[0],
        object(vec![
            ("name", text("final_answer")),
            ("description", text("The answer")),
            ("input_schema", SchemaBuilder::string()),
        ])
    );
    assert_eq!(request.get("messages").unwrap().as_array().unwrap().len(), 2);
}

#[test]
fn test_local_request_is_openai_request() {
    let tools = [answer_tool()];
    assert_eq!(
        build_request_with_tools(&messages(), &tools, Provider::Local),
        build_request_with_tools(&messages(), &tools, Provider::OpenAI)
    );
    assert_eq!(
        build_enforced_tool_request(&messages(), &answer_tool(), Provider::Local),
        build_enforced_tool_request(&messages(), &answer_tool(), Provider::OpenAI)
    );
}

#[test]
fn test_enforced_openai_request() {
    let request = build_enforced_tool_request(&messages(), &answer_tool(), Provider::OpenAI);
    assert_eq!(
        request.get("tool_choice"),
        Some(&object(vec![
            ("type", text("function")),
            ("function", object(vec![("name", text("final_answer"))])),
        ]))
    );
    assert_eq!(request.get("tools").unwrap().as_array().unwrap().len(), 1);
}

#[test]
fn test_enforced_anthropic_request() {
    let request = build_enforced_tool_request(&[], &answer_tool(), Provider::Anthropic);
    assert_eq!(
        request.get("tool_choice"),
        Some(&object(vec![("type", text("tool")), ("name", text("final_answer"))]))
    );
    assert_eq!(request.get("messages"), Some(&Json::Array(vec![])));
}
