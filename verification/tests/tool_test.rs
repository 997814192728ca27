use struct_llm::json::parse_json;
use struct_llm::tool::{extract_anthropic_tool_calls, extract_openai_tool_calls};
use struct_llm::{check_tool_call, extract_tool_calls, Error, Json, Provider, SchemaBuilder, ToolCall};

fn text(s: &str) -> Json {
    Json::String(s.to_string())
}

#[test]
fn test_extract_openai_tool_calls() {
    let response = r#"{
        "choices": [{
            "message": {
                "tool_calls": [{
                    "id": "call_123",
                    "function": {
                        "name": "final_answer",
                        "arguments": "{\"response\": \"Hello\", \"confidence\": 0.95}"
                    }
                }]
            }
        }]
    }"#;

    let tool_calls = extract_openai_tool_calls(response).unwrap();
    assert_eq!(tool_calls.len(), 1);
    assert_eq!(tool_calls[0].id, "call_123");
    assert_eq!(tool_calls[0].name, "final_answer");
    assert_eq!(tool_calls[0].arguments.get("response"), Some(&text("Hello")));
}

#[test]
fn test_extract_anthropic_tool_calls() {
    let response = r#"{
        "content": [{
            "type": "tool_use",
            "id": "call_123",
            "name": "final_answer",
            "input": {
                "response": "Hello",
                "confidence": 0.95
            }
        }]
    }"#;

    let tool_calls = extract_anthropic_tool_calls(response).unwrap();
    assert_eq!(tool_calls.len(), 1);
    assert_eq!(tool_calls[0].id, "call_123");
    assert_eq!(tool_calls[0].name, "final_answer");
    assert_eq!(tool_calls[0].arguments.get("response"), Some(&text("Hello")));
}

#[test]
fn test_no_tool_calls() {
    let response = r#"{
        "choices": [{
            "message": {
                "content": "Just a regular response"
            }
        }]
    }"#;

    let result = extract_openai_tool_calls(response);
    assert!(result.is_err());
    assert!(matches!(result.unwrap_err(), Error::NoToolCalls));
}

#[test]
fn test_openai_null_tool_calls() {
    let response = r#"{"choices": [{"message": {"tool_calls": null}}]}"#;
    assert!(matches!(extract_openai_tool_calls(response), Err(Error::NoToolCalls)));
}

#[test]
fn test_openai_no_choices() {
    match extract_openai_tool_calls(r#"{"choices": []}"#) {
        Err(Error::InvalidResponseFormat(m)) => assert_eq!(m, "No choices in response"),
        other => panic!("unexpected outcome: {:?}", other),
    }
}

#[test]
fn test_openai_malformed() {
    assert!(matches!(extract_openai_tool_calls("not json"), Err(Error::Json(_))));
    assert!(matches!(extract_openai_tool_calls(r#"{"answers": []}"#), Err(Error::Json(_))));
    assert!(matches!(
        extract_openai_tool_calls(r#"{"choices": [{"message": {"tool_calls": [{"id": 1}]}}]}"#),
        Err(Error::Json(_))
    ));
    assert!(matches!(extract_openai_tool_calls(r#"{"choices": [{}]}"#), Err(Error::Json(_))));
}

#[test]
fn test_openai_unreadable_arguments_become_empty_object() {
    let response = r#"{"choices": [{"message": {"tool_calls": [
        {"id": "a", "function": {"name": "f", "arguments": "{not json"}},
        {"id": "b", "function": {"name": "g", "arguments": "[1]"}}
    ]}}]}"#;
    let calls = extract_openai_tool_calls(response).unwrap();
    assert_eq!(calls.len(), 2);
    assert_eq!(calls[0].arguments, Json::Object(vec![]));
    assert_eq!(calls[1].name, "g");
    assert_eq!(calls[1].arguments, parse_json("[1]").unwrap());
}

#[test]
fn test_openai_only_first_choice() {
    let response = r#"{"choices": [
        {"message": {"content": "none"}},
        {"message": {"tool_calls": [{"id": "b", "function": {"name": "g", "arguments": "{}"}}]}}
    ]}"#;
    assert!(matches!(extract_openai_tool_calls(response), Err(Error::NoToolCalls)));
}

#[test]
fn test_openai_empty_tool_call_list() {
    let response = r#"{"choices": [{"message": {"tool_calls": []}}]}"#;
    assert!(matches!(extract_openai_tool_calls(response), Err(Error::NoToolCalls)));
    assert!(matches!(extract_tool_calls(response, Provider::OpenAI), Err(Error::NoToolCalls)));
    assert!(matches!(extract_tool_calls(response, Provider::Local), Err(Error::NoToolCalls)));
}

#[test]
fn test_anthropic_keeps_tool_uses_in_order() {
    let response = r#"{"content": [
        {"type": "text", "text": "thinking"},
        {"type": "tool_use", "id": "t1", "name": "first", "input": {"a": 1}},
        {"type": "tool_use", "id": "t2", "name": "second", "input": {}}
    ]}"#;
    let calls = extract_anthropic_tool_calls(response).unwrap();
    assert_eq!(calls.len(), 2);
    assert_eq!(calls[0].name, "first");
    assert_eq!(calls[1].id, "t2");
    assert_eq!(calls[1].arguments, Json::Object(vec![]));
}

#[test]
fn test_anthropic_text_only() {
    let response = r#"{"content": [{"type": "text", "text": "hi"}]}"#;
    assert!(matches!(extract_anthropic_tool_calls(response), Err(Error::NoToolCalls)));
    assert!(matches!(extract_anthropic_tool_calls(r#"{"content": []}"#), Err(Error::NoToolCalls)));
}

#[test]
fn test_anthropic_malformed() {
    assert!(matches!(extract_anthropic_tool_calls("[]"), Err(Error::Json(_))));
    assert!(matches!(
        extract_anthropic_tool_calls(r#"{"content": [{"type": "tool_use", "id": "x"}]}"#),
        Err(Error::Json(_))
    ));
    assert!(matches!(
        extract_anthropic_tool_calls(r#"{"content": [{"text": "no type"}]}"#),
        Err(Error::Json(_))
    ));
}

#[test]
fn test_extract_by_provider() {
    let openai = r#"{"choices": [{"message": {"tool_calls": [{"id": "c", "function": {"name": "n", "arguments": "{}"}}]}}]}"#;
    let via_local = extract_tool_calls(openai, Provider::Local).unwrap();
    let via_openai = extract_tool_calls(openai, Provider::OpenAI).unwrap();
    assert_eq!(via_local.len(), 1);
    assert_eq!(via_local[0].id, via_openai[0].id);
    assert!(matches!(extract_tool_calls(openai, Provider::Anthropic), Err(Error::Json(_))));
}

fn call(name: &str, arguments: &str) -> ToolCall {
    ToolCall { id: "id".to_string(), name: name.to_string(), arguments: parse_json(arguments).unwrap() }
}

#[test]
fn test_check_tool_call() {
    let schema = SchemaBuilder::object(
        Json::Object(vec![("n".to_string(), SchemaBuilder::integer())]),
        &["n"],
    );
    assert!(check_tool_call(&call("count", r#"{"n": 3}"#), "count", &schema).is_ok());
    match check_tool_call(&call("other", r#"{"n": 3}"#), "count", &schema) {
        Err(Error::ToolMismatch(called, expected)) => {
            assert_eq!(called, "other");
            assert_eq!(expected, "count");
        }
        other => panic!("unexpected outcome: {:?}", other),
    }
    assert!(matches!(
        check_tool_call(&call("count", r#"{"n": "3"}"#), "count", &schema),
        Err(Error::ValidationFailed(_))
    ));
}

fn shape_message(r: Result<Vec<ToolCall>, Error>) -> String {
    match r {
        Err(Error::Json(e)) => {
            assert_eq!((e.line, e.column), (0, 0));
            e.message
        }
        other => panic!("unexpected outcome: {:?}", other),
    }
}

#[test]
fn test_openai_structs_written_as_arrays() {
    // A struct may be written as the array of its fields, as serde reads it.
    assert!(matches!(extract_openai_tool_calls(r#"{"choices":[[[null]]]}"#), Err(Error::NoToolCalls)));
    let calls = extract_openai_tool_calls(r#"[[[[[[ "c1", ["f", "{\"a\": 1}"] ]]]]]]"#).unwrap();
    assert_eq!(calls.len(), 1);
    assert_eq!(calls[0].id, "c1");
    assert_eq!(calls[0].name, "f");
    assert_eq!(calls[0].arguments, parse_json(r#"{"a": 1}"#).unwrap());
    assert_eq!(
        shape_message(extract_openai_tool_calls(r#"{"choices":[[]]}"#)),
        "invalid length: expected struct OpenAIChoice with 1 element"
    );
    assert_eq!(
        shape_message(extract_openai_tool_calls(r#"{"choices":[{"message":{}}, {"message": null, "x": 1}, 3]}"#)),
        "invalid type: expected struct OpenAIMessage"
    );
}

#[test]
fn test_openai_shape_messages() {
    assert_eq!(shape_message(extract_openai_tool_calls(r#"{"answers": []}"#)), "missing field `choices`");
    assert_eq!(shape_message(extract_openai_tool_calls("7")), "invalid type: expected struct OpenAIResponse");
    assert_eq!(
        shape_message(extract_openai_tool_calls(r#"{"choices": {}}"#)),
        "invalid type: expected a sequence"
    );
    assert_eq!(
        shape_message(extract_openai_tool_calls(
            r#"{"choices": [{"message": {"tool_calls": [{"id": "x", "function": {"name": "n"}}]}}]}"#
        )),
        "missing field `arguments`"
    );
    assert_eq!(
        shape_message(extract_openai_tool_calls(
            r#"{"choices": [{"message": {"tool_calls": [{"id": 5, "function": {}}]}}]}"#
        )),
        "invalid type: expected a string"
    );
}

#[test]
fn test_anthropic_blocks_written_as_arrays() {
    let response = r#"{"content": [["text"], ["tool_use", "t1", "first", {"a": 1}]]}"#;
    let calls = extract_anthropic_tool_calls(response).unwrap();
    assert_eq!(calls.len(), 1);
    assert_eq!(calls[0].id, "t1");
    assert_eq!(calls[0].name, "first");
    assert_eq!(
        shape_message(extract_anthropic_tool_calls(r#"{"content": [["text", "hi"]]}"#)),
        "invalid length: expected unit variant AnthropicContent::Other"
    );
    assert_eq!(
        shape_message(extract_anthropic_tool_calls(r#"{"content": [["tool_use", "t1", "first"]]}"#)),
        "invalid length: expected struct variant AnthropicContent::ToolUse with 3 elements"
    );
    assert_eq!(shape_message(extract_anthropic_tool_calls(r#"{"content": [[]]}"#)), "missing field `type`");
}

#[test]
fn test_anthropic_tag_must_be_a_string() {
    // serde_json reads a variant tag as a string only.
    let response = r#"{"content": [{"type": 0, "id": "t", "name": "n", "input": {}}]}"#;
    assert_eq!(
        shape_message(extract_anthropic_tool_calls(response)),
        "invalid type: expected variant identifier"
    );
    assert_eq!(
        shape_message(extract_anthropic_tool_calls(r#"{"content": [{"type": "tool_use", "id": "t", "name": "n"}]}"#)),
        "missing field `input`"
    );
}
