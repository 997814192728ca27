use struct_llm::{Error, Json, Provider, StreamParser, ToolDelta};

fn text(s: &str) -> Json {
    Json::String(s.to_string())
}

fn feed(parser: &mut StreamParser, chunks: &[&str]) -> Vec<ToolDelta> {
    let mut deltas = Vec::new();
    for chunk in chunks {
        if let Some(delta) = parser.parse_chunk(chunk).unwrap() {
            deltas.push(delta);
        }
    }
    deltas
}

#[test]
fn test_openai_streaming() {
    let mut parser = StreamParser::new(Provider::OpenAI);

    // Simulate OpenAI SSE chunks
    let chunks = vec![
        r#"data: {"choices":[{"delta":{"tool_calls":[{"id":"call_123","function":{"name":"test_tool"}}]}}]}"#,
        r#"data: {"choices":[{"delta":{"tool_calls":[{"function":{"arguments":"{"}}]}}]}"#,
        r#"data: {"choices":[{"delta":{"tool_calls":[{"function":{"arguments":"\"key\": \"value\""}}]}}]}"#,
        r#"data: {"choices":[{"delta":{"tool_calls":[{"function":{"arguments":"}"}}]}}]}"#,
        "data: [DONE]",
    ];

    let deltas = feed(&mut parser, &chunks);

    // Check we got the expected deltas
    assert!(matches!(deltas[0], ToolDelta::Start { .. }));
    assert!(matches!(deltas[1], ToolDelta::Arguments { .. }));
    assert!(matches!(deltas.last(), Some(ToolDelta::End)));

    // Finalize and check result
    let tool_call = parser.finalize().unwrap();
    assert_eq!(tool_call.name, "test_tool");
    assert_eq!(tool_call.id, "call_123");
}

#[test]
fn test_anthropic_streaming() {
    let mut parser = StreamParser::new(Provider::Anthropic);

    // Simulate Anthropic SSE chunks
    let chunks = vec![
        r#"data: {"type":"content_block_start","content_block":{"type":"tool_use","id":"toolu_123","name":"test_tool"}}"#,
        r#"data: {"type":"content_block_delta","delta":{"type":"input_json_delta","partial_json":"{\"key\": "}}"#,
        r#"data: {"type":"content_block_delta","delta":{"type":"input_json_delta","partial_json":"\"value\"}"}}"#,
        r#"data: {"type":"content_block_stop"}"#,
    ];

    let deltas = feed(&mut parser, &chunks);

    // Check we got the expected deltas
    assert!(matches!(deltas[0], ToolDelta::Start { .. }));
    assert!(matches!(deltas[1], ToolDelta::Arguments { .. }));
    assert!(matches!(deltas.last(), Some(ToolDelta::End)));

    // Finalize and check result
    let tool_call = parser.finalize().unwrap();
    assert_eq!(tool_call.name, "test_tool");
    assert_eq!(tool_call.id, "toolu_123");
    assert_eq!(tool_call.arguments.get("key"), Some(&text("value")));
}

#[test]
fn test_openai_deltas_carry_their_text() {
    let mut parser = StreamParser::new(Provider::OpenAI);
    let deltas = feed(
        &mut parser,
        &[
            r#"data: {"choices":[{"delta":{"tool_calls":[{"id":"c","function":{"name":"n","arguments":"ignored"}}]}}]}"#,
            r#"data: {"choices":[{"delta":{"tool_calls":[{"function":{"arguments":"[1,"}}]}}]}"#,
            r#"data: {"choices":[{"delta":{"tool_calls":[{"function":{"arguments":""}}]}}]}"#,
            r#"data: {"choices":[{"delta":{"tool_calls":[{"function":{"arguments":"2]"}}]}}]}"#,
            "data: [DONE]",
        ],
    );
    assert_eq!(deltas.len(), 4);
    match &deltas[0] {
        ToolDelta::Start { id, name } => {
            assert_eq!(id, "c");
            assert_eq!(name, "n");
        }
        other => panic!("unexpected delta: {:?}", other),
    }
    match &deltas[1] {
        ToolDelta::Arguments { delta } => assert_eq!(delta, "[1,"),
        other => panic!("unexpected delta: {:?}", other),
    }
    let call = parser.finalize().unwrap();
    assert_eq!(
        call.arguments,
        Json::Array(vec![
            Json::Number(struct_llm::JsonNumber::PosInt(1)),
            Json::Number(struct_llm::JsonNumber::PosInt(2))
        ])
    );
}

#[test]
fn test_openai_ignored_chunks() {
    let mut parser = StreamParser::new(Provider::OpenAI);
    assert!(parser.parse_chunk("data: [DONE]").unwrap().is_none());
    assert!(parser.parse_chunk(": keep-alive").unwrap().is_none());
    assert!(parser.parse_chunk("").unwrap().is_none());
    assert!(parser.parse_chunk(r#"data: {"choices":[]}"#).unwrap().is_none());
    assert!(parser.parse_chunk(r#"data: {"choices":[{"delta":{"content":"hi"}}]}"#).unwrap().is_none());
    assert!(matches!(parser.parse_chunk("data: {oops"), Err(Error::Json(_))));
    match parser.finalize() {
        Err(Error::InvalidResponseFormat(m)) => assert_eq!(m, "Tool call stream not completed"),
        other => panic!("unexpected outcome: {:?}", other),
    }
}

#[test]
fn test_chunks_are_trimmed() {
    let mut parser = StreamParser::new(Provider::OpenAI);
    let start = "  \n data: {\"choices\":[{\"delta\":{\"tool_calls\":[{\"id\":\"c\",\"function\":{\"name\":\"n\"}}]}}]}\n\n";
    assert!(matches!(parser.parse_chunk(start).unwrap(), Some(ToolDelta::Start { .. })));
    assert!(matches!(parser.parse_chunk("\tdata: [DONE]\n").unwrap(), Some(ToolDelta::End)));
    let call = parser.finalize().unwrap();
    assert_eq!(call.arguments, Json::Object(vec![]));
}

#[test]
fn test_local_reads_as_openai() {
    let mut parser = StreamParser::new(Provider::Local);
    let deltas = feed(
        &mut parser,
        &[
            r#"data: {"choices":[{"delta":{"tool_calls":[{"id":"l","function":{"name":"local"}}]}}]}"#,
            "data: [DONE]",
        ],
    );
    assert_eq!(deltas.len(), 2);
    let call = parser.finalize().unwrap();
    assert_eq!(call.id, "l");
    assert_eq!(call.name, "local");
}

#[test]
fn test_unreadable_arguments_fail_finalize() {
    let mut parser = StreamParser::new(Provider::Anthropic);
    feed(
        &mut parser,
        &[
            r#"data: {"type":"content_block_start","content_block":{"type":"tool_use","id":"t","name":"n"}}"#,
            r#"data: {"type":"content_block_delta","delta":{"type":"input_json_delta","partial_json":"{\"a\":"}}"#,
            r#"data: {"type":"message_stop"}"#,
        ],
    );
    assert!(matches!(parser.finalize(), Err(Error::Json(_))));
}

#[test]
fn test_anthropic_events() {
    let mut parser = StreamParser::new(Provider::Anthropic);
    // Events before a tool starts end nothing.
    assert!(parser.parse_chunk(r#"data: {"type":"content_block_stop"}"#).unwrap().is_none());
    assert!(parser.parse_chunk(r#"data: {"type":"message_stop"}"#).unwrap().is_none());
    assert!(parser.parse_chunk(r#"data: {"type":"ping"}"#).unwrap().is_none());
    assert!(parser
        .parse_chunk(r#"data: {"type":"content_block_start","content_block":{"type":"text"}}"#)
        .unwrap()
        .is_none());
    assert!(parser
        .parse_chunk(r#"data: {"type":"content_block_delta","delta":{"type":"text_delta","text":"x"}}"#)
        .unwrap()
        .is_none());
    assert!(matches!(parser.parse_chunk(r#"data: {"no_type":1}"#), Err(Error::Json(_))));
    assert!(parser.parse_chunk("event: message_start").unwrap().is_none());

    // A tool use block without id or name starts with empty ones.
    match parser
        .parse_chunk(r#"data: {"type":"content_block_start","content_block":{"type":"tool_use"}}"#)
        .unwrap()
    {
        Some(ToolDelta::Start { id, name }) => {
            assert_eq!(id, "");
            assert_eq!(name, "");
        }
        other => panic!("unexpected delta: {:?}", other),
    }
    assert!(matches!(
        parser.parse_chunk(r#"data: {"type":"content_block_stop"}"#).unwrap(),
        Some(ToolDelta::End)
    ));
    // Once complete, a message stop adds nothing.
    assert!(parser.parse_chunk(r#"data: {"type":"message_stop"}"#).unwrap().is_none());
    let call = parser.finalize().unwrap();
    assert_eq!(call.id, "");
    assert_eq!(call.arguments, Json::Object(vec![]));
}

#[test]
fn test_anthropic_events_written_as_arrays() {
    let mut parser = StreamParser::new(Provider::Anthropic);
    let deltas = feed(
        &mut parser,
        &[
            r#"data: ["content_block_start", ["tool_use", "t9", "arr"]]"#,
            r#"data: ["content_block_delta", null, ["input_json_delta", "{}"]]"#,
            r#"data: ["content_block_stop"]"#,
        ],
    );
    assert_eq!(deltas.len(), 3);
    let call = parser.finalize().unwrap();
    assert_eq!(call.id, "t9");
    assert_eq!(call.name, "arr");
    assert_eq!(call.arguments, Json::Object(vec![]));
}

#[test]
fn test_anthropic_event_shape_messages() {
    let mut parser = StreamParser::new(Provider::Anthropic);
    let message = |r: Result<Option<ToolDelta>, Error>| match r {
        Err(Error::Json(e)) => e.message,
        other => panic!("unexpected outcome: {:?}", other),
    };
    assert_eq!(message(parser.parse_chunk(r#"data: {"no_type": 1}"#)), "missing field `type`");
    assert_eq!(
        message(parser.parse_chunk(r#"data: ["a", null, null, null]"#)),
        "invalid length: expected struct AnthropicEvent with at most 3 elements"
    );
    assert_eq!(
        message(parser.parse_chunk(r#"data: {"type": "content_block_start", "content_block": {"type": "tool_use", "id": 1}}"#)),
        "invalid type: expected a string or null"
    );
    assert_eq!(message(parser.parse_chunk("data: 3")), "invalid type: expected struct AnthropicEvent");
}
