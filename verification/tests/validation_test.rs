use struct_llm::derive::{
    check_derive_input, derive_structured_output, struct_schema_json, Attribute, Data, DeriveInput,
    Field, Fields, Meta, MetaValue, TypeExpr,
};
use struct_llm::json::parse_json;
use struct_llm::{parse_tool_response, Error, Json, JsonError, JsonNumber, StructuredOutput, ToolCall};

#[derive(Debug)]
struct ValidatedOutput {
    name: String,
    age: u32,
    email: String,
}

fn string_field(arguments: &Json, key: &str) -> Result<String, Error> {
    match arguments.get(key) {
        Some(Json::String(s)) => Ok(s.clone()),
        _ => Err(Error::Json(JsonError::data(format!("invalid or missing field `{}`", key)))),
    }
}

impl StructuredOutput for ValidatedOutput {
    fn tool_name() -> &'static str {
        "test_validation"
    }

    fn tool_description() -> &'static str {
        "Test validation"
    }

    fn json_schema() -> Json {
        let field = |name: &str, ty: &str| Field { name: name.to_string(), ty: TypeExpr::named(ty) };
        let input = DeriveInput {
            ident: "ValidatedOutput".to_string(),
            attrs: vec![Attribute {
                path: "structured_output".to_string(),
                metas: vec![
                    Meta { path: "name".to_string(), value: MetaValue::Str("test_validation".to_string()) },
                    Meta { path: "description".to_string(), value: MetaValue::Str("Test validation".to_string()) },
                ],
            }],
            data: Data::Struct(Fields::Named(vec![
                field("name", "String"),
                field("age", "u32"),
                field("email", "String"),
            ])),
        };
        assert_eq!(check_derive_input(&input), None);
        struct_schema_json(&derive_structured_output(&input).schema, &vec![])
    }

    fn from_arguments(arguments: &Json) -> Result<Self, Error> {
        let age = match arguments.get("age") {
            Some(Json::Number(JsonNumber::PosInt(n))) if *n <= u32::MAX as u64 => *n as u32,
            _ => return Err(Error::Json(JsonError::data("invalid or missing field `age`".to_string()))),
        };
        Ok(ValidatedOutput {
            name: string_field(arguments, "name")?,
            age,
            email: string_field(arguments, "email")?,
        })
    }
}

fn call(name: &str, arguments: &str) -> ToolCall {
    ToolCall {
        id: "test_123".to_string(),
        name: name.to_string(),
        arguments: parse_json(arguments).unwrap(),
    }
}

#[test]
fn test_validation_success() {
    let tool_call = call(
        "test_validation",
        r#"{"name": "Alice", "age": 30, "email": "alice@example.com"}"#,
    );

    let result: ValidatedOutput = parse_tool_response(&tool_call).unwrap();
    assert_eq!(result.name, "Alice");
    assert_eq!(result.age, 30);
    assert_eq!(result.email, "alice@example.com");
}

#[test]
fn test_validation_missing_required() {
    let tool_call = call("test_validation", r#"{"name": "Alice", "email": "alice@example.com"}"#);

    let result: Result<ValidatedOutput, _> = parse_tool_response(&tool_call);
    assert!(result.is_err());

    // Should fail during validation (missing required field)
    let err = result.unwrap_err();
    assert!(matches!(err, Error::ValidationFailed(_)));
}

#[test]
fn test_validation_wrong_type() {
    let tool_call = call(
        "test_validation",
        r#"{"name": "Alice", "age": "thirty", "email": "alice@example.com"}"#,
    );

    let result: Result<ValidatedOutput, _> = parse_tool_response(&tool_call);
    assert!(result.is_err());

    // Should fail during validation (wrong type)
    let err = result.unwrap_err();
    assert!(matches!(err, Error::ValidationFailed(_)));
}

#[test]
fn test_validation_tool_mismatch() {
    let tool_call = call(
        "wrong_tool_name",
        r#"{"name": "Alice", "age": 30, "email": "alice@example.com"}"#,
    );

    let result: Result<ValidatedOutput, _> = parse_tool_response(&tool_call);
    assert!(result.is_err());

    // Should fail with tool mismatch
    let err = result.unwrap_err();
    assert!(matches!(err, Error::ToolMismatch(_, _)));
}

#[test]
fn test_valid_arguments_may_still_fail_to_read() {
    // The schema says "integer"; the value does not fit the field's type.
    let tool_call = call(
        "test_validation",
        r#"{"name": "Alice", "age": -1, "email": "alice@example.com"}"#,
    );
    let result: Result<ValidatedOutput, _> = parse_tool_response(&tool_call);
    assert!(matches!(result, Err(Error::Json(_))));
}

#[test]
fn test_tool_definition_of_type() {
    let definition = ValidatedOutput::tool_definition();
    assert_eq!(definition.name, "test_validation");
    assert_eq!(definition.description, "Test validation");
    assert_eq!(definition.parameters, ValidatedOutput::json_schema());
}

#[test]
fn test_parse_passes_on_validation_message() {
    let tool_call = call("test_validation", r#"{"name": "Alice", "email": "a@b.c"}"#);
    let result: Result<ValidatedOutput, _> = parse_tool_response(&tool_call);
    match result {
        Err(Error::ValidationFailed(m)) => assert_eq!(m, "Missing required property: age"),
        other => panic!("unexpected outcome: {:?}", other),
    }
}

#[test]
fn test_tool_call_clone() {
    let tool_call = call("test_validation", r#"{"name": "Alice"}"#);
    let copy = tool_call.clone();
    assert_eq!(copy.name, tool_call.name);
    assert_eq!(copy.arguments, tool_call.arguments);
}
