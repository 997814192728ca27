use struct_llm::json::parse_json;
use struct_llm::{validate, Error, Json, JsonNumber, SchemaBuilder};

fn text(s: &str) -> Json {
    Json::String(s.to_string())
}

fn object(entries: Vec<(&str, Json)>) -> Json {
    Json::Object(entries.into_iter().map(|(k, v)| (k.to_string(), v)).collect())
}

fn json(source: &str) -> Json {
    parse_json(source).unwrap()
}

fn name_age_schema() -> Json {
    SchemaBuilder::object(
        object(vec![("name", SchemaBuilder::string()), ("age", SchemaBuilder::integer())]),
        &["name"],
    )
}

#[test]
fn test_schema_builder() {
    let schema = SchemaBuilder::string();
    assert_eq!(schema.get("type"), Some(&text("string")));

    let schema = SchemaBuilder::string_enum(&["positive", "negative", "neutral"]);
    assert_eq!(schema.get("type"), Some(&text("string")));
    assert!(schema.get("enum").unwrap().as_array().is_some());
    assert_eq!(schema.get("enum").unwrap().as_array().unwrap().len(), 3);

    let schema = name_age_schema();
    assert_eq!(schema.get("type"), Some(&text("object")));
    assert!(schema.get("properties").unwrap().as_object().is_some());
    assert_eq!(schema.get("required").unwrap().as_array().unwrap().len(), 1);
}

#[test]
fn test_with_description() {
    let schema = SchemaBuilder::with_description(SchemaBuilder::string(), "A user's name");
    assert_eq!(schema.get("description"), Some(&text("A user's name")));
}

#[test]
fn test_validate_string() {
    let schema = SchemaBuilder::string();
    let value = json(r#""hello""#);

    assert!(validate(&value, &schema).is_ok());

    let invalid = json("123");
    assert!(validate(&invalid, &schema).is_err());
}

#[test]
fn test_validate_enum() {
    let schema = SchemaBuilder::string_enum(&["positive", "negative", "neutral"]);
    let value = json(r#""positive""#);

    assert!(validate(&value, &schema).is_ok());

    let invalid = json(r#""unknown""#);
    assert!(validate(&invalid, &schema).is_err());
}

#[test]
fn test_validate_integer() {
    let schema = SchemaBuilder::integer();
    let value = json("42");

    assert!(validate(&value, &schema).is_ok());

    let invalid = json("3.14");
    assert!(validate(&invalid, &schema).is_err());
}

#[test]
fn test_validate_array() {
    let schema = SchemaBuilder::array(SchemaBuilder::string());
    let value = json(r#"["a", "b", "c"]"#);

    assert!(validate(&value, &schema).is_ok());

    let invalid_type = json(r#""not an array""#);
    assert!(validate(&invalid_type, &schema).is_err());

    let invalid_items = json("[1, 2, 3]");
    assert!(validate(&invalid_items, &schema).is_err());
}

#[test]
fn test_validate_object() {
    let schema = name_age_schema();

    let value = json(r#"{"name": "Alice", "age": 30}"#);
    assert!(validate(&value, &schema).is_ok());

    // Missing required field
    let missing_required = json(r#"{"age": 30}"#);
    assert!(validate(&missing_required, &schema).is_err());

    // Wrong property type
    let wrong_type = json(r#"{"name": "Alice", "age": "thirty"}"#);
    assert!(validate(&wrong_type, &schema).is_err());
}

#[test]
fn test_validate_nested() {
    let schema = SchemaBuilder::object(
        object(vec![(
            "user",
            SchemaBuilder::object(
                object(vec![
                    ("name", SchemaBuilder::string()),
                    ("tags", SchemaBuilder::array(SchemaBuilder::string())),
                ]),
                &["name"],
            ),
        )]),
        &["user"],
    );

    let value = json(r#"{"user": {"name": "Bob", "tags": ["admin", "user"]}}"#);
    assert!(validate(&value, &schema).is_ok());

    let invalid = json(r#"{"user": {"name": "Bob", "tags": [1, 2, 3]}}"#);
    assert!(validate(&invalid, &schema).is_err());
}

fn type_only(t: &str) -> Json {
    object(vec![("type", text(t))])
}

#[test]
fn test_builder_exact_shapes() {
    assert_eq!(SchemaBuilder::number(), type_only("number"));
    assert_eq!(SchemaBuilder::integer(), type_only("integer"));
    assert_eq!(SchemaBuilder::boolean(), type_only("boolean"));
    assert_eq!(
        SchemaBuilder::string_enum(&["a", "b"]),
        object(vec![("type", text("string")), ("enum", Json::Array(vec![text("a"), text("b")]))])
    );
    assert_eq!(
        SchemaBuilder::array(SchemaBuilder::boolean()),
        object(vec![("type", text("array")), ("items", type_only("boolean"))])
    );
    assert_eq!(
        name_age_schema(),
        object(vec![
            ("type", text("object")),
            (
                "properties",
                object(vec![("name", type_only("string")), ("age", type_only("integer"))]),
            ),
            ("required", Json::Array(vec![text("name")])),
        ])
    );
}

#[test]
fn test_description_replaces_and_skips_non_objects() {
    let once = SchemaBuilder::with_description(SchemaBuilder::string(), "first");
    assert_eq!(once, object(vec![("type", text("string")), ("description", text("first"))]));
    let twice = SchemaBuilder::with_description(once, "second");
    assert_eq!(twice, object(vec![("type", text("string")), ("description", text("second"))]));

    let not_object = SchemaBuilder::with_description(text("plain"), "ignored");
    assert_eq!(not_object, text("plain"));
}

#[test]
fn test_description_keeps_validity() {
    let schema = SchemaBuilder::with_description(SchemaBuilder::integer(), "a count");
    assert!(validate(&json("7"), &schema).is_ok());
    assert!(validate(&json("7.5"), &schema).is_err());
}

#[test]
fn test_number_admits_integers_and_floats() {
    let schema = SchemaBuilder::number();
    assert!(validate(&json("1"), &schema).is_ok());
    assert!(validate(&json("-1"), &schema).is_ok());
    assert!(validate(&json("2.5"), &schema).is_ok());
    assert!(validate(&json("true"), &schema).is_err());
    assert!(validate(&json("null"), &schema).is_err());
}

#[test]
fn test_integer_kinds() {
    let schema = SchemaBuilder::integer();
    assert!(validate(&Json::Number(JsonNumber::NegInt(-5)), &schema).is_ok());
    assert!(validate(&Json::Number(JsonNumber::PosInt(u64::MAX)), &schema).is_ok());
    assert!(validate(&Json::Number(JsonNumber::Float("1.0".to_string())), &schema).is_err());
}

#[test]
fn test_boolean_schema() {
    let schema = SchemaBuilder::boolean();
    assert!(validate(&json("false"), &schema).is_ok());
    assert!(validate(&json(r#""false""#), &schema).is_err());
}

#[test]
fn test_schema_without_known_type_admits_everything() {
    let schema = json(r#"{"description": "anything"}"#);
    assert!(validate(&json("[1, {}]"), &schema).is_ok());
    let schema = json(r#"{"type": "mystery"}"#);
    assert!(validate(&json("null"), &schema).is_ok());
    assert!(validate(&json("3"), &text("not a schema")).is_ok());
}

#[test]
fn test_object_rejects_non_objects_and_ignores_extra_keys() {
    let schema = name_age_schema();
    assert!(validate(&json(r#"["name"]"#), &schema).is_err());
    assert!(validate(&json(r#"{"name": "Al", "extra": [1]}"#), &schema).is_ok());
}

#[test]
fn test_validation_error_kind() {
    let schema = SchemaBuilder::string();
    match validate(&json("1"), &schema) {
        Err(Error::ValidationFailed(_)) => {}
        other => panic!("unexpected outcome: {:?}", other),
    }
}

fn message(value: &Json, schema: &Json) -> String {
    match validate(value, schema) {
        Err(Error::ValidationFailed(m)) => m,
        other => panic!("unexpected outcome: {:?}", other),
    }
}

#[test]
fn test_validation_messages_name_the_value() {
    assert_eq!(message(&json("123"), &SchemaBuilder::string()), "Expected string, got Number(123)");
    assert_eq!(
        message(&json(r#""unknown""#), &SchemaBuilder::string_enum(&["positive", "negative"])),
        r#"Value String("unknown") not in allowed enum values"#
    );
    assert_eq!(message(&json("true"), &SchemaBuilder::number()), "Expected number, got Bool(true)");
    assert_eq!(message(&json("3.14"), &SchemaBuilder::integer()), "Expected integer, got Number(3.14)");
    assert_eq!(message(&json("null"), &SchemaBuilder::boolean()), "Expected boolean, got Null");
    assert_eq!(
        message(&json(r#""not an array""#), &SchemaBuilder::array(SchemaBuilder::string())),
        r#"Expected array, got String("not an array")"#
    );
    assert_eq!(
        message(&json(r#"["name"]"#), &name_age_schema()),
        r#"Expected object, got Array [String("name")]"#
    );
}

#[test]
fn test_validation_reports_first_failure() {
    assert_eq!(message(&json(r#"{"age": "x"}"#), &name_age_schema()), "Missing required property: name");
    assert_eq!(
        message(&json(r#"{"name": "Al", "age": "thirty"}"#), &name_age_schema()),
        r#"Expected integer, got String("thirty")"#
    );
    assert_eq!(
        message(&json(r#"["a", 2, false]"#), &SchemaBuilder::array(SchemaBuilder::string())),
        "Expected string, got Number(2)"
    );
}
