use struct_llm::derive::{
    check_derive_input, derive_structured_output, struct_schema_json, Attribute, Data, DeriveInput,
    DerivedImpl, Field, Fields, Meta, MetaValue, TypeExpr,
};
use struct_llm::derive::{infer_json_type, is_option_type, is_primitive_type};
use struct_llm::{Error, Json, StructuredOutput};

fn structured_output(name: &str, description: &str) -> Attribute {
    Attribute {
        path: "structured_output".to_string(),
        metas: vec![
            Meta { path: "name".to_string(), value: MetaValue::Str(name.to_string()) },
            Meta { path: "description".to_string(), value: MetaValue::Str(description.to_string()) },
        ],
    }
}

fn field(name: &str, ty: TypeExpr) -> Field {
    Field { name: name.to_string(), ty }
}

fn ty(name: &str) -> TypeExpr {
    TypeExpr::named(name)
}

fn vec_of(inner: TypeExpr) -> TypeExpr {
    TypeExpr::generic("Vec", inner)
}

fn option_of(inner: TypeExpr) -> TypeExpr {
    TypeExpr::generic("Option", inner)
}

fn derive(ident: &str, name: &str, description: &str, fields: Vec<Field>) -> DerivedImpl {
    let input = DeriveInput {
        ident: ident.to_string(),
        attrs: vec![structured_output(name, description)],
        data: Data::Struct(Fields::Named(fields)),
    };
    assert_eq!(check_derive_input(&input), None);
    derive_structured_output(&input)
}

fn unused(_arguments: &Json) -> Result<(), Error> {
    Err(Error::MissingField("not read in this test".to_string()))
}

fn key<'a>(v: &'a Json, path: &[&str]) -> Option<&'a Json> {
    let mut cur = v;
    for k in path {
        cur = cur.get(k)?;
    }
    Some(cur)
}

fn text<'a>(v: &'a Json, path: &[&str]) -> Option<&'a str> {
    match key(v, path) {
        Some(Json::String(s)) => Some(s.as_str()),
        _ => None,
    }
}

fn is_object(v: &Json, path: &[&str]) -> bool {
    matches!(key(v, path), Some(Json::Object(_)))
}

fn array<'a>(v: &'a Json, path: &[&str]) -> Option<&'a Vec<Json>> {
    match key(v, path) {
        Some(Json::Array(items)) => Some(items),
        _ => None,
    }
}

struct TestOutput;

impl StructuredOutput for TestOutput {
    fn tool_name() -> &'static str {
        "test_output"
    }

    fn tool_description() -> &'static str {
        "Test structured output"
    }

    fn json_schema() -> Json {
        let derived = derive(
            "TestOutput",
            "test_output",
            "Test structured output",
            vec![
                field("message", ty("String")),
                field("count", ty("u32")),
                field("score", ty("f64")),
                field("is_valid", ty("bool")),
            ],
        );
        struct_schema_json(&derived.schema, &vec![])
    }

    fn from_arguments(arguments: &Json) -> Result<Self, Error> {
        unused(arguments).map(|_| TestOutput)
    }
}

struct NPCData;

impl StructuredOutput for NPCData {
    fn tool_name() -> &'static str {
        "npc_data"
    }

    fn tool_description() -> &'static str {
        "Creates an NPC character with details"
    }

    fn json_schema() -> Json {
        let derived = derive(
            "NPCData",
            "npc_data",
            "Creates an NPC character with details",
            vec![
                field("name", ty("String")),
                field("age", ty("u32")),
                field("backstory", ty("String")),
                field("strength", ty("u32")),
                field("intelligence", ty("u32")),
            ],
        );
        struct_schema_json(&derived.schema, &vec![])
    }

    fn from_arguments(arguments: &Json) -> Result<Self, Error> {
        unused(arguments).map(|_| NPCData)
    }
}

#[test]
fn test_derive_basic() {
    assert_eq!(TestOutput::tool_name(), "test_output");
    assert_eq!(TestOutput::tool_description(), "Test structured output");

    let schema = TestOutput::json_schema();
    assert_eq!(text(&schema, &["type"]), Some("object"));
    assert!(is_object(&schema, &["properties"]));
    assert!(array(&schema, &["required"]).is_some());
}

#[test]
fn test_derive_reads_attributes() {
    let derived = derive("TestOutput", "test_output", "Test structured output", vec![]);
    assert_eq!(derived.struct_ident, "TestOutput");
    assert_eq!(derived.tool_name, "test_output");
    assert_eq!(derived.tool_description, "Test structured output");
}

#[test]
fn test_derive_tool_definition() {
    let tool = TestOutput::tool_definition();

    assert_eq!(tool.name, "test_output");
    assert_eq!(tool.description, "Test structured output");
    assert_eq!(text(&tool.parameters, &["type"]), Some("object"));
}

#[test]
fn test_npc_schema() {
    let schema = NPCData::json_schema();

    // Verify schema structure
    assert_eq!(text(&schema, &["type"]), Some("object"));

    // Check properties exist
    assert!(is_object(&schema, &["properties", "name"]));
    assert!(is_object(&schema, &["properties", "age"]));
    assert!(is_object(&schema, &["properties", "backstory"]));
    assert!(is_object(&schema, &["properties", "strength"]));
    assert!(is_object(&schema, &["properties", "intelligence"]));

    // Check property types
    assert_eq!(text(&schema, &["properties", "name", "type"]), Some("string"));
    assert_eq!(text(&schema, &["properties", "age", "type"]), Some("integer"));
    assert_eq!(text(&schema, &["properties", "backstory", "type"]), Some("string"));
    assert_eq!(text(&schema, &["properties", "strength", "type"]), Some("integer"));
    assert_eq!(text(&schema, &["properties", "intelligence", "type"]), Some("integer"));

    // Check required fields
    let required = array(&schema, &["required"]).unwrap();
    assert_eq!(required.len(), 5);
}

#[test]
fn test_type_inference() {
    let schema = TestOutput::json_schema();

    assert_eq!(text(&schema, &["properties", "message", "type"]), Some("string"));
    assert_eq!(text(&schema, &["properties", "count", "type"]), Some("integer"));
    assert_eq!(text(&schema, &["properties", "score", "type"]), Some("number"));
    assert_eq!(text(&schema, &["properties", "is_valid", "type"]), Some("boolean"));
}

struct ListOutput;

impl StructuredOutput for ListOutput {
    fn tool_name() -> &'static str {
        "list_output"
    }

    fn tool_description() -> &'static str {
        "Output with primitive arrays"
    }

    fn json_schema() -> Json {
        let derived = derive(
            "ListOutput",
            "list_output",
            "Output with primitive arrays",
            vec![field("tags", vec_of(ty("String"))), field("scores", vec_of(ty("i32")))],
        );
        struct_schema_json(&derived.schema, &vec![])
    }

    fn from_arguments(arguments: &Json) -> Result<Self, Error> {
        unused(arguments).map(|_| ListOutput)
    }
}

#[test]
fn test_primitive_vec() {
    let schema = ListOutput::json_schema();

    // Check tags is array of strings
    assert_eq!(text(&schema, &["properties", "tags", "type"]), Some("array"));
    assert_eq!(text(&schema, &["properties", "tags", "items", "type"]), Some("string"));

    // Check scores is array of integers
    assert_eq!(text(&schema, &["properties", "scores", "type"]), Some("array"));
    assert_eq!(text(&schema, &["properties", "scores", "items", "type"]), Some("integer"));
}

struct RoomItem;

impl StructuredOutput for RoomItem {
    fn tool_name() -> &'static str {
        "room_item"
    }

    fn tool_description() -> &'static str {
        "A single room with description and lore"
    }

    fn json_schema() -> Json {
        let derived = derive(
            "RoomItem",
            "room_item",
            "A single room with description and lore",
            vec![
                field("room_id", ty("String")),
                field("description", ty("String")),
                field("lore_entries", vec_of(ty("String"))),
            ],
        );
        struct_schema_json(&derived.schema, &vec![])
    }

    fn from_arguments(arguments: &Json) -> Result<Self, Error> {
        unused(arguments).map(|_| RoomItem)
    }
}

struct RoomBatch;

impl StructuredOutput for RoomBatch {
    fn tool_name() -> &'static str {
        "room_batch"
    }

    fn tool_description() -> &'static str {
        "A batch of rooms"
    }

    fn json_schema() -> Json {
        let derived = derive(
            "RoomBatch",
            "room_batch",
            "A batch of rooms",
            vec![field("rooms", vec_of(ty("RoomItem")))],
        );
        struct_schema_json(&derived.schema, &vec![RoomItem::json_schema()])
    }

    fn from_arguments(arguments: &Json) -> Result<Self, Error> {
        unused(arguments).map(|_| RoomBatch)
    }
}

#[test]
fn test_nested_struct_vec() {
    let schema = RoomBatch::json_schema();

    // Check rooms is array
    assert_eq!(text(&schema, &["properties", "rooms", "type"]), Some("array"));

    // Check items schema is an object (not string!)
    let items_schema = key(&schema, &["properties", "rooms", "items"]).unwrap();
    assert_eq!(
        text(items_schema, &["type"]),
        Some("object"),
        "Vec<CustomStruct> should generate object schema, not string"
    );

    // Check nested properties exist
    assert_eq!(text(items_schema, &["properties", "room_id", "type"]), Some("string"));
    assert_eq!(text(items_schema, &["properties", "description", "type"]), Some("string"));
    assert_eq!(text(items_schema, &["properties", "lore_entries", "type"]), Some("array"));
    assert_eq!(
        text(items_schema, &["properties", "lore_entries", "items", "type"]),
        Some("string")
    );

    // Check required fields in nested struct
    let nested_required = array(items_schema, &["required"]).unwrap();
    assert_eq!(nested_required.len(), 3);
}

struct LootPlacement;

impl StructuredOutput for LootPlacement {
    fn tool_name() -> &'static str {
        "loot_placement"
    }

    fn tool_description() -> &'static str {
        "Loot placement in a room"
    }

    fn json_schema() -> Json {
        let derived = derive(
            "LootPlacement",
            "loot_placement",
            "Loot placement in a room",
            vec![
                field("room_id", ty("String")),
                field("loot_type", ty("String")),
                field("rarity", ty("String")),
                field("theme_hints", vec_of(ty("String"))),
            ],
        );
        struct_schema_json(&derived.schema, &vec![])
    }

    fn from_arguments(arguments: &Json) -> Result<Self, Error> {
        unused(arguments).map(|_| LootPlacement)
    }
}

struct PopulationPlan;

impl StructuredOutput for PopulationPlan {
    fn tool_name() -> &'static str {
        "population_plan"
    }

    fn tool_description() -> &'static str {
        "Population plan for an area"
    }

    fn json_schema() -> Json {
        let derived = derive(
            "PopulationPlan",
            "population_plan",
            "Population plan for an area",
            vec![
                field("loot_placements", vec_of(ty("LootPlacement"))),
                field("boss_room_id", option_of(ty("String"))),
            ],
        );
        struct_schema_json(&derived.schema, &vec![LootPlacement::json_schema()])
    }

    fn from_arguments(arguments: &Json) -> Result<Self, Error> {
        unused(arguments).map(|_| PopulationPlan)
    }
}

#[test]
fn test_complex_nested_struct() {
    let schema = PopulationPlan::json_schema();

    // Check loot_placements is properly structured
    assert_eq!(text(&schema, &["properties", "loot_placements", "type"]), Some("array"));

    let items = key(&schema, &["properties", "loot_placements", "items"]).unwrap();
    assert_eq!(text(items, &["type"]), Some("object"), "Nested LootPlacement should be object");

    assert_eq!(text(items, &["properties", "room_id", "type"]), Some("string"));
    assert_eq!(text(items, &["properties", "loot_type", "type"]), Some("string"));
    assert_eq!(text(items, &["properties", "rarity", "type"]), Some("string"));
    assert_eq!(text(items, &["properties", "theme_hints", "type"]), Some("array"));
    assert_eq!(text(items, &["properties", "theme_hints", "items", "type"]), Some("string"));

    // Print schema for debugging
    println!("Generated schema: {:?}", schema);
}

struct OptionalTypes;

impl StructuredOutput for OptionalTypes {
    fn tool_name() -> &'static str {
        "optional_types"
    }

    fn tool_description() -> &'static str {
        "Test various optional field types"
    }

    fn json_schema() -> Json {
        let derived = derive(
            "OptionalTypes",
            "optional_types",
            "Test various optional field types",
            vec![
                field("required_field", ty("String")),
                field("optional_string", option_of(ty("String"))),
                field("optional_integer", option_of(ty("i32"))),
                field("optional_number", option_of(ty("f64"))),
                field("optional_boolean", option_of(ty("bool"))),
                field("optional_vec", option_of(vec_of(ty("String")))),
            ],
        );
        struct_schema_json(&derived.schema, &vec![])
    }

    fn from_arguments(arguments: &Json) -> Result<Self, Error> {
        unused(arguments).map(|_| OptionalTypes)
    }
}

#[test]
fn test_optional_types() {
    let schema = OptionalTypes::json_schema();
    let required = array(&schema, &["required"]).unwrap();

    // Verify only required_field is in the required list
    assert_eq!(required.len(), 1, "Only one field should be required, but found: {:?}", required);
    assert_eq!(required[0], Json::String("required_field".to_string()));

    // Verify optional fields are NOT in the required list
    let required_names: Vec<String> = required
        .iter()
        .map(|v| match v {
            Json::String(s) => s.clone(),
            _ => panic!("required names are strings"),
        })
        .collect();
    assert!(!required_names.contains(&"optional_string".to_string()));
    assert!(!required_names.contains(&"optional_integer".to_string()));
    assert!(!required_names.contains(&"optional_number".to_string()));
    assert!(!required_names.contains(&"optional_boolean".to_string()));
    assert!(!required_names.contains(&"optional_vec".to_string()));

    // Verify optional fields have correct schema types (unwrapped from Option)
    assert_eq!(text(&schema, &["properties", "optional_string", "type"]), Some("string"));
    assert_eq!(text(&schema, &["properties", "optional_integer", "type"]), Some("integer"));
    assert_eq!(text(&schema, &["properties", "optional_number", "type"]), Some("number"));
    assert_eq!(text(&schema, &["properties", "optional_boolean", "type"]), Some("boolean"));
    assert_eq!(text(&schema, &["properties", "optional_vec", "type"]), Some("array"));
    assert_eq!(text(&schema, &["properties", "optional_vec", "items", "type"]), Some("string"));

    // Verify all properties exist in the schema
    assert!(is_object(&schema, &["properties"]));
    assert!(is_object(&schema, &["properties", "required_field"]));
    assert!(is_object(&schema, &["properties", "optional_string"]));
    assert!(is_object(&schema, &["properties", "optional_integer"]));
    assert!(is_object(&schema, &["properties", "optional_number"]));
    assert!(is_object(&schema, &["properties", "optional_boolean"]));
    assert!(is_object(&schema, &["properties", "optional_vec"]));
}

#[test]
fn test_derive_rejections() {
    let mut input = DeriveInput {
        ident: "Thing".to_string(),
        attrs: vec![],
        data: Data::Struct(Fields::Named(vec![])),
    };
    assert_eq!(
        check_derive_input(&input),
        Some("missing #[structured_output(name = \"...\")] attribute")
    );
    input.attrs = vec![Attribute {
        path: "structured_output".to_string(),
        metas: vec![Meta { path: "name".to_string(), value: MetaValue::Str("thing".to_string()) }],
    }];
    assert_eq!(
        check_derive_input(&input),
        Some("missing #[structured_output(description = \"...\")] attribute")
    );
    input.attrs = vec![structured_output("thing", "A thing")];
    input.data = Data::Enum;
    assert_eq!(
        check_derive_input(&input),
        Some("StructuredOutput can only be derived for structs, not enums")
    );
    input.data = Data::Struct(Fields::Unnamed);
    assert_eq!(check_derive_input(&input), Some("StructuredOutput does not support tuple structs"));
}

#[test]
fn test_attribute_scanning() {
    // A later name wins; an unknown key with a value ends that attribute's list.
    let attrs = vec![
        Attribute {
            path: "structured_output".to_string(),
            metas: vec![
                Meta { path: "name".to_string(), value: MetaValue::Str("first".to_string()) },
                Meta { path: "name".to_string(), value: MetaValue::Str("second".to_string()) },
                Meta { path: "other".to_string(), value: MetaValue::Str("x".to_string()) },
                Meta { path: "description".to_string(), value: MetaValue::Str("skipped".to_string()) },
            ],
        },
        Attribute {
            path: "serde".to_string(),
            metas: vec![Meta { path: "description".to_string(), value: MetaValue::Str("no".to_string()) }],
        },
    ];
    let (name, description) = struct_llm::derive::scan_structured_output(&attrs);
    assert_eq!(name, Some("second".to_string()));
    assert_eq!(description, None);
}

#[test]
fn test_type_inference_rules() {
    assert_eq!(infer_json_type(&ty("HashMap")), "object");
    assert_eq!(infer_json_type(&ty("Custom")), "string");
    assert_eq!(infer_json_type(&TypeExpr::Other), "string");
    assert_eq!(infer_json_type(&option_of(ty("u8"))), "integer");
    assert_eq!(infer_json_type(&ty("Option")), "string");
    assert!(is_primitive_type(&ty("usize")));
    assert!(!is_primitive_type(&ty("Vec")));
    assert!(is_option_type(&option_of(ty("u8"))));
}
