//! JSON Schema building and validation.
use vstd::prelude::*;
use crate::error::Error;
use crate::json::{Json, JsonNumber, JsonView, lookup, lookup_entry, views, entry_views, lemma_array_view, lemma_object_view, lemma_view_kind, string_is, first_key_index, lemma_first_key_index, lemma_lookup_update_other, lemma_lookup_push_other, serde_debug_text, debug_text};

verus! {

/// The schema's `"type"` keyword, when it is a string.
pub open spec fn schema_type(schema: JsonView) -> Option<Seq<char>> {
    match schema.get("type"@) {
        Some(JsonView::Str(t)) => Some(t),
        _ => None,
    }
}

/// A number that `serde_json` holds as an integer.
pub open spec fn is_integer(value: JsonView) -> bool {
    match value {
        JsonView::Number(n) => !(n is Float),
        _ => false,
    }
}

/// The schema's `"enum"` list, when it is an array, holds `value`.
pub open spec fn enum_admits(schema: JsonView, value: JsonView) -> bool {
    match schema.get("enum"@) {
        Some(JsonView::Array(allowed)) => allowed.contains(value),
        _ => true,
    }
}

/// Every string of the schema's `"required"` list, when it is an array, is
/// a key of `entries`.
pub open spec fn required_present(schema: JsonView, entries: Seq<(Seq<char>, JsonView)>) -> bool {
    match schema.get("required"@) {
        Some(JsonView::Array(names)) => forall|k: int|
            0 <= k < names.len() ==> (#[trigger] names[k] matches JsonView::Str(name) ==> lookup(
                entries,
                name,
            ) is Some),
        _ => true,
    }
}

/// `value` satisfies `schema`, as far as the validator reads schemas: the
/// `"type"` keyword; for strings `"enum"`; for arrays `"items"`; for objects
/// `"required"` and `"properties"`. A schema without a known string
/// `"type"` admits everything.
pub open spec fn valid(value: JsonView, schema: JsonView) -> bool
    decreases value, 0int,
{
    match schema_type(schema) {
        None => true,
        Some(t) => if t == "string"@ {
            value is Str && enum_admits(schema, value)
        } else if t == "number"@ {
            value is Number
        } else if t == "integer"@ {
            is_integer(value)
        } else if t == "boolean"@ {
            value is Bool
        } else if t == "array"@ {
            match value {
                JsonView::Array(items) => match schema.get("items"@) {
                    Some(item_schema) => all_valid(items, item_schema),
                    None => true,
                },
                _ => false,
            }
        } else if t == "object"@ {
            match value {
                JsonView::Object(entries) => {
                    &&& required_present(schema, entries)
                    &&& match schema.get("properties"@) {
                        Some(JsonView::Object(props)) => properties_valid(entries, props),
                        _ => true,
                    }
                },
                _ => false,
            }
        } else {
            true
        },
    }
}

/// Every one of `items` satisfies `schema`.
pub open spec fn all_valid(items: Seq<JsonView>, schema: JsonView) -> bool
    decreases items, 1int,
{
    if items.len() == 0 {
        true
    } else {
        all_valid(items.drop_last(), schema) && valid(items[items.len() - 1], schema)
    }
}

/// Every entry whose key `props` describes satisfies the schema that
/// `props` gives for it.
pub open spec fn properties_valid(
    entries: Seq<(Seq<char>, JsonView)>,
    props: Seq<(Seq<char>, JsonView)>,
) -> bool
    decreases entries, 1int,
{
    if entries.len() == 0 {
        true
    } else {
        let last = entries[entries.len() - 1];
        properties_valid(entries.drop_last(), props) && match lookup(props, last.0) {
            Some(prop_schema) => valid(last.1, prop_schema),
            None => true,
        }
    }
}

/// The first name of the schema's `"required"` list (when it is an array)
/// that is a string and not a key of `entries`.
pub open spec fn missing_required(schema: JsonView, entries: Seq<(Seq<char>, JsonView)>) -> Option<Seq<char>> {
    match schema.get("required"@) {
        Some(JsonView::Array(names)) => first_missing(names, entries),
        _ => None,
    }
}

/// The first of `names` that is a string and not a key of `entries`.
pub open spec fn first_missing(names: Seq<JsonView>, entries: Seq<(Seq<char>, JsonView)>) -> Option<Seq<char>>
    decreases names.len(),
{
    if names.len() == 0 {
        None
    } else {
        match names[0] {
            JsonView::Str(n) => if lookup(entries, n) is None {
                Some(n)
            } else {
                first_missing(names.drop_first(), entries)
            },
            _ => first_missing(names.drop_first(), entries),
        }
    }
}

/// The message with which the validator rejects `value`, where `valid`
/// does not hold: the first failure in the order the validator checks, that
/// is the type, then a string's `"enum"`, an array's items in order, an
/// object's `"required"` names in order and then its entries in order.
pub open spec fn validation_error(value: JsonView, schema: JsonView) -> Seq<char>
    decreases value, 0int,
{
    let got = serde_debug_text(value);
    match schema_type(schema) {
        None => Seq::empty(),
        Some(t) => if t == "string"@ {
            if value is Str {
                "Value "@ + got + " not in allowed enum values"@
            } else {
                "Expected string, got "@ + got
            }
        } else if t == "number"@ {
            "Expected number, got "@ + got
        } else if t == "integer"@ {
            "Expected integer, got "@ + got
        } else if t == "boolean"@ {
            "Expected boolean, got "@ + got
        } else if t == "array"@ {
            match value {
                JsonView::Array(items) => match schema.get("items"@) {
                    Some(item_schema) => items_error(items, item_schema),
                    None => Seq::empty(),
                },
                _ => "Expected array, got "@ + got,
            }
        } else if t == "object"@ {
            match value {
                JsonView::Object(entries) => match missing_required(schema, entries) {
                    Some(name) => "Missing required property: "@ + name,
                    None => match schema.get("properties"@) {
                        Some(JsonView::Object(props)) => properties_error(entries, props),
                        _ => Seq::empty(),
                    },
                },
                _ => "Expected object, got "@ + got,
            }
        } else {
            Seq::empty()
        },
    }
}

/// The message for the first of `items` that does not satisfy `schema`.
pub open spec fn items_error(items: Seq<JsonView>, schema: JsonView) -> Seq<char>
    decreases items, 1int,
{
    if items.len() == 0 {
        Seq::empty()
    } else if !valid(items[0], schema) {
        validation_error(items[0], schema)
    } else {
        items_error(items.drop_first(), schema)
    }
}

/// The message for the first of `entries` that does not satisfy the schema
/// `props` gives for its key.
pub open spec fn properties_error(
    entries: Seq<(Seq<char>, JsonView)>,
    props: Seq<(Seq<char>, JsonView)>,
) -> Seq<char>
    decreases entries, 1int,
{
    if entries.len() == 0 {
        Seq::empty()
    } else {
        let first = entries[0];
        match lookup(props, first.0) {
            Some(prop_schema) => if !valid(first.1, prop_schema) {
                validation_error(first.1, prop_schema)
            } else {
                properties_error(entries.drop_first(), props)
            },
            None => properties_error(entries.drop_first(), props),
        }
    }
}

/// `all_valid` holds exactly when each item is valid.
pub proof fn lemma_all_valid(items: Seq<JsonView>, schema: JsonView)
    ensures
        all_valid(items, schema) <==> forall|i: int|
            0 <= i < items.len() ==> valid(#[trigger] items[i], schema),
    decreases items.len(),
{
    if items.len() > 0 {
        lemma_all_valid(items.drop_last(), schema);
        assert forall|i: int| 0 <= i < items.len() - 1 implies items.drop_last()[i] == items[i] by {}
    }
}

/// An entry `entries[j]` satisfies what `props` says of its key.
pub open spec fn property_valid(entry: (Seq<char>, JsonView), props: Seq<(Seq<char>, JsonView)>) -> bool {
    match lookup(props, entry.0) {
        Some(prop_schema) => valid(entry.1, prop_schema),
        None => true,
    }
}

/// `properties_valid` holds exactly when each entry is.
pub proof fn lemma_properties_valid(
    entries: Seq<(Seq<char>, JsonView)>,
    props: Seq<(Seq<char>, JsonView)>,
)
    ensures
        properties_valid(entries, props) <==> forall|j: int|
            0 <= j < entries.len() ==> property_valid(#[trigger] entries[j], props),
    decreases entries.len(),
{
    if entries.len() > 0 {
        lemma_properties_valid(entries.drop_last(), props);
        assert forall|j: int| 0 <= j < entries.len() - 1 implies entries.drop_last()[j] == entries[j] by {}
    }
}

proof fn lemma_type_names_differ()
    ensures
        "number"@ != "string"@,
        "integer"@ != "string"@,
        "integer"@ != "number"@,
        "boolean"@ != "string"@,
        "boolean"@ != "number"@,
        "boolean"@ != "integer"@,
        "array"@ != "string"@,
        "array"@ != "number"@,
        "array"@ != "integer"@,
        "array"@ != "boolean"@,
        "object"@ != "string"@,
        "object"@ != "number"@,
        "object"@ != "integer"@,
        "object"@ != "boolean"@,
        "object"@ != "array"@,
{
    reveal_strlit("string");
    reveal_strlit("number");
    reveal_strlit("integer");
    reveal_strlit("boolean");
    reveal_strlit("array");
    reveal_strlit("object");
    assert("number"@[0] != "string"@[0]);
    assert("integer"@.len() != "string"@.len());
    assert("integer"@.len() != "number"@.len());
    assert("boolean"@.len() != "string"@.len());
    assert("boolean"@.len() != "number"@.len());
    assert("boolean"@[0] != "integer"@[0]);
    assert("array"@.len() != "string"@.len());
    assert("array"@.len() != "number"@.len());
    assert("array"@.len() != "integer"@.len());
    assert("array"@.len() != "boolean"@.len());
    assert("object"@[0] != "string"@[0]);
    assert("object"@[0] != "number"@[0]);
    assert("object"@.len() != "integer"@.len());
    assert("object"@.len() != "boolean"@.len());
    assert("object"@.len() != "array"@.len());
}

proof fn lemma_valid_array(value: JsonView, schema: JsonView, items: Seq<JsonView>, item_schema: JsonView)
    requires
        schema_type(schema) == Some("array"@),
        value == JsonView::Array(items),
        schema.get("items"@) == Some(item_schema),
    ensures
        valid(value, schema) <==> forall|i: int| 0 <= i < items.len() ==> valid(#[trigger] items[i], item_schema),
{
    lemma_type_names_differ();
    lemma_all_valid(items, item_schema);
}

proof fn lemma_valid_object(value: JsonView, schema: JsonView, entries: Seq<(Seq<char>, JsonView)>)
    requires
        schema_type(schema) == Some("object"@),
        value == JsonView::Object(entries),
    ensures
        valid(value, schema) <==> {
            &&& required_present(schema, entries)
            &&& match schema.get("properties"@) {
                Some(JsonView::Object(props)) => forall|j: int|
                    0 <= j < entries.len() ==> property_valid(#[trigger] entries[j], props),
                _ => true,
            }
        },
{
    lemma_type_names_differ();
    match schema.get("properties"@) {
        Some(JsonView::Object(props)) => lemma_properties_valid(entries, props),
        _ => {},
    }
}

/// `first_missing` passes over names that are present.
proof fn lemma_first_missing(names: Seq<JsonView>, entries: Seq<(Seq<char>, JsonView)>, k: int)
    requires
        0 <= k <= names.len(),
        forall|m: int|
            0 <= m < k ==> (#[trigger] names[m] matches JsonView::Str(n) ==> lookup(entries, n) is Some),
    ensures
        first_missing(names, entries) == first_missing(names.skip(k), entries),
    decreases k,
{
    if k == 0 {
        assert(names.skip(0) =~= names);
    } else {
        let rest = names.drop_first();
        assert forall|m: int| 0 <= m < k - 1 implies (#[trigger] rest[m] matches JsonView::Str(n) ==> lookup(
            entries,
            n,
        ) is Some) by {
            assert(rest[m] == names[m + 1]);
        }
        lemma_first_missing(rest, entries, k - 1);
        assert(rest.skip(k - 1) =~= names.skip(k));
    }
}

/// `items_error` reports the first item that fails.
proof fn lemma_items_error(items: Seq<JsonView>, schema: JsonView, i: int)
    requires
        0 <= i < items.len(),
        forall|k: int| 0 <= k < i ==> valid(#[trigger] items[k], schema),
        !valid(items[i], schema),
    ensures
        items_error(items, schema) == validation_error(items[i], schema),
    decreases i,
{
    if i > 0 {
        let rest = items.drop_first();
        assert(valid(items[0], schema));
        assert forall|k: int| 0 <= k < i - 1 implies valid(#[trigger] rest[k], schema) by {
            assert(rest[k] == items[k + 1]);
        }
        assert(rest[i - 1] == items[i]);
        lemma_items_error(rest, schema, i - 1);
    }
}

/// `properties_error` reports the first entry that fails.
proof fn lemma_properties_error(
    entries: Seq<(Seq<char>, JsonView)>,
    props: Seq<(Seq<char>, JsonView)>,
    j: int,
    prop_schema: JsonView,
)
    requires
        0 <= j < entries.len(),
        forall|k: int| 0 <= k < j ==> property_valid(#[trigger] entries[k], props),
        lookup(props, entries[j].0) == Some(prop_schema),
        !valid(entries[j].1, prop_schema),
    ensures
        properties_error(entries, props) == validation_error(entries[j].1, prop_schema),
    decreases j,
{
    if j > 0 {
        let rest = entries.drop_first();
        assert(property_valid(entries[0], props));
        assert forall|k: int| 0 <= k < j - 1 implies property_valid(#[trigger] rest[k], props) by {
            assert(rest[k] == entries[k + 1]);
        }
        assert(rest[j - 1] == entries[j]);
        lemma_properties_error(rest, props, j - 1, prop_schema);
    }
}

/// A validation failure that says `prefix` followed by the value's `Debug` text.
fn failure_with_value(prefix: &str, value: &Json) -> (r: Error)
    ensures
        r matches Error::ValidationFailed(m) && m@ == prefix@ + serde_debug_text(value@),
{
    let mut message = prefix.to_owned();
    message.append(debug_text(value).as_str());
    validation_failed(message.as_str())
}

/// A validation failure that says `what`.
fn validation_failed(what: &str) -> (r: Error)
    ensures
        r matches Error::ValidationFailed(m) && m@ == what@,
{
    Error::ValidationFailed(what.to_owned())
}

/// Validate a JSON value against a JSON Schema.
///
/// A basic validator that checks common schema constraints: the type
/// (string, number, integer, boolean, array, object), required properties,
/// enum values, array items, and the properties that the schema describes.
/// A failure names the offending value as `serde_json` debug-prints it
/// (`"Expected string, got Number(1)"`), or the missing property.
#[verifier::loop_isolation(false)]
pub fn validate(value: &Json, schema: &Json) -> (r: Result<(), Error>)
    ensures
        r is Ok <==> valid(value@, schema@),
        r matches Err(e) ==> (e matches Error::ValidationFailed(m) && m@ == validation_error(
            value@,
            schema@,
        )),
    decreases value,
{
    let t = match schema.get("type") {
        Some(t) => t,
        None => {
            return Ok(());
        },
    };
    let t = match t.as_str() {
        Some(t) => t,
        None => {
            return Ok(());
        },
    };
    assert(schema_type(schema@) == Some(t@));
    proof {
        lemma_type_names_differ();
        lemma_view_kind(*value);
    }
    if string_is(t, "string") {
        match value {
            Json::String(_) => {},
            _ => return Err(failure_with_value("Expected string, got ", value)),
        }
        match schema.get("enum") {
            Some(allowed) => match allowed.as_array() {
                Some(allowed) => {
                    if !contains_string(allowed, value) {
                        let mut message = "Value ".to_owned();
                        message.append(debug_text(value).as_str());
                        message.append(" not in allowed enum values");
                        return Err(validation_failed(message.as_str()));
                    }
                },
                None => {},
            },
            None => {},
        }
        Ok(())
    } else if string_is(t, "number") {
        match value {
            Json::Number(_) => Ok(()),
            _ => Err(failure_with_value("Expected number, got ", value)),
        }
    } else if string_is(t, "integer") {
        match value {
            Json::Number(JsonNumber::PosInt(_)) => Ok(()),
            Json::Number(JsonNumber::NegInt(_)) => Ok(()),
            _ => Err(failure_with_value("Expected integer, got ", value)),
        }
    } else if string_is(t, "boolean") {
        match value {
            Json::Bool(_) => Ok(()),
            _ => Err(failure_with_value("Expected boolean, got ", value)),
        }
    } else if string_is(t, "array") {
        match value {
            Json::Array(items) => {
                proof {
                    lemma_array_view(*items);
                }
                match schema.get("items") {
                    Some(item_schema) => {
                        let mut i: usize = 0;
                        while i < items.len()
                            invariant
                                i <= items@.len(),
                                *value == Json::Array(*items),
                                forall|k: int|
                                    0 <= k < i ==> valid(#[trigger] views(items@)[k], item_schema@),
                            decreases items@.len() - i,
                        {
                            proof {
                                assert(decreases_to!(*value => value->Array_0));
                                assert(decreases_to!(*items => items@));
                                assert(decreases_to!(items@ => items@[i as int]));
                            }
                            match validate(&items[i], item_schema) {
                                Ok(()) => {},
                                Err(e) => {
                                    assert(!valid(views(items@)[i as int], item_schema@));
                                    proof {
                                        lemma_valid_array(value@, schema@, views(items@), item_schema@);
                                        lemma_items_error(views(items@), item_schema@, i as int);
                                    }
                                    return Err(e);
                                },
                            }
                            i = i + 1;
                        }
                        proof {
                            lemma_valid_array(value@, schema@, views(items@), item_schema@);
                        }
                        Ok(())
                    },
                    None => Ok(()),
                }
            },
            _ => Err(failure_with_value("Expected array, got ", value)),
        }
    } else if string_is(t, "object") {
        match value {
            Json::Object(entries) => {
                proof {
                    lemma_object_view(*entries);
                }
                proof {
                    lemma_valid_object(value@, schema@, entry_views(entries@));
                }
                match check_required(schema, entries) {
                    Ok(()) => {},
                    Err(e) => {
                        return Err(e);
                    },
                }
                match schema.get("properties") {
                    Some(props) => match props.as_object() {
                        Some(props) => {
                            let mut j: usize = 0;
                            while j < entries.len()
                                invariant
                                    j <= entries@.len(),
                                    *value == Json::Object(*entries),
                                    forall|k: int|
                                        0 <= k < j ==> property_valid(
                                            #[trigger] entry_views(entries@)[k],
                                            entry_views(props@),
                                        ),
                                decreases entries@.len() - j,
                            {
                                proof {
                                    assert(decreases_to!(*value => value->Object_0));
                                    assert(decreases_to!(*entries => entries@));
                                    assert(decreases_to!(entries@ => entries@[j as int]));
                                    assert(decreases_to!(entries@[j as int] => entries@[j as int].1));
                                }
                                let name = &entries[j].0;
                                match lookup_entry(props, name.as_str()) {
                                    Some(prop_schema) => {
                                        match validate(&entries[j].1, prop_schema) {
                                            Ok(()) => {},
                                            Err(e) => {
                                                proof {
                                                    assert(!property_valid(
                                                        entry_views(entries@)[j as int],
                                                        entry_views(props@),
                                                    ));
                                                    lemma_valid_object(
                                                        value@,
                                                        schema@,
                                                        entry_views(entries@),
                                                    );
                                                    lemma_properties_error(
                                                        entry_views(entries@),
                                                        entry_views(props@),
                                                        j as int,
                                                        prop_schema@,
                                                    );
                                                }
                                                return Err(e);
                                            },
                                        }
                                    },
                                    None => {},
                                }
                                j = j + 1;
                            }
                            proof {
                                lemma_valid_object(value@, schema@, entry_views(entries@));
                            }
                            Ok(())
                        },
                        None => Ok(()),
                    },
                    None => Ok(()),
                }
            },
            _ => Err(failure_with_value("Expected object, got ", value)),
        }
    } else {
        Ok(())
    }
}

/// Whether `items` holds a value equal to the string `value`.
fn contains_string(items: &Vec<Json>, value: &Json) -> (r: bool)
    requires
        value@ is Str,
    ensures
        r == views(items@).contains(value@),
{
    let s = match value {
        Json::String(s) => s,
        _ => {
            return false;
        },
    };
    let mut i: usize = 0;
    while i < items.len()
        invariant
            i <= items@.len(),
            value@ == JsonView::Str(s@),
            forall|k: int| 0 <= k < i ==> views(items@)[k] != value@,
        decreases items@.len() - i,
    {
        match &items[i] {
            Json::String(t) => {
                if *t == *s {
                    assert(views(items@)[i as int] == value@);
                    return true;
                }
            },
            _ => {},
        }
        i = i + 1;
    }
    false
}

/// Checks the schema's `"required"` list against the object's entries.
fn check_required(schema: &Json, entries: &Vec<(String, Json)>) -> (r: Result<(), Error>)
    ensures
        r is Ok <==> required_present(schema@, entry_views(entries@)),
        r is Ok ==> missing_required(schema@, entry_views(entries@)) is None,
        r matches Err(e) ==> (e matches Error::ValidationFailed(m) && missing_required(
            schema@,
            entry_views(entries@),
        ) matches Some(name) && m@ == "Missing required property: "@ + name),
{
    let names = match schema.get("required") {
        Some(names) => names,
        None => {
            return Ok(());
        },
    };
    let names = match names.as_array() {
        Some(names) => names,
        None => {
            return Ok(());
        },
    };
    let mut k: usize = 0;
    while k < names.len()
        invariant
            k <= names@.len(),
            schema@.get("required"@) == Some(JsonView::Array(views(names@))),
            forall|m: int|
                0 <= m < k ==> (#[trigger] views(names@)[m] matches JsonView::Str(name)
                    ==> lookup(entry_views(entries@), name) is Some),
        decreases names@.len() - k,
    {
        match names[k].as_str() {
            Some(name) => {
                if lookup_entry(entries, name.as_str()).is_none() {
                    assert(views(names@)[k as int] == JsonView::Str(name@));
                    proof {
                        lemma_first_missing(views(names@), entry_views(entries@), k as int);
                        assert(views(names@).skip(k as int)[0] == views(names@)[k as int]);
                    }
                    let mut message = "Missing required property: ".to_owned();
                    message.append(name.as_str());
                    return Err(validation_failed(message.as_str()));
                }
            },
            None => {},
        }
        k = k + 1;
    }
    proof {
        lemma_first_missing(views(names@), entry_views(entries@), names@.len() as int);
        assert(views(names@).skip(names@.len() as int) =~= Seq::empty());
    }
    Ok(())
}

/// `{"type": t}`
pub open spec fn type_schema(t: Seq<char>) -> JsonView {
    JsonView::Object(seq![("type"@, JsonView::Str(t))])
}

/// The strings `values`, as JSON strings.
pub open spec fn text_views(values: Seq<&str>) -> Seq<JsonView> {
    Seq::new(values.len(), |i: int| JsonView::Str(values[i]@))
}

/// `{"type": "string", "enum": values}`
pub open spec fn string_enum_schema(values: Seq<JsonView>) -> JsonView {
    JsonView::Object(
        seq![("type"@, JsonView::Str("string"@)), ("enum"@, JsonView::Array(values))],
    )
}

/// `{"type": "array", "items": items}`
pub open spec fn array_schema(items: JsonView) -> JsonView {
    JsonView::Object(seq![("type"@, JsonView::Str("array"@)), ("items"@, items)])
}

/// `{"type": "object", "properties": properties, "required": required}`
pub open spec fn object_schema(properties: JsonView, required: Seq<JsonView>) -> JsonView {
    JsonView::Object(
        seq![
            ("type"@, JsonView::Str("object"@)),
            ("properties"@, properties),
            ("required"@, JsonView::Array(required)),
        ],
    )
}

/// `schema` with its `"description"` set to `description` when it is an
/// object: the first entry of that key is replaced, or an entry is added at
/// the end. Other values are left as they are.
pub open spec fn described(schema: JsonView, description: Seq<char>) -> JsonView {
    match schema {
        JsonView::Object(entries) => {
            let entry = ("description"@, JsonView::Str(description));
            let i = first_key_index(entries, "description"@);
            if i >= 0 {
                JsonView::Object(entries.update(i, entry))
            } else {
                JsonView::Object(entries.push(entry))
            }
        },
        _ => schema,
    }
}

/// Helper to build JSON schemas for common Rust types.
pub struct SchemaBuilder;

fn type_schema_json(t: &str) -> (r: Json)
    ensures
        r@ == type_schema(t@),
{
    let mut entries: Vec<(String, Json)> = Vec::new();
    entries.push(("type".to_owned(), Json::from_text(t)));
    proof {
        lemma_object_view(entries);
        assert(entry_views(entries@) =~= seq![("type"@, JsonView::Str(t@))]);
    }
    Json::Object(entries)
}

fn text_array(values: &[&str]) -> (r: Vec<Json>)
    ensures
        views(r@) == text_views(values@),
{
    let mut out: Vec<Json> = Vec::new();
    let mut i: usize = 0;
    while i < values.len()
        invariant
            i <= values@.len(),
            out@.len() == i,
            forall|k: int| 0 <= k < i ==> (#[trigger] out@[k])@ == JsonView::Str(values@[k]@),
        decreases values@.len() - i,
    {
        out.push(Json::from_text(values[i]));
        i = i + 1;
    }
    assert(views(out@) =~= text_views(values@));
    out
}

impl SchemaBuilder {
    /// Create a string schema.
    pub fn string() -> (r: Json)
        ensures
            r@ == type_schema("string"@),
    {
        type_schema_json("string")
    }

    /// Create a string schema with enum values.
    pub fn string_enum(values: &[&str]) -> (r: Json)
        ensures
            r@ == string_enum_schema(text_views(values@)),
    {
        let allowed = text_array(values);
        let mut entries: Vec<(String, Json)> = Vec::new();
        entries.push(("type".to_owned(), Json::from_text("string")));
        proof {
            lemma_array_view(allowed);
        }
        entries.push(("enum".to_owned(), Json::Array(allowed)));
        proof {
            lemma_object_view(entries);
            assert(entry_views(entries@) =~= string_enum_schema(text_views(values@))->Object_0);
        }
        Json::Object(entries)
    }

    /// Create a number schema.
    pub fn number() -> (r: Json)
        ensures
            r@ == type_schema("number"@),
    {
        type_schema_json("number")
    }

    /// Create an integer schema.
    pub fn integer() -> (r: Json)
        ensures
            r@ == type_schema("integer"@),
    {
        type_schema_json("integer")
    }

    /// Create a boolean schema.
    pub fn boolean() -> (r: Json)
        ensures
            r@ == type_schema("boolean"@),
    {
        type_schema_json("boolean")
    }

    /// Create an array schema.
    pub fn array(items: Json) -> (r: Json)
        ensures
            r@ == array_schema(items@),
    {
        let ghost items_view = items@;
        let mut entries: Vec<(String, Json)> = Vec::new();
        entries.push(("type".to_owned(), Json::from_text("array")));
        entries.push(("items".to_owned(), items));
        proof {
            lemma_object_view(entries);
            assert(entry_views(entries@) =~= array_schema(items_view)->Object_0);
        }
        Json::Object(entries)
    }

    /// Create an object schema.
    pub fn object(properties: Json, required: &[&str]) -> (r: Json)
        ensures
            r@ == object_schema(properties@, text_views(required@)),
    {
        let ghost props_view = properties@;
        let names = text_array(required);
        proof {
            lemma_array_view(names);
        }
        let mut entries: Vec<(String, Json)> = Vec::new();
        entries.push(("type".to_owned(), Json::from_text("object")));
        entries.push(("properties".to_owned(), properties));
        entries.push(("required".to_owned(), Json::Array(names)));
        proof {
            lemma_object_view(entries);
            assert(entry_views(entries@) =~= object_schema(props_view, text_views(required@))->Object_0);
        }
        Json::Object(entries)
    }

    /// Add description to a schema.
    pub fn with_description(schema: Json, description: &str) -> (r: Json)
        ensures
            r@ == described(schema@, description@),
    {
        match schema {
            Json::Object(entries) => {
                let mut entries = entries;
                let ghost before = entry_views(entries@);
                proof {
                    lemma_object_view(entries);
                    lemma_first_key_index(before, "description"@);
                }
                let mut i: usize = 0;
                while i < entries.len()
                    invariant
                        i <= entries@.len(),
                        entry_views(entries@) == before,
                        forall|j: int| 0 <= j < i ==> (#[trigger] entries@[j]).0@ != "description"@,
                    ensures
                        i <= entries@.len(),
                        entry_views(entries@) == before,
                        forall|j: int| 0 <= j < i ==> (#[trigger] entries@[j]).0@ != "description"@,
                        i < entries@.len() ==> entries@[i as int].0@ == "description"@,
                    decreases entries@.len() - i,
                {
                    if string_is(&entries[i].0, "description") {
                        break;
                    }
                    i = i + 1;
                }
                let entry = ("description".to_owned(), Json::from_text(description));
                let ghost entry_view = ("description"@, JsonView::Str(description@));
                if i < entries.len() {
                    assert(first_key_index(before, "description"@) == i) by {
                        assert(before[i as int].0 == "description"@);
                        if first_key_index(before, "description"@) < i {
                            let f = first_key_index(before, "description"@);
                            assert(before[f].0 == entries@[f].0@);
                        }
                    }
                    entries.set(i, entry);
                    proof {
                        lemma_object_view(entries);
                        assert(entry_views(entries@) =~= before.update(i as int, entry_view));
                    }
                } else {
                    assert(first_key_index(before, "description"@) < 0) by {
                        if first_key_index(before, "description"@) >= 0 {
                            let f = first_key_index(before, "description"@);
                            assert(before[f].0 == entries@[f].0@);
                        }
                    }
                    entries.push(entry);
                    proof {
                        lemma_object_view(entries);
                        assert(entry_views(entries@) =~= before.push(entry_view));
                    }
                }
                Json::Object(entries)
            },
            other => other,
        }
    }
}

pub(crate) proof fn lemma_keywords_differ()
    ensures
        "type"@ != "enum"@,
        "type"@ != "items"@,
        "type"@ != "properties"@,
        "type"@ != "required"@,
        "properties"@ != "required"@,
        "description"@ != "type"@,
        "description"@ != "enum"@,
        "description"@ != "items"@,
        "description"@ != "required"@,
        "description"@ != "properties"@,
{
    reveal_strlit("type");
    reveal_strlit("enum");
    reveal_strlit("items");
    reveal_strlit("properties");
    reveal_strlit("required");
    reveal_strlit("description");
    assert("type"@[0] != "enum"@[0]);
    assert("type"@.len() != "items"@.len());
    assert("type"@.len() != "properties"@.len());
    assert("type"@.len() != "required"@.len());
    assert("properties"@.len() != "required"@.len());
    assert("description"@.len() != "type"@.len());
    assert("description"@.len() != "enum"@.len());
    assert("description"@.len() != "items"@.len());
    assert("description"@.len() != "required"@.len());
    assert("description"@.len() != "properties"@.len());
}

/// `SchemaBuilder::string()` admits exactly the strings.
pub proof fn law_string_schema(value: JsonView)
    ensures
        valid(value, type_schema("string"@)) <==> value is Str,
{
    reveal_with_fuel(lookup, 4);
    lemma_keywords_differ();
    lemma_type_names_differ();
    let s = type_schema("string"@);
    assert(s->Object_0.drop_first() =~= Seq::empty());
    assert(s.get("enum"@) is None);
}

/// `SchemaBuilder::number()` admits exactly the numbers.
pub proof fn law_number_schema(value: JsonView)
    ensures
        valid(value, type_schema("number"@)) <==> value is Number,
{
    lemma_type_names_differ();
}

/// `SchemaBuilder::integer()` admits exactly the numbers held as integers.
pub proof fn law_integer_schema(value: JsonView)
    ensures
        valid(value, type_schema("integer"@)) <==> is_integer(value),
{
    lemma_type_names_differ();
}

/// `SchemaBuilder::boolean()` admits exactly `true` and `false`.
pub proof fn law_boolean_schema(value: JsonView)
    ensures
        valid(value, type_schema("boolean"@)) <==> value is Bool,
{
    lemma_type_names_differ();
}

/// `SchemaBuilder::string_enum(values)` admits exactly the strings among `values`.
pub proof fn law_string_enum_schema(values: Seq<JsonView>, value: JsonView)
    ensures
        valid(value, string_enum_schema(values)) <==> value is Str && values.contains(value),
{
    reveal_with_fuel(lookup, 4);
    lemma_keywords_differ();
    let s = string_enum_schema(values);
    assert(s->Object_0.drop_first() =~= seq![("enum"@, JsonView::Array(values))]);
}

/// `SchemaBuilder::array(items)` admits exactly the arrays whose elements
/// all satisfy `items`.
pub proof fn law_array_schema(items: JsonView, value: JsonView)
    ensures
        valid(value, array_schema(items)) <==> match value {
            JsonView::Array(elements) => forall|i: int|
                0 <= i < elements.len() ==> valid(#[trigger] elements[i], items),
            _ => false,
        },
{
    reveal_with_fuel(lookup, 4);
    lemma_keywords_differ();
    lemma_type_names_differ();
    let s = array_schema(items);
    assert(s->Object_0.drop_first() =~= seq![("items"@, items)]);
    match value {
        JsonView::Array(elements) => lemma_all_valid(elements, items),
        _ => {},
    }
}

/// `SchemaBuilder::object(properties, required)` admits exactly the objects
/// that hold every required key and whose entries satisfy the schemas that
/// `properties` gives for their keys.
pub proof fn law_object_schema(properties: JsonView, required: Seq<JsonView>, value: JsonView)
    ensures
        valid(value, object_schema(properties, required)) <==> match value {
            JsonView::Object(entries) => {
                &&& forall|k: int|
                    0 <= k < required.len() ==> (#[trigger] required[k] matches JsonView::Str(name)
                        ==> lookup(entries, name) is Some)
                &&& match properties {
                    JsonView::Object(props) => forall|j: int|
                        0 <= j < entries.len() ==> property_valid(#[trigger] entries[j], props),
                    _ => true,
                }
            },
            _ => false,
        },
{
    reveal_with_fuel(lookup, 4);
    lemma_keywords_differ();
    lemma_type_names_differ();
    let s = object_schema(properties, required);
    let es = s->Object_0;
    assert(es.drop_first() =~= seq![("properties"@, properties), ("required"@, JsonView::Array(required))]);
    assert(es.drop_first().drop_first() =~= seq![("required"@, JsonView::Array(required))]);
    assert(s.get("properties"@) == Some(properties));
    assert(s.get("required"@) == Some(JsonView::Array(required)));
    match value {
        JsonView::Object(entries) => lemma_valid_object(value, s, entries),
        _ => {},
    }
}

/// A description changes nothing of what a schema admits.
pub proof fn law_description_keeps_validity(schema: JsonView, description: Seq<char>, value: JsonView)
    ensures
        valid(value, described(schema, description)) == valid(value, schema),
{
    lemma_keywords_differ();
    match schema {
        JsonView::Object(entries) => {
            let entry = ("description"@, JsonView::Str(description));
            let i = first_key_index(entries, "description"@);
            lemma_first_key_index(entries, "description"@);
            let s2 = described(schema, description);
            if i >= 0 {
                lemma_lookup_update_other(entries, i, entry, "type"@);
                lemma_lookup_update_other(entries, i, entry, "enum"@);
                lemma_lookup_update_other(entries, i, entry, "items"@);
                lemma_lookup_update_other(entries, i, entry, "required"@);
                lemma_lookup_update_other(entries, i, entry, "properties"@);
            } else {
                lemma_lookup_push_other(entries, entry, "type"@);
                lemma_lookup_push_other(entries, entry, "enum"@);
                lemma_lookup_push_other(entries, entry, "items"@);
                lemma_lookup_push_other(entries, entry, "required"@);
                lemma_lookup_push_other(entries, entry, "properties"@);
            }
            assert(s2.get("type"@) == schema.get("type"@));
            assert(s2.get("enum"@) == schema.get("enum"@));
            assert(s2.get("items"@) == schema.get("items"@));
            assert(s2.get("required"@) == schema.get("required"@));
            assert(s2.get("properties"@) == schema.get("properties"@));
            assert(schema_type(s2) == schema_type(schema));
            assert(enum_admits(s2, value) == enum_admits(schema, value));
            match value {
                JsonView::Object(es) => {
                    assert(required_present(s2, es) == required_present(schema, es));
                },
                _ => {},
            }
        },
        _ => {},
    }
}

} // verus!
