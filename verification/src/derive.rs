//! What the `StructuredOutput` derive makes of a struct.
//!
//! The derive reads the struct's `#[structured_output(name = "..",
//! description = "..")]` attribute and the types of its named fields, and
//! writes an implementation whose JSON Schema describes each field by its
//! type. Here the struct is given as data ([`DeriveInput`]) and the
//! implementation comes back as data ([`DerivedImpl`]); the schema plan it
//! holds is turned into the schema value by [`struct_schema_json`].
use vstd::prelude::*;
use crate::json::{Json, JsonView, lookup, views, entry_views, lemma_array_view, lemma_object_view, string_is};
use crate::schema::{valid, object_schema, property_valid, law_object_schema, lemma_keywords_differ};

verus! {

/// The syntax of a field's type, as far as the derive reads it.
pub enum TypeExpr {
    /// A path type such as `Vec<String>`: the identifier of its last segment,
    /// and the first generic argument of that segment when it is written in
    /// angle brackets and is a type.
    Path { ident: String, arg: Option<Box<TypeExpr>> },
    /// Any other type (a reference, a tuple, an array, ...).
    Other,
}

/// The view of a [`TypeExpr`].
pub enum TypeView {
    Path { ident: Seq<char>, arg: Option<Box<TypeView>> },
    Other,
}

impl TypeExpr {
    /// The view of a type.
    pub open spec fn model(self) -> TypeView
        decreases self,
    {
        match self {
            TypeExpr::Path { ident, arg } => TypeView::Path {
                ident: ident@,
                arg: match arg {
                    Some(inner) => Some(Box::new((*inner).model())),
                    None => None,
                },
            },
            TypeExpr::Other => TypeView::Other,
        }
    }

    /// A path type with no generic argument: `name`.
    pub fn named(name: &str) -> (r: TypeExpr)
        ensures
            r.model() == (TypeView::Path { ident: name@, arg: None }),
    {
        TypeExpr::Path { ident: name.to_owned(), arg: None }
    }

    /// A path type with one generic argument: `name<arg>`.
    pub fn generic(name: &str, arg: TypeExpr) -> (r: TypeExpr)
        ensures
            r.model() == (TypeView::Path { ident: name@, arg: Some(Box::new(arg.model())) }),
    {
        TypeExpr::Path { ident: name.to_owned(), arg: Some(Box::new(arg)) }
    }
}

/// The type names that map directly to a JSON type.
pub open spec fn is_primitive_name(n: Seq<char>) -> bool {
    ||| n == "String"@ ||| n == "str"@
    ||| n == "i8"@ ||| n == "i16"@ ||| n == "i32"@ ||| n == "i64"@ ||| n == "i128"@
    ||| n == "u8"@ ||| n == "u16"@ ||| n == "u32"@ ||| n == "u64"@ ||| n == "u128"@
    ||| n == "isize"@ ||| n == "usize"@
    ||| n == "f32"@ ||| n == "f64"@
    ||| n == "bool"@
}

/// The JSON type of a type name, where the name has one.
pub open spec fn json_type_of_name(n: Seq<char>) -> Option<Seq<char>> {
    if n == "String"@ || n == "str"@ {
        Some("string"@)
    } else if n == "i8"@ || n == "i16"@ || n == "i32"@ || n == "i64"@ || n == "i128"@ || n == "u8"@
        || n == "u16"@ || n == "u32"@ || n == "u64"@ || n == "u128"@ || n == "isize"@ || n
        == "usize"@ {
        Some("integer"@)
    } else if n == "f32"@ || n == "f64"@ {
        Some("number"@)
    } else if n == "bool"@ {
        Some("boolean"@)
    } else if n == "Vec"@ {
        Some("array"@)
    } else if n == "HashMap"@ || n == "BTreeMap"@ {
        Some("object"@)
    } else {
        None
    }
}

/// A known primitive type.
pub open spec fn primitive_type(t: TypeView) -> bool {
    match t {
        TypeView::Path { ident, .. } => is_primitive_name(ident),
        TypeView::Other => false,
    }
}

/// An `Option<..>` type.
pub open spec fn option_type(t: TypeView) -> bool {
    match t {
        TypeView::Path { ident, .. } => ident == "Option"@,
        TypeView::Other => false,
    }
}

/// The JSON type of a type: by its name; `Option<T>` as `T`; `"string"`
/// for every other type.
pub open spec fn json_type(t: TypeView) -> Seq<char>
    decreases t,
{
    match t {
        TypeView::Path { ident, arg } => match json_type_of_name(ident) {
            Some(j) => j,
            None => if ident == "Option"@ {
                match arg {
                    Some(inner) => json_type(*inner),
                    None => "string"@,
                }
            } else {
                "string"@
            },
        },
        TypeView::Other => "string"@,
    }
}

/// How the schema of a field is made.
pub enum FieldSchema {
    /// `{"type": t}`
    Typed(String),
    /// `{"type": "array", "items": {"type": t}}`
    ArrayOf(String),
    /// `{"type": "array", "items": <the element type's own schema>}`
    ArrayOfSchema(TypeExpr),
    /// `{"type": "array", "items": {}}`
    AnyArray,
}

/// The view of a [`FieldSchema`].
pub enum FieldSchemaView {
    Typed(Seq<char>),
    ArrayOf(Seq<char>),
    ArrayOfSchema(TypeView),
    AnyArray,
}

impl FieldSchema {
    /// The view of a field plan.
    pub open spec fn model(self) -> FieldSchemaView {
        match self {
            FieldSchema::Typed(t) => FieldSchemaView::Typed(t@),
            FieldSchema::ArrayOf(t) => FieldSchemaView::ArrayOf(t@),
            FieldSchema::ArrayOfSchema(t) => FieldSchemaView::ArrayOfSchema(t.model()),
            FieldSchema::AnyArray => FieldSchemaView::AnyArray,
        }
    }
}

/// The schema of a field of type `t`: a `Vec` of a primitive type is an
/// array of that JSON type, a `Vec` of another type an array of that type's
/// own schema; `Option<T>` is described as `T`; other types by their JSON type.
pub open spec fn field_schema(t: TypeView) -> FieldSchemaView
    decreases t,
{
    match t {
        TypeView::Path { ident, arg } => if ident == "Vec"@ {
            match arg {
                Some(inner) => if primitive_type(*inner) {
                    FieldSchemaView::ArrayOf(json_type(*inner))
                } else {
                    FieldSchemaView::ArrayOfSchema(*inner)
                },
                None => FieldSchemaView::AnyArray,
            }
        } else if ident == "Option"@ {
            match arg {
                Some(inner) => field_schema(*inner),
                None => FieldSchemaView::Typed(json_type(t)),
            }
        } else {
            FieldSchemaView::Typed(json_type(t))
        },
        TypeView::Other => FieldSchemaView::Typed("string"@),
    }
}

/// A named field of a struct.
pub struct Field {
    pub name: String,
    pub ty: TypeExpr,
}

/// The view of a [`Field`].
pub struct FieldView {
    pub name: Seq<char>,
    pub ty: TypeView,
}

/// The views of a sequence of fields.
pub open spec fn field_views(fields: Seq<Field>) -> Seq<FieldView> {
    Seq::new(fields.len(), |i: int| FieldView { name: fields[i].name@, ty: fields[i].ty.model() })
}

/// The schema plan of a struct: each field with its schema, and the names of
/// the fields that are not `Option`s, which are required.
pub struct StructSchema {
    pub properties: Vec<(String, FieldSchema)>,
    pub required: Vec<String>,
}

/// The view of a [`StructSchema`].
pub struct StructSchemaView {
    pub properties: Seq<(Seq<char>, FieldSchemaView)>,
    pub required: Seq<Seq<char>>,
}

impl StructSchema {
    /// The view of a struct plan.
    pub open spec fn model(self) -> StructSchemaView {
        StructSchemaView {
            properties: Seq::new(
                self.properties@.len(),
                |i: int| (self.properties@[i].0@, self.properties@[i].1.model()),
            ),
            required: Seq::new(self.required@.len(), |i: int| self.required@[i]@),
        }
    }
}

/// The names of the fields that are not `Option`s, in order.
pub open spec fn required_names(fields: Seq<FieldView>) -> Seq<Seq<char>>
    decreases fields.len(),
{
    if fields.len() == 0 {
        Seq::empty()
    } else {
        let rest = required_names(fields.drop_last());
        let last = fields[fields.len() - 1];
        if option_type(last.ty) {
            rest
        } else {
            rest.push(last.name)
        }
    }
}

/// The schema plan of a struct with the given fields.
pub open spec fn struct_schema(fields: Seq<FieldView>) -> StructSchemaView {
    StructSchemaView {
        properties: Seq::new(fields.len(), |i: int| (fields[i].name, field_schema(fields[i].ty))),
        required: required_names(fields),
    }
}

/// How many of the first `i` properties take their items' schema from
/// their element type.
pub open spec fn schemas_needed(props: Seq<(Seq<char>, FieldSchemaView)>, i: int) -> int
    decreases i,
{
    if i <= 0 {
        0
    } else {
        schemas_needed(props, i - 1) + if props[i - 1].1 is ArrayOfSchema {
            1int
        } else {
            0int
        }
    }
}

/// `{"type": t}`
pub open spec fn typed_json(t: Seq<char>) -> JsonView {
    JsonView::Object(seq![("type"@, JsonView::Str(t))])
}

/// `{"type": "array", "items": items}`
pub open spec fn array_of_json(items: JsonView) -> JsonView {
    JsonView::Object(seq![("type"@, JsonView::Str("array"@)), ("items"@, items)])
}

/// The schema a field plan stands for, where `element` is the element type's
/// own schema for an array of such a type.
pub open spec fn field_schema_json(fs: FieldSchemaView, element: JsonView) -> JsonView {
    match fs {
        FieldSchemaView::Typed(t) => typed_json(t),
        FieldSchemaView::ArrayOf(t) => array_of_json(typed_json(t)),
        FieldSchemaView::ArrayOfSchema(_) => array_of_json(element),
        FieldSchemaView::AnyArray => array_of_json(JsonView::empty_object()),
    }
}

/// The schema a struct plan stands for: `{"type": "object", "properties":
/// {..}, "required": [..]}`, where `elements` holds, in field order, the
/// schemas of the element types of the arrays that take them from there.
pub open spec fn struct_schema_value(plan: StructSchemaView, elements: Seq<JsonView>) -> JsonView {
    let props = plan.properties;
    JsonView::Object(
        seq![
            ("type"@, JsonView::Str("object"@)),
            (
                "properties"@,
                JsonView::Object(
                    Seq::new(
                        props.len(),
                        |i: int|
                            (
                                props[i].0,
                                field_schema_json(
                                    props[i].1,
                                    if props[i].1 is ArrayOfSchema {
                                        elements[schemas_needed(props, i)]
                                    } else {
                                        JsonView::Null
                                    },
                                ),
                            ),
                    ),
                ),
            ),
            (
                "required"@,
                JsonView::Array(
                    Seq::new(plan.required.len(), |i: int| JsonView::Str(plan.required[i])),
                ),
            ),
        ],
    )
}

/// Check if a type is a known primitive that maps directly to a JSON type.
pub fn is_primitive_type(ty: &TypeExpr) -> (r: bool)
    ensures
        r == primitive_type(ty.model()),
{
    match ty {
        TypeExpr::Path { ident, .. } => {
            string_is(ident, "String") || string_is(ident, "str") || string_is(ident, "i8")
                || string_is(ident, "i16") || string_is(ident, "i32") || string_is(ident, "i64")
                || string_is(ident, "i128") || string_is(ident, "u8") || string_is(ident, "u16")
                || string_is(ident, "u32") || string_is(ident, "u64") || string_is(ident, "u128")
                || string_is(ident, "isize") || string_is(ident, "usize") || string_is(ident, "f32")
                || string_is(ident, "f64") || string_is(ident, "bool")
        },
        TypeExpr::Other => false,
    }
}

/// Check if a type is `Option<T>`.
pub fn is_option_type(ty: &TypeExpr) -> (r: bool)
    ensures
        r == option_type(ty.model()),
{
    match ty {
        TypeExpr::Path { ident, .. } => string_is(ident, "Option"),
        TypeExpr::Other => false,
    }
}

fn json_type_of_ident(n: &String) -> (r: Option<&'static str>)
    ensures
        match json_type_of_name(n@) {
            Some(j) => r matches Some(t) && t@ == j,
            None => r is None,
        },
{
    if string_is(n, "String") || string_is(n, "str") {
        Some("string")
    } else if string_is(n, "i8") || string_is(n, "i16") || string_is(n, "i32") || string_is(n, "i64")
        || string_is(n, "i128") || string_is(n, "u8") || string_is(n, "u16") || string_is(n, "u32")
        || string_is(n, "u64") || string_is(n, "u128") || string_is(n, "isize") || string_is(
        n,
        "usize",
    ) {
        Some("integer")
    } else if string_is(n, "f32") || string_is(n, "f64") {
        Some("number")
    } else if string_is(n, "bool") {
        Some("boolean")
    } else if string_is(n, "Vec") {
        Some("array")
    } else if string_is(n, "HashMap") || string_is(n, "BTreeMap") {
        Some("object")
    } else {
        None
    }
}

/// The JSON type of a type: by the name of its last path segment;
/// `Option<T>` as `T`; `"string"` for every other type.
pub fn infer_json_type(ty: &TypeExpr) -> (r: &'static str)
    ensures
        r@ == json_type(ty.model()),
    decreases ty,
{
    match ty {
        TypeExpr::Path { ident, arg } => match json_type_of_ident(ident) {
            Some(j) => j,
            None => {
                if string_is(ident, "Option") {
                    match arg {
                        Some(inner) => {
                            proof {
                                assert(decreases_to!(*ty => ty->arg));
                            }
                            infer_json_type(inner)
                        },
                        None => "string",
                    }
                } else {
                    "string"
                }
            },
        },
        TypeExpr::Other => "string",
    }
}

impl TypeExpr {
    /// A copy of the type.
    pub fn copy(&self) -> (r: TypeExpr)
        ensures
            r.model() == self.model(),
        decreases self,
    {
        match self {
            TypeExpr::Path { ident, arg } => TypeExpr::Path {
                ident: ident.clone(),
                arg: match arg {
                    Some(inner) => {
                        proof {
                            assert(decreases_to!(*self => self->arg));
                        }
                        Some(Box::new(inner.copy()))
                    },
                    None => None,
                },
            },
            TypeExpr::Other => TypeExpr::Other,
        }
    }
}

/// The schema plan of a field of type `ty`.
pub fn generate_field_schema_tokens(ty: &TypeExpr) -> (r: FieldSchema)
    ensures
        r.model() == field_schema(ty.model()),
    decreases ty,
{
    match ty {
        TypeExpr::Path { ident, arg } => {
            if string_is(ident, "Vec") {
                match arg {
                    Some(inner) => {
                        if is_primitive_type(inner) {
                            FieldSchema::ArrayOf(infer_json_type(inner).to_owned())
                        } else {
                            FieldSchema::ArrayOfSchema(inner.copy())
                        }
                    },
                    None => FieldSchema::AnyArray,
                }
            } else if string_is(ident, "Option") {
                match arg {
                    Some(inner) => {
                        proof {
                            assert(decreases_to!(*ty => ty->arg));
                        }
                        generate_field_schema_tokens(inner)
                    },
                    None => FieldSchema::Typed(infer_json_type(ty).to_owned()),
                }
            } else {
                FieldSchema::Typed(infer_json_type(ty).to_owned())
            }
        },
        TypeExpr::Other => FieldSchema::Typed("string".to_owned()),
    }
}

/// The schema plan of a struct with named fields `fields`.
pub fn generate_struct_schema(fields: &Vec<Field>) -> (r: StructSchema)
    ensures
        r.model() == struct_schema(field_views(fields@)),
{
    let ghost fv = field_views(fields@);
    let mut properties: Vec<(String, FieldSchema)> = Vec::new();
    let mut required: Vec<String> = Vec::new();
    let mut i: usize = 0;
    while i < fields.len()
        invariant
            i <= fields@.len(),
            fv == field_views(fields@),
            properties@.len() == i,
            forall|k: int|
                0 <= k < i ==> (#[trigger] properties@[k]).0@ == fv[k].name
                    && properties@[k].1.model() == field_schema(fv[k].ty),
            Seq::new(required@.len(), |k: int| required@[k]@) == required_names(fv.take(i as int)),
        decreases fields@.len() - i,
    {
        let field = &fields[i];
        let ghost before = required@;
        properties.push((field.name.clone(), generate_field_schema_tokens(&field.ty)));
        assert(fv.take(i + 1).drop_last() =~= fv.take(i as int));
        if !is_option_type(&field.ty) {
            required.push(field.name.clone());
            assert(Seq::new(required@.len(), |k: int| required@[k]@) =~= Seq::new(
                before.len(),
                |k: int| before[k]@,
            ).push(fv[i as int].name));
        }
        i = i + 1;
    }
    assert(fv.take(fields@.len() as int) =~= fv);
    let r = StructSchema { properties, required };
    assert(r.model().properties =~= struct_schema(fv).properties);
    r
}

fn typed_schema(t: &String) -> (r: Json)
    ensures
        r@ == typed_json(t@),
{
    let mut entries: Vec<(String, Json)> = Vec::new();
    entries.push(("type".to_owned(), Json::String(t.clone())));
    proof {
        lemma_object_view(entries);
        assert(entry_views(entries@) =~= typed_json(t@)->Object_0);
    }
    Json::Object(entries)
}

fn array_of_schema(items: Json) -> (r: Json)
    ensures
        r@ == array_of_json(items@),
{
    let ghost iv = items@;
    let mut entries: Vec<(String, Json)> = Vec::new();
    entries.push(("type".to_owned(), Json::from_text("array")));
    entries.push(("items".to_owned(), items));
    proof {
        lemma_object_view(entries);
        assert(entry_views(entries@) =~= array_of_json(iv)->Object_0);
    }
    Json::Object(entries)
}

/// The schema value of a field plan; `element` is used for an array of a
/// type with its own schema.
pub fn field_schema_value(fs: &FieldSchema, element: &Json) -> (r: Json)
    ensures
        r@ == field_schema_json(fs.model(), element@),
{
    match fs {
        FieldSchema::Typed(t) => typed_schema(t),
        FieldSchema::ArrayOf(t) => array_of_schema(typed_schema(t)),
        FieldSchema::ArrayOfSchema(_) => array_of_schema(element.deep_copy()),
        FieldSchema::AnyArray => array_of_schema(Json::empty_object()),
    }
}

/// The schema value of a struct plan. `elements` holds, in field order, the
/// schemas of the element types of the arrays whose items take them.
pub fn struct_schema_json(plan: &StructSchema, elements: &Vec<Json>) -> (r: Json)
    requires
        elements@.len() == schemas_needed(plan.model().properties, plan.model().properties.len() as int),
    ensures
        r@ == struct_schema_value(plan.model(), views(elements@)),
{
    let ghost pm = plan.model();
    let ghost props = pm.properties;
    let mut entries: Vec<(String, Json)> = Vec::new();
    let mut i: usize = 0;
    let mut k: usize = 0;
    let null = Json::Null;
    let count = elements.len();
    while i < plan.properties.len()
        invariant
            i <= plan.properties@.len(),
            pm == plan.model(),
            props == pm.properties,
            props.len() == plan.properties@.len(),
            elements@.len() == schemas_needed(props, props.len() as int),
            k == schemas_needed(props, i as int),
            k <= elements@.len(),
            count == elements@.len(),
            null@ == JsonView::Null,
            entries@.len() == i,
            forall|m: int|
                0 <= m < i ==> #[trigger] entry_views(entries@)[m] == (
                    props[m].0,
                    field_schema_json(
                        props[m].1,
                        if props[m].1 is ArrayOfSchema {
                            views(elements@)[schemas_needed(props, m)]
                        } else {
                            JsonView::Null
                        },
                    ),
                ),
        decreases plan.properties@.len() - i,
    {
        proof {
            lemma_schemas_needed_grows(props, i as int, props.len() as int);
        }
        let (name, fs) = (&plan.properties[i].0, &plan.properties[i].1);
        assert(props[i as int] == (name@, fs.model()));
        assert(schemas_needed(props, i + 1) == schemas_needed(props, i as int) + if props[i as int].1 is ArrayOfSchema {
            1int
        } else {
            0int
        });
        let ghost before = entries@;
        let ghost want = field_schema_json(
            props[i as int].1,
            if props[i as int].1 is ArrayOfSchema {
                views(elements@)[schemas_needed(props, i as int)]
            } else {
                JsonView::Null
            },
        );
        let value = match fs {
            FieldSchema::ArrayOfSchema(_) => {
                assert(props[i as int].1 is ArrayOfSchema);
                assert(schemas_needed(props, i as int) < schemas_needed(props, props.len() as int));
                assert(k < elements@.len());
                let v = field_schema_value(fs, &elements[k]);
                k = k + 1;
                v
            },
            _ => field_schema_value(fs, &null),
        };
        assert(value@ == want);
        entries.push((name.clone(), value));
        assert(entry_views(entries@)[i as int] == (props[i as int].0, want));
        assert forall|m: int| 0 <= m < i + 1 implies #[trigger] entry_views(entries@)[m] == (
            props[m].0,
            field_schema_json(
                props[m].1,
                if props[m].1 is ArrayOfSchema {
                    views(elements@)[schemas_needed(props, m)]
                } else {
                    JsonView::Null
                },
            ),
        ) by {
            if m < i {
                assert(entries@[m] == before[m]);
                assert(entry_views(entries@)[m] == entry_views(before)[m]);
            }
        }
        i = i + 1;
    }
    let mut names: Vec<Json> = Vec::new();
    let mut j: usize = 0;
    while j < plan.required.len()
        invariant
            j <= plan.required@.len(),
            pm == plan.model(),
            names@.len() == j,
            forall|m: int| 0 <= m < j ==> (#[trigger] names@[m])@ == JsonView::Str(pm.required[m]),
        decreases plan.required@.len() - j,
    {
        names.push(Json::String(plan.required[j].clone()));
        j = j + 1;
    }
    proof {
        lemma_object_view(entries);
        lemma_array_view(names);
    }
    let ghost ev = entry_views(entries@);
    let ghost nv = views(names@);
    let mut schema: Vec<(String, Json)> = Vec::new();
    schema.push(("type".to_owned(), Json::from_text("object")));
    schema.push(("properties".to_owned(), Json::Object(entries)));
    schema.push(("required".to_owned(), Json::Array(names)));
    proof {
        lemma_object_view(schema);
        let want = struct_schema_value(pm, views(elements@));
        assert(ev =~= want->Object_0[1].1->Object_0);
        assert(nv =~= want->Object_0[2].1->Array_0);
        assert(entry_views(schema@) =~= want->Object_0);
    }
    Json::Object(schema)
}

/// `schemas_needed` counts up: at most one per property.
pub proof fn lemma_schemas_needed_grows(props: Seq<(Seq<char>, FieldSchemaView)>, i: int, j: int)
    requires
        0 <= i <= j,
    ensures
        schemas_needed(props, i) <= schemas_needed(props, j),
        i < j && props[i].1 is ArrayOfSchema ==> schemas_needed(props, i) < schemas_needed(props, j),
        schemas_needed(props, i) >= 0,
    decreases j,
{
    if j > i {
        lemma_schemas_needed_grows(props, i, j - 1);
    }
    if i > 0 {
        lemma_schemas_needed_grows(props, 0, i - 1);
        lemma_schemas_needed_grows(props, i - 1, i - 1);
    }
}

/// The value of a `key = value` item in an attribute's list, as the derive
/// reads it.
pub enum MetaValue {
    /// No `= value` follows the key.
    Absent,
    /// A string literal.
    Str(String),
    /// Another literal.
    OtherLit,
    /// Something that is not a literal.
    NotLit,
}

/// An item of an attribute's list: its key (the path as written) and value.
pub struct Meta {
    pub path: String,
    pub value: MetaValue,
}

/// An attribute of the struct: its path as written, and the items of its
/// list (empty where it has no list).
pub struct Attribute {
    pub path: String,
    pub metas: Vec<Meta>,
}

pub enum MetaValueView {
    Absent,
    Str(Seq<char>),
    OtherLit,
    NotLit,
}

pub struct MetaView {
    pub path: Seq<char>,
    pub value: MetaValueView,
}

pub struct AttributeView {
    pub path: Seq<char>,
    pub metas: Seq<MetaView>,
}

/// The view of a [`Meta`].
pub open spec fn meta_view(m: Meta) -> MetaView {
    MetaView {
        path: m.path@,
        value: match m.value {
            MetaValue::Absent => MetaValueView::Absent,
            MetaValue::Str(s) => MetaValueView::Str(s@),
            MetaValue::OtherLit => MetaValueView::OtherLit,
            MetaValue::NotLit => MetaValueView::NotLit,
        },
    }
}

/// The view of an [`Attribute`].
pub open spec fn attribute_view(a: Attribute) -> AttributeView {
    AttributeView { path: a.path@, metas: Seq::new(a.metas@.len(), |i: int| meta_view(a.metas@[i])) }
}

/// The views of a sequence of attributes.
pub open spec fn attribute_views(attrs: Seq<Attribute>) -> Seq<AttributeView> {
    Seq::new(attrs.len(), |i: int| attribute_view(attrs[i]))
}

/// The tool name and description found so far.
pub struct AttrScan {
    pub name: Option<Seq<char>>,
    pub description: Option<Seq<char>>,
}

/// The keys of a `structured_output` list whose values the derive reads.
pub open spec fn reads_value(key: Seq<char>) -> bool {
    key == "name"@ || key == "description"@
}

/// Whether the derive reads the value of the key `key` (written as its path).
pub fn key_reads_value(key: &String) -> (r: bool)
    ensures
        r == reads_value(key@),
{
    string_is(key, "name") || string_is(key, "description")
}

/// Reads the items of one `structured_output` list. A `name` or
/// `description` with a string literal sets it (a later one wins); with
/// another literal it is passed over; without a literal value the rest of the
/// list is not read. Another key ends the list where a value follows it.
pub open spec fn scan_metas(metas: Seq<MetaView>, acc: AttrScan) -> AttrScan
    decreases metas.len(),
{
    if metas.len() == 0 {
        acc
    } else {
        let m = metas[0];
        let rest = metas.drop_first();
        if m.path == "name"@ {
            match m.value {
                MetaValueView::Str(s) => scan_metas(rest, AttrScan { name: Some(s), ..acc }),
                MetaValueView::OtherLit => scan_metas(rest, acc),
                _ => acc,
            }
        } else if m.path == "description"@ {
            match m.value {
                MetaValueView::Str(s) => scan_metas(rest, AttrScan { description: Some(s), ..acc }),
                MetaValueView::OtherLit => scan_metas(rest, acc),
                _ => acc,
            }
        } else {
            match m.value {
                MetaValueView::Absent => scan_metas(rest, acc),
                _ => acc,
            }
        }
    }
}

/// Reads the `structured_output` attributes in order.
pub open spec fn scan_attributes(attrs: Seq<AttributeView>, acc: AttrScan) -> AttrScan
    decreases attrs.len(),
{
    if attrs.len() == 0 {
        acc
    } else {
        let a = attrs[0];
        let next = if a.path == "structured_output"@ {
            scan_metas(a.metas, acc)
        } else {
            acc
        };
        scan_attributes(attrs.drop_first(), next)
    }
}

/// Nothing found yet.
pub open spec fn no_scan() -> AttrScan {
    AttrScan { name: None, description: None }
}

/// The fields of a struct.
pub enum Fields {
    Named(Vec<Field>),
    Unnamed,
    Unit,
}

/// The item the derive is applied to.
pub enum Data {
    Struct(Fields),
    Enum,
    Union,
}

/// A struct (or another item) with its attributes, as the derive gets it.
pub struct DeriveInput {
    pub ident: String,
    pub attrs: Vec<Attribute>,
    pub data: Data,
}

/// The implementation the derive writes: the type, its tool name and
/// description, and the plan of its JSON Schema.
pub struct DerivedImpl {
    pub struct_ident: String,
    pub tool_name: String,
    pub tool_description: String,
    pub schema: StructSchema,
}

/// The attributes that the derive finds on an input.
pub open spec fn input_scan(input: DeriveInput) -> AttrScan {
    scan_attributes(attribute_views(input.attrs@), no_scan())
}

/// The derive accepts the input: a struct with named fields, with a tool
/// name and description.
pub open spec fn derivable(input: DeriveInput) -> bool {
    &&& input.data matches Data::Struct(Fields::Named(_))
    &&& input_scan(input).name is Some
    &&& input_scan(input).description is Some
}

/// The tool name and description of the `structured_output` attributes.
pub fn scan_structured_output(attrs: &Vec<Attribute>) -> (r: (Option<String>, Option<String>))
    ensures
        ({
            let scan = scan_attributes(attribute_views(attrs@), no_scan());
            &&& scan.name == match r.0 {
                Some(s) => Some(s@),
                None => None::<Seq<char>>,
            }
            &&& scan.description == match r.1 {
                Some(s) => Some(s@),
                None => None::<Seq<char>>,
            }
        }),
{
    let ghost av = attribute_views(attrs@);
    let mut name: Option<String> = None;
    let mut description: Option<String> = None;
    let mut i: usize = 0;
    assert(av.skip(0) =~= av);
    while i < attrs.len()
        invariant
            i <= attrs@.len(),
            av == attribute_views(attrs@),
            scan_attributes(av, no_scan()) == scan_attributes(
                av.skip(i as int),
                AttrScan { name: opt_text(name), description: opt_text(description) },
            ),
        decreases attrs@.len() - i,
    {
        assert(av.skip(i as int).drop_first() =~= av.skip(i + 1));
        let a = &attrs[i];
        if string_is(&a.path, "structured_output") {
            let (n, d) = scan_metas_exec(&a.metas, name, description);
            name = n;
            description = d;
        }
        i = i + 1;
    }
    (name, description)
}

/// The view of an optional text.
pub open spec fn opt_text(s: Option<String>) -> Option<Seq<char>> {
    match s {
        Some(t) => Some(t@),
        None => None,
    }
}

fn scan_metas_exec(metas: &Vec<Meta>, found_name: Option<String>, found_description: Option<String>) -> (r: (
    Option<String>,
    Option<String>,
))
    ensures
        scan_metas(
            Seq::new(metas@.len(), |i: int| meta_view(metas@[i])),
            AttrScan { name: opt_text(found_name), description: opt_text(found_description) },
        ) == (AttrScan { name: opt_text(r.0), description: opt_text(r.1) }),
{
    let ghost mv = Seq::new(metas@.len(), |i: int| meta_view(metas@[i]));
    let ghost start = AttrScan { name: opt_text(found_name), description: opt_text(found_description) };
    let mut name = found_name;
    let mut description = found_description;
    let mut i: usize = 0;
    let mut stopped = false;
    assert(mv.skip(0) =~= mv);
    while i < metas.len() && !stopped
        invariant
            i <= metas@.len(),
            mv == Seq::new(metas@.len(), |i: int| meta_view(metas@[i])),
            scan_metas(mv, start) == scan_metas(
                mv.skip(i as int),
                AttrScan { name: opt_text(name), description: opt_text(description) },
            ),
            stopped ==> scan_metas(mv.skip(i as int), AttrScan { name: opt_text(name), description: opt_text(description) })
                == (AttrScan { name: opt_text(name), description: opt_text(description) }),
        decreases 2 * (metas@.len() - i) + if stopped {
            0int
        } else {
            1int
        },
    {
        assert(mv.skip(i as int).drop_first() =~= mv.skip(i + 1));
        assert(mv.skip(i as int)[0] == meta_view(metas@[i as int]));
        let m = &metas[i];
        let mut keep = true;
        if string_is(&m.path, "name") {
            match &m.value {
                MetaValue::Str(s) => {
                    name = Some(s.clone());
                },
                MetaValue::OtherLit => {},
                _ => {
                    keep = false;
                },
            }
        } else if string_is(&m.path, "description") {
            match &m.value {
                MetaValue::Str(s) => {
                    description = Some(s.clone());
                },
                MetaValue::OtherLit => {},
                _ => {
                    keep = false;
                },
            }
        } else {
            match &m.value {
                MetaValue::Absent => {},
                _ => {
                    keep = false;
                },
            }
        }
        if keep {
            i = i + 1;
        } else {
            stopped = true;
        }
    }
    (name, description)
}

/// Where the derive rejects the input, the message it stops with: first a
/// missing name, then a missing description, then an item that is not a
/// struct with named fields.
pub open spec fn derive_rejection(input: DeriveInput) -> Option<Seq<char>> {
    let scan = input_scan(input);
    if scan.name is None {
        Some("missing #[structured_output(name = \"...\")] attribute"@)
    } else if scan.description is None {
        Some("missing #[structured_output(description = \"...\")] attribute"@)
    } else {
        match input.data {
            Data::Struct(Fields::Named(_)) => None,
            Data::Struct(Fields::Unnamed) => Some("StructuredOutput does not support tuple structs"@),
            Data::Struct(Fields::Unit) => Some("StructuredOutput does not support unit structs"@),
            Data::Enum => Some("StructuredOutput can only be derived for structs, not enums"@),
            Data::Union => Some("StructuredOutput can only be derived for unions"@),
        }
    }
}

/// Where the derive rejects the input, the message it stops with.
pub fn check_derive_input(input: &DeriveInput) -> (r: Option<&'static str>)
    ensures
        r is None <==> derivable(*input),
        match r {
            Some(m) => derive_rejection(*input) == Some(m@),
            None => derive_rejection(*input) is None,
        },
{
    let (name, description) = scan_structured_output(&input.attrs);
    if name.is_none() {
        return Some("missing #[structured_output(name = \"...\")] attribute");
    }
    if description.is_none() {
        return Some("missing #[structured_output(description = \"...\")] attribute");
    }
    match &input.data {
        Data::Struct(Fields::Named(_)) => None,
        Data::Struct(Fields::Unnamed) => Some("StructuredOutput does not support tuple structs"),
        Data::Struct(Fields::Unit) => Some("StructuredOutput does not support unit structs"),
        Data::Enum => Some("StructuredOutput can only be derived for structs, not enums"),
        Data::Union => Some("StructuredOutput can only be derived for unions"),
    }
}

/// The tool name and description of a derivable input.
pub fn parse_attributes(input: &DeriveInput) -> (r: (String, String))
    requires
        input_scan(*input).name is Some,
        input_scan(*input).description is Some,
    ensures
        Some(r.0@) == input_scan(*input).name,
        Some(r.1@) == input_scan(*input).description,
{
    let (name, description) = scan_structured_output(&input.attrs);
    match (name, description) {
        (Some(n), Some(d)) => (n, d),
        _ => {
            assert(false);
            (String::new(), String::new())
        },
    }
}

/// The schema plan of a struct with named fields.
pub fn generate_schema(data: &Data) -> (r: StructSchema)
    requires
        data matches Data::Struct(Fields::Named(_)),
    ensures
        match data {
            Data::Struct(Fields::Named(fields)) => r.model() == struct_schema(field_views(fields@)),
            _ => false,
        },
{
    match data {
        Data::Struct(Fields::Named(fields)) => generate_struct_schema(fields),
        _ => {
            assert(false);
            StructSchema { properties: Vec::new(), required: Vec::new() }
        },
    }
}

/// The implementation the derive writes for a struct with named fields that
/// has a tool name and description.
pub fn derive_structured_output(input: &DeriveInput) -> (r: DerivedImpl)
    requires
        derivable(*input),
    ensures
        r.struct_ident@ == input.ident@,
        Some(r.tool_name@) == input_scan(*input).name,
        Some(r.tool_description@) == input_scan(*input).description,
        match input.data {
            Data::Struct(Fields::Named(fields)) => r.schema.model() == struct_schema(field_views(fields@)),
            _ => false,
        },
{
    let (tool_name, tool_description) = parse_attributes(input);
    let schema = generate_schema(&input.data);
    DerivedImpl { struct_ident: input.ident.clone(), tool_name, tool_description, schema }
}

/// The `"properties"` entries of a struct plan's schema.
pub open spec fn property_schemas(plan: StructSchemaView, elements: Seq<JsonView>) -> Seq<(Seq<char>, JsonView)> {
    struct_schema_value(plan, elements)->Object_0[1].1->Object_0
}

/// An `Option<T>` field is described by `T`'s schema.
pub proof fn law_option_field_as_inner(inner: TypeView)
    ensures
        field_schema(TypeView::Path { ident: "Option"@, arg: Some(Box::new(inner)) }) == field_schema(inner),
        json_type(TypeView::Path { ident: "Option"@, arg: Some(Box::new(inner)) }) == json_type(inner),
{
    reveal_strlit("Option");
    reveal_strlit("Vec");
    reveal_strlit("String");
    reveal_strlit("str");
    reveal_strlit("bool");
    reveal_strlit("HashMap");
    reveal_strlit("BTreeMap");
    reveal_strlit("i8");
    reveal_strlit("i16");
    reveal_strlit("i32");
    reveal_strlit("i64");
    reveal_strlit("i128");
    reveal_strlit("u8");
    reveal_strlit("u16");
    reveal_strlit("u32");
    reveal_strlit("u64");
    reveal_strlit("u128");
    reveal_strlit("isize");
    reveal_strlit("usize");
    reveal_strlit("f32");
    reveal_strlit("f64");
    let o = "Option"@;
    assert(o[0] != "String"@[0] && o.len() != "str"@.len() && o.len() != "bool"@.len());
    assert(o.len() != "HashMap"@.len() && o.len() != "BTreeMap"@.len() && o.len() != "Vec"@.len());
    assert(o.len() != "i8"@.len() && o.len() != "i16"@.len() && o.len() != "i128"@.len());
    assert(o.len() != "isize"@.len() && o.len() != "usize"@.len());
    assert(o[0] != "f32"@[0] && o[0] != "f64"@[0] && o[0] != "u8"@[0] && o[0] != "u16"@[0]);
    assert(o[0] != "u32"@[0] && o[0] != "u64"@[0] && o[0] != "u128"@[0] && o[0] != "i32"@[0]);
    assert(o[0] != "i64"@[0]);
}

/// Exactly the fields that are not `Option`s are required: every such
/// field's name is in the required list, and every required name is the name
/// of such a field.
pub proof fn law_required_names(fields: Seq<FieldView>)
    ensures
        forall|i: int|
            0 <= i < fields.len() && !option_type(fields[i].ty) ==> required_names(fields).contains(
                #[trigger] fields[i].name,
            ),
        forall|k: int|
            0 <= k < required_names(fields).len() ==> exists|i: int|
                0 <= i < fields.len() && !option_type(fields[i].ty) && fields[i].name
                    == #[trigger] required_names(fields)[k],
    decreases fields.len(),
{
    if fields.len() > 0 {
        let init = fields.drop_last();
        let last = fields[fields.len() - 1];
        law_required_names(init);
        let rest = required_names(init);
        assert forall|i: int|
            0 <= i < fields.len() && !option_type(fields[i].ty) implies required_names(fields).contains(
            #[trigger] fields[i].name,
        ) by {
            if i < fields.len() - 1 {
                assert(init[i] == fields[i]);
                let w = choose|j: int| 0 <= j < rest.len() && rest[j] == init[i].name;
                if !option_type(last.ty) {
                    assert(required_names(fields)[w] == rest[w]);
                }
            } else {
                assert(required_names(fields)[rest.len() as int] == last.name);
            }
        }
        assert forall|k: int| 0 <= k < required_names(fields).len() implies exists|i: int|
            0 <= i < fields.len() && !option_type(fields[i].ty) && fields[i].name
                == #[trigger] required_names(fields)[k] by {
            if k < rest.len() {
                let i = choose|i: int|
                    0 <= i < init.len() && !option_type(init[i].ty) && init[i].name == #[trigger] rest[k];
                assert(fields[i] == init[i]);
            } else {
                assert(fields[fields.len() - 1] == last);
            }
        }
    }
}

/// A value satisfies the schema of a derived struct exactly when it is an
/// object that holds every required field, and each of its entries named
/// like a field satisfies that field's schema.
pub proof fn law_derived_schema(plan: StructSchemaView, elements: Seq<JsonView>, value: JsonView)
    ensures
        valid(value, struct_schema_value(plan, elements)) <==> match value {
            JsonView::Object(entries) => {
                &&& forall|k: int|
                    0 <= k < plan.required.len() ==> lookup(entries, #[trigger] plan.required[k]) is Some
                &&& forall|j: int|
                    0 <= j < entries.len() ==> property_valid(
                        #[trigger] entries[j],
                        property_schemas(plan, elements),
                    )
            },
            _ => false,
        },
{
    let props = JsonView::Object(property_schemas(plan, elements));
    let required = Seq::new(plan.required.len(), |i: int| JsonView::Str(plan.required[i]));
    assert(struct_schema_value(plan, elements) =~= object_schema(props, required));
    law_object_schema(props, required, value);
    match value {
        JsonView::Object(entries) => {
            if forall|k: int|
                0 <= k < required.len() ==> (#[trigger] required[k] matches JsonView::Str(name)
                    ==> lookup(entries, name) is Some) {
                assert forall|k: int| 0 <= k < plan.required.len() implies lookup(
                    entries,
                    #[trigger] plan.required[k],
                ) is Some by {
                    assert(required[k] == JsonView::Str(plan.required[k]));
                }
            }
            if forall|k: int|
                0 <= k < plan.required.len() ==> lookup(entries, #[trigger] plan.required[k]) is Some {
                assert forall|k: int| 0 <= k < required.len() implies (#[trigger] required[k] matches JsonView::Str(
                    name,
                ) ==> lookup(entries, name) is Some) by {
                    assert(required[k] == JsonView::Str(plan.required[k]));
                }
            }
        },
        _ => {},
    }
}

/// The schema that the derive gives a struct with named fields: an object
/// schema whose `"properties"` describe each field in order, by the schema of
/// its type (an `Option<T>` as `T`), and whose `"required"` list names, in
/// order, exactly the fields that are not `Option`s.
pub proof fn law_derived_struct_schema(fields: Seq<FieldView>, elements: Seq<JsonView>)
    ensures
        ({
            let plan = struct_schema(fields);
            let v = struct_schema_value(plan, elements);
            &&& v.get("type"@) == Some(JsonView::Str("object"@))
            &&& v.get("properties"@) == Some(JsonView::Object(property_schemas(plan, elements)))
            &&& property_schemas(plan, elements).len() == fields.len()
            &&& forall|i: int|
                0 <= i < fields.len() ==> #[trigger] property_schemas(plan, elements)[i] == (
                    fields[i].name,
                    field_schema_json(
                        field_schema(fields[i].ty),
                        if field_schema(fields[i].ty) is ArrayOfSchema {
                            elements[schemas_needed(plan.properties, i)]
                        } else {
                            JsonView::Null
                        },
                    ),
                )
            &&& v.get("required"@) == Some(
                JsonView::Array(required_names(fields).map_values(|n: Seq<char>| JsonView::Str(n))),
            )
            &&& forall|i: int|
                0 <= i < fields.len() && !option_type(fields[i].ty) ==> required_names(fields).contains(
                    #[trigger] fields[i].name,
                )
            &&& forall|k: int|
                0 <= k < required_names(fields).len() ==> exists|i: int|
                    0 <= i < fields.len() && !option_type(fields[i].ty) && fields[i].name
                        == #[trigger] required_names(fields)[k]
        }),
{
    let plan = struct_schema(fields);
    let v = struct_schema_value(plan, elements);
    lemma_keywords_differ();
    law_required_names(fields);
    let es = v->Object_0;
    assert(es.drop_first().drop_first().drop_first() =~= Seq::empty());
    let rest = es.drop_first();
    assert(rest[0] == es[1] && rest.drop_first()[0] == es[2]);
    assert(lookup(rest, "properties"@) == Some(es[1].1));
    assert(v.get("properties"@) == Some(es[1].1));
    assert(lookup(rest.drop_first(), "required"@) == Some(es[2].1));
    assert(lookup(rest, "required"@) == Some(es[2].1));
    assert(v.get("required"@) == Some(es[2].1));
    assert(es[2].1->Array_0 =~= required_names(fields).map_values(|n: Seq<char>| JsonView::Str(n)));
}

/// Reading a list that has no `name` item leaves the name found so far, and
/// one that has no `description` item leaves the description.
pub proof fn law_scan_metas_keeps(metas: Seq<MetaView>, acc: AttrScan)
    ensures
        (forall|i: int| 0 <= i < metas.len() ==> (#[trigger] metas[i]).path != "name"@)
            ==> scan_metas(metas, acc).name == acc.name,
        (forall|i: int| 0 <= i < metas.len() ==> (#[trigger] metas[i]).path != "description"@)
            ==> scan_metas(metas, acc).description == acc.description,
    decreases metas.len(),
{
    if metas.len() > 0 {
        let rest = metas.drop_first();
        assert forall|i: int| 0 <= i < rest.len() implies rest[i] == metas[i + 1] by {}
        let m = metas[0];
        law_scan_metas_keeps(rest, acc);
        if m.path == "name"@ {
            match m.value {
                MetaValueView::Str(s) => law_scan_metas_keeps(rest, AttrScan { name: Some(s), ..acc }),
                _ => {},
            }
        } else if m.path == "description"@ {
            match m.value {
                MetaValueView::Str(s) => law_scan_metas_keeps(rest, AttrScan { description: Some(s), ..acc }),
                _ => {},
            }
        }
    }
}

/// The attributes are read one after the other: one more attribute at the
/// end reads its list on top of what the others found, when it is a
/// `structured_output` attribute, and changes nothing otherwise.
pub proof fn law_scan_attributes_push(attrs: Seq<AttributeView>, a: AttributeView, acc: AttrScan)
    ensures
        scan_attributes(attrs.push(a), acc) == if a.path == "structured_output"@ {
            scan_metas(a.metas, scan_attributes(attrs, acc))
        } else {
            scan_attributes(attrs, acc)
        },
    decreases attrs.len(),
{
    if attrs.len() > 0 {
        let first = attrs[0];
        let next = if first.path == "structured_output"@ {
            scan_metas(first.metas, acc)
        } else {
            acc
        };
        assert(attrs.push(a).drop_first() =~= attrs.drop_first().push(a));
        assert(attrs.push(a)[0] == first);
        law_scan_attributes_push(attrs.drop_first(), a, next);
        assert(scan_attributes(attrs, acc) == scan_attributes(attrs.drop_first(), next));
    } else {
        let s1 = attrs.push(a);
        assert(s1.drop_first() =~= Seq::<AttributeView>::empty());
        assert(s1[0] == a);
        let next = if a.path == "structured_output"@ {
            scan_metas(a.metas, acc)
        } else {
            acc
        };
        assert(scan_attributes(s1.drop_first(), next) == next);
        assert(scan_attributes(attrs, acc) == acc);
    }
}

/// What earlier attributes found survives a later attribute that does not
/// set it: a name found before is kept by an attribute without a `name`
/// item, a description by one without a `description` item.
pub proof fn law_later_attribute_keeps(attrs: Seq<AttributeView>, a: AttributeView, acc: AttrScan)
    ensures
        (forall|i: int| 0 <= i < a.metas.len() ==> (#[trigger] a.metas[i]).path != "name"@)
            ==> scan_attributes(attrs.push(a), acc).name == scan_attributes(attrs, acc).name,
        (forall|i: int| 0 <= i < a.metas.len() ==> (#[trigger] a.metas[i]).path != "description"@)
            ==> scan_attributes(attrs.push(a), acc).description == scan_attributes(attrs, acc).description,
{
    law_scan_attributes_push(attrs, a, acc);
    law_scan_metas_keeps(a.metas, scan_attributes(attrs, acc));
}

/// A name and a description given in two separate `structured_output`
/// attributes are both found.
pub proof fn law_name_and_description_apart(n: Seq<char>, d: Seq<char>)
    ensures
        ({
            let a1 = AttributeView {
                path: "structured_output"@,
                metas: seq![MetaView { path: "name"@, value: MetaValueView::Str(n) }],
            };
            let a2 = AttributeView {
                path: "structured_output"@,
                metas: seq![MetaView { path: "description"@, value: MetaValueView::Str(d) }],
            };
            scan_attributes(seq![a1, a2], no_scan()) == (AttrScan { name: Some(n), description: Some(d) })
        }),
{
    reveal_strlit("name");
    reveal_strlit("description");
    assert("name"@.len() != "description"@.len());
    let a1 = AttributeView {
        path: "structured_output"@,
        metas: seq![MetaView { path: "name"@, value: MetaValueView::Str(n) }],
    };
    let a2 = AttributeView {
        path: "structured_output"@,
        metas: seq![MetaView { path: "description"@, value: MetaValueView::Str(d) }],
    };
    assert(a1.metas.drop_first() =~= Seq::<MetaView>::empty());
    assert(a2.metas.drop_first() =~= Seq::<MetaView>::empty());
    law_scan_attributes_push(seq![a1], a2, no_scan());
    law_scan_attributes_push(Seq::empty(), a1, no_scan());
    assert(scan_attributes(Seq::<AttributeView>::empty(), no_scan()) == no_scan());
    let s1 = AttrScan { name: Some(n), ..no_scan() };
    assert(scan_metas(a1.metas.drop_first(), s1) == s1);
    assert(scan_metas(a1.metas, no_scan()) == s1);
    let s2 = AttrScan { description: Some(d), ..s1 };
    assert(scan_metas(a2.metas.drop_first(), s2) == s2);
    assert(a2.metas[0].path != "name"@);
    assert(scan_metas(a2.metas, s1) == s2);
    assert(Seq::<AttributeView>::empty().push(a1) =~= seq![a1]);
    assert(seq![a1].push(a2) =~= seq![a1, a2]);
}

/// The JSON type of each type name the derive knows is fixed: every integer
/// type is `"integer"`, `f32` and `f64` are `"number"`, `String` and `str`
/// are `"string"`, `bool` is `"boolean"`, `Vec` is `"array"`, `HashMap` and
/// `BTreeMap` are `"object"`, whatever generic argument the type has.
pub proof fn law_json_type_table(arg: Option<Box<TypeView>>)
    ensures
        json_type(TypeView::Path { ident: "String"@, arg }) == "string"@,
        json_type(TypeView::Path { ident: "str"@, arg }) == "string"@,
        json_type(TypeView::Path { ident: "i8"@, arg }) == "integer"@,
        json_type(TypeView::Path { ident: "i16"@, arg }) == "integer"@,
        json_type(TypeView::Path { ident: "i32"@, arg }) == "integer"@,
        json_type(TypeView::Path { ident: "i64"@, arg }) == "integer"@,
        json_type(TypeView::Path { ident: "i128"@, arg }) == "integer"@,
        json_type(TypeView::Path { ident: "u8"@, arg }) == "integer"@,
        json_type(TypeView::Path { ident: "u16"@, arg }) == "integer"@,
        json_type(TypeView::Path { ident: "u32"@, arg }) == "integer"@,
        json_type(TypeView::Path { ident: "u64"@, arg }) == "integer"@,
        json_type(TypeView::Path { ident: "u128"@, arg }) == "integer"@,
        json_type(TypeView::Path { ident: "isize"@, arg }) == "integer"@,
        json_type(TypeView::Path { ident: "usize"@, arg }) == "integer"@,
        json_type(TypeView::Path { ident: "f32"@, arg }) == "number"@,
        json_type(TypeView::Path { ident: "f64"@, arg }) == "number"@,
        json_type(TypeView::Path { ident: "bool"@, arg }) == "boolean"@,
        json_type(TypeView::Path { ident: "Vec"@, arg }) == "array"@,
        json_type(TypeView::Path { ident: "HashMap"@, arg }) == "object"@,
        json_type(TypeView::Path { ident: "BTreeMap"@, arg }) == "object"@,
{
    reveal_strlit("BTreeMap");
    reveal_strlit("HashMap");
    reveal_strlit("Option");
    reveal_strlit("String");
    reveal_strlit("Vec");
    reveal_strlit("array");
    reveal_strlit("bool");
    reveal_strlit("boolean");
    reveal_strlit("f32");
    reveal_strlit("f64");
    reveal_strlit("i128");
    reveal_strlit("i16");
    reveal_strlit("i32");
    reveal_strlit("i64");
    reveal_strlit("i8");
    reveal_strlit("integer");
    reveal_strlit("isize");
    reveal_strlit("number");
    reveal_strlit("object");
    reveal_strlit("str");
    reveal_strlit("string");
    reveal_strlit("u128");
    reveal_strlit("u16");
    reveal_strlit("u32");
    reveal_strlit("u64");
    reveal_strlit("u8");
    reveal_strlit("usize");
    assert("i8"@[0] != "String"@[0] && "i8"@[0] != "str"@[0]);
    assert("i16"@[0] != "String"@[0] && "i16"@[0] != "str"@[0]);
    assert("i32"@[0] != "String"@[0] && "i32"@[0] != "str"@[0]);
    assert("i64"@[0] != "String"@[0] && "i64"@[0] != "str"@[0]);
    assert("i128"@[0] != "String"@[0] && "i128"@[0] != "str"@[0]);
    assert("u8"@[0] != "String"@[0] && "u8"@[0] != "str"@[0]);
    assert("u16"@[0] != "String"@[0] && "u16"@[0] != "str"@[0]);
    assert("u32"@[0] != "String"@[0] && "u32"@[0] != "str"@[0]);
    assert("u64"@[0] != "String"@[0] && "u64"@[0] != "str"@[0]);
    assert("u128"@[0] != "String"@[0] && "u128"@[0] != "str"@[0]);
    assert("isize"@[0] != "String"@[0] && "isize"@[0] != "str"@[0]);
    assert("usize"@[0] != "String"@[0] && "usize"@[0] != "str"@[0]);
    assert("i8"@[0] != "String"@[0]);
    assert("i8"@[0] != "str"@[0]);
    assert("i16"@[0] != "String"@[0]);
    assert("i16"@[0] != "str"@[0]);
    assert("i32"@[0] != "String"@[0]);
    assert("i32"@[0] != "str"@[0]);
    assert("i64"@[0] != "String"@[0]);
    assert("i64"@[0] != "str"@[0]);
    assert("i128"@[0] != "String"@[0]);
    assert("i128"@[0] != "str"@[0]);
    assert("u8"@[0] != "String"@[0]);
    assert("u8"@[0] != "str"@[0]);
    assert("u16"@[0] != "String"@[0]);
    assert("u16"@[0] != "str"@[0]);
    assert("u32"@[0] != "String"@[0]);
    assert("u32"@[0] != "str"@[0]);
    assert("u64"@[0] != "String"@[0]);
    assert("u64"@[0] != "str"@[0]);
    assert("u128"@[0] != "String"@[0]);
    assert("u128"@[0] != "str"@[0]);
    assert("isize"@[0] != "String"@[0]);
    assert("isize"@[0] != "str"@[0]);
    assert("usize"@[0] != "String"@[0]);
    assert("usize"@[0] != "str"@[0]);
    assert("f32"@[0] != "String"@[0]);
    assert("f32"@[0] != "str"@[0]);
    assert("f32"@[0] != "i8"@[0]);
    assert("f32"@[0] != "i16"@[0]);
    assert("f32"@[0] != "i32"@[0]);
    assert("f32"@[0] != "i64"@[0]);
    assert("f32"@[0] != "i128"@[0]);
    assert("f32"@[0] != "u8"@[0]);
    assert("f32"@[0] != "u16"@[0]);
    assert("f32"@[0] != "u32"@[0]);
    assert("f32"@[0] != "u64"@[0]);
    assert("f32"@[0] != "u128"@[0]);
    assert("f32"@[0] != "isize"@[0]);
    assert("f32"@[0] != "usize"@[0]);
    assert("f64"@[0] != "String"@[0]);
    assert("f64"@[0] != "str"@[0]);
    assert("f64"@[0] != "i8"@[0]);
    assert("f64"@[0] != "i16"@[0]);
    assert("f64"@[0] != "i32"@[0]);
    assert("f64"@[0] != "i64"@[0]);
    assert("f64"@[0] != "i128"@[0]);
    assert("f64"@[0] != "u8"@[0]);
    assert("f64"@[0] != "u16"@[0]);
    assert("f64"@[0] != "u32"@[0]);
    assert("f64"@[0] != "u64"@[0]);
    assert("f64"@[0] != "u128"@[0]);
    assert("f64"@[0] != "isize"@[0]);
    assert("f64"@[0] != "usize"@[0]);
    assert("bool"@[0] != "String"@[0]);
    assert("bool"@[0] != "str"@[0]);
    assert("bool"@[0] != "i8"@[0]);
    assert("bool"@[0] != "i16"@[0]);
    assert("bool"@[0] != "i32"@[0]);
    assert("bool"@[0] != "i64"@[0]);
    assert("bool"@[0] != "i128"@[0]);
    assert("bool"@[0] != "u8"@[0]);
    assert("bool"@[0] != "u16"@[0]);
    assert("bool"@[0] != "u32"@[0]);
    assert("bool"@[0] != "u64"@[0]);
    assert("bool"@[0] != "u128"@[0]);
    assert("bool"@[0] != "isize"@[0]);
    assert("bool"@[0] != "usize"@[0]);
    assert("bool"@[0] != "f32"@[0]);
    assert("bool"@[0] != "f64"@[0]);
    assert("Vec"@[0] != "String"@[0]);
    assert("Vec"@[0] != "str"@[0]);
    assert("Vec"@[0] != "i8"@[0]);
    assert("Vec"@[0] != "i16"@[0]);
    assert("Vec"@[0] != "i32"@[0]);
    assert("Vec"@[0] != "i64"@[0]);
    assert("Vec"@[0] != "i128"@[0]);
    assert("Vec"@[0] != "u8"@[0]);
    assert("Vec"@[0] != "u16"@[0]);
    assert("Vec"@[0] != "u32"@[0]);
    assert("Vec"@[0] != "u64"@[0]);
    assert("Vec"@[0] != "u128"@[0]);
    assert("Vec"@[0] != "isize"@[0]);
    assert("Vec"@[0] != "usize"@[0]);
    assert("Vec"@[0] != "f32"@[0]);
    assert("Vec"@[0] != "f64"@[0]);
    assert("Vec"@[0] != "bool"@[0]);
    assert("HashMap"@[0] != "String"@[0]);
    assert("HashMap"@[0] != "str"@[0]);
    assert("HashMap"@[0] != "i8"@[0]);
    assert("HashMap"@[0] != "i16"@[0]);
    assert("HashMap"@[0] != "i32"@[0]);
    assert("HashMap"@[0] != "i64"@[0]);
    assert("HashMap"@[0] != "i128"@[0]);
    assert("HashMap"@[0] != "u8"@[0]);
    assert("HashMap"@[0] != "u16"@[0]);
    assert("HashMap"@[0] != "u32"@[0]);
    assert("HashMap"@[0] != "u64"@[0]);
    assert("HashMap"@[0] != "u128"@[0]);
    assert("HashMap"@[0] != "isize"@[0]);
    assert("HashMap"@[0] != "usize"@[0]);
    assert("HashMap"@[0] != "f32"@[0]);
    assert("HashMap"@[0] != "f64"@[0]);
    assert("HashMap"@[0] != "bool"@[0]);
    assert("HashMap"@[0] != "Vec"@[0]);
    assert("BTreeMap"@[0] != "String"@[0]);
    assert("BTreeMap"@[0] != "str"@[0]);
    assert("BTreeMap"@[0] != "i8"@[0]);
    assert("BTreeMap"@[0] != "i16"@[0]);
    assert("BTreeMap"@[0] != "i32"@[0]);
    assert("BTreeMap"@[0] != "i64"@[0]);
    assert("BTreeMap"@[0] != "i128"@[0]);
    assert("BTreeMap"@[0] != "u8"@[0]);
    assert("BTreeMap"@[0] != "u16"@[0]);
    assert("BTreeMap"@[0] != "u32"@[0]);
    assert("BTreeMap"@[0] != "u64"@[0]);
    assert("BTreeMap"@[0] != "u128"@[0]);
    assert("BTreeMap"@[0] != "isize"@[0]);
    assert("BTreeMap"@[0] != "usize"@[0]);
    assert("BTreeMap"@[0] != "f32"@[0]);
    assert("BTreeMap"@[0] != "f64"@[0]);
    assert("BTreeMap"@[0] != "bool"@[0]);
    assert("BTreeMap"@[0] != "Vec"@[0]);
}

/// A field of one of those types other than `Vec` is described by its JSON
/// type alone: `{"type": t}`.
pub proof fn law_field_schema_table(arg: Option<Box<TypeView>>)
    ensures
        field_schema(TypeView::Path { ident: "String"@, arg }) == FieldSchemaView::Typed("string"@),
        field_schema(TypeView::Path { ident: "str"@, arg }) == FieldSchemaView::Typed("string"@),
        field_schema(TypeView::Path { ident: "i8"@, arg }) == FieldSchemaView::Typed("integer"@),
        field_schema(TypeView::Path { ident: "i16"@, arg }) == FieldSchemaView::Typed("integer"@),
        field_schema(TypeView::Path { ident: "i32"@, arg }) == FieldSchemaView::Typed("integer"@),
        field_schema(TypeView::Path { ident: "i64"@, arg }) == FieldSchemaView::Typed("integer"@),
        field_schema(TypeView::Path { ident: "i128"@, arg }) == FieldSchemaView::Typed("integer"@),
        field_schema(TypeView::Path { ident: "u8"@, arg }) == FieldSchemaView::Typed("integer"@),
        field_schema(TypeView::Path { ident: "u16"@, arg }) == FieldSchemaView::Typed("integer"@),
        field_schema(TypeView::Path { ident: "u32"@, arg }) == FieldSchemaView::Typed("integer"@),
        field_schema(TypeView::Path { ident: "u64"@, arg }) == FieldSchemaView::Typed("integer"@),
        field_schema(TypeView::Path { ident: "u128"@, arg }) == FieldSchemaView::Typed("integer"@),
        field_schema(TypeView::Path { ident: "isize"@, arg }) == FieldSchemaView::Typed("integer"@),
        field_schema(TypeView::Path { ident: "usize"@, arg }) == FieldSchemaView::Typed("integer"@),
        field_schema(TypeView::Path { ident: "f32"@, arg }) == FieldSchemaView::Typed("number"@),
        field_schema(TypeView::Path { ident: "f64"@, arg }) == FieldSchemaView::Typed("number"@),
        field_schema(TypeView::Path { ident: "bool"@, arg }) == FieldSchemaView::Typed("boolean"@),
        field_schema(TypeView::Path { ident: "HashMap"@, arg }) == FieldSchemaView::Typed("object"@),
        field_schema(TypeView::Path { ident: "BTreeMap"@, arg }) == FieldSchemaView::Typed("object"@),
{
    law_json_type_table(arg);
    reveal_strlit("BTreeMap");
    reveal_strlit("HashMap");
    reveal_strlit("Option");
    reveal_strlit("String");
    reveal_strlit("Vec");
    reveal_strlit("array");
    reveal_strlit("bool");
    reveal_strlit("boolean");
    reveal_strlit("f32");
    reveal_strlit("f64");
    reveal_strlit("i128");
    reveal_strlit("i16");
    reveal_strlit("i32");
    reveal_strlit("i64");
    reveal_strlit("i8");
    reveal_strlit("integer");
    reveal_strlit("isize");
    reveal_strlit("number");
    reveal_strlit("object");
    reveal_strlit("str");
    reveal_strlit("string");
    reveal_strlit("u128");
    reveal_strlit("u16");
    reveal_strlit("u32");
    reveal_strlit("u64");
    reveal_strlit("u8");
    reveal_strlit("usize");
    assert("String"@[0] != "Vec"@[0] && "String"@[0] != "Option"@[0]);
    assert("str"@[0] != "Vec"@[0] && "str"@[0] != "Option"@[0]);
    assert("i8"@[0] != "Vec"@[0] && "i8"@[0] != "Option"@[0]);
    assert("i16"@[0] != "Vec"@[0] && "i16"@[0] != "Option"@[0]);
    assert("i32"@[0] != "Vec"@[0] && "i32"@[0] != "Option"@[0]);
    assert("i64"@[0] != "Vec"@[0] && "i64"@[0] != "Option"@[0]);
    assert("i128"@[0] != "Vec"@[0] && "i128"@[0] != "Option"@[0]);
    assert("u8"@[0] != "Vec"@[0] && "u8"@[0] != "Option"@[0]);
    assert("u16"@[0] != "Vec"@[0] && "u16"@[0] != "Option"@[0]);
    assert("u32"@[0] != "Vec"@[0] && "u32"@[0] != "Option"@[0]);
    assert("u64"@[0] != "Vec"@[0] && "u64"@[0] != "Option"@[0]);
    assert("u128"@[0] != "Vec"@[0] && "u128"@[0] != "Option"@[0]);
    assert("isize"@[0] != "Vec"@[0] && "isize"@[0] != "Option"@[0]);
    assert("usize"@[0] != "Vec"@[0] && "usize"@[0] != "Option"@[0]);
    assert("f32"@[0] != "Vec"@[0] && "f32"@[0] != "Option"@[0]);
    assert("f64"@[0] != "Vec"@[0] && "f64"@[0] != "Option"@[0]);
    assert("bool"@[0] != "Vec"@[0] && "bool"@[0] != "Option"@[0]);
    assert("HashMap"@[0] != "Vec"@[0] && "HashMap"@[0] != "Option"@[0]);
    assert("BTreeMap"@[0] != "Vec"@[0] && "BTreeMap"@[0] != "Option"@[0]);
}

} // verus!
