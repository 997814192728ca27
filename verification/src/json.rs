//! The library's own JSON value: the data that tool definitions, tool calls,
//! schemas and provider requests are made of.
//!
//! Text is read by `serde_json`; the value it yields is carried into [`Json`]
//! one for one, so that every decision the library takes on JSON data is
//! made, and proved, on this type.
use vstd::prelude::*;
use crate::error::JsonError;
use serde_json::Value;

verus! {

/// A JSON number as `serde_json` keeps it: a non-negative integer, a
/// negative integer, or a finite float (held by its shortest decimal text).
#[derive(Debug, Clone, PartialEq)]
pub enum JsonNumber {
    PosInt(u64),
    NegInt(i64),
    Float(String),
}

/// The view of a [`JsonNumber`].
pub enum NumberView {
    PosInt(u64),
    NegInt(i64),
    Float(Seq<char>),
}

impl View for JsonNumber {
    type V = NumberView;

    open spec fn view(&self) -> NumberView {
        match self {
            JsonNumber::PosInt(u) => NumberView::PosInt(*u),
            JsonNumber::NegInt(i) => NumberView::NegInt(*i),
            JsonNumber::Float(t) => NumberView::Float(t@),
        }
    }
}

impl JsonNumber {
    /// A copy of the number.
    pub fn copy(&self) -> (r: JsonNumber)
        ensures
            r@ == self@,
    {
        match self {
            JsonNumber::PosInt(u) => JsonNumber::PosInt(*u),
            JsonNumber::NegInt(i) => JsonNumber::NegInt(*i),
            JsonNumber::Float(t) => JsonNumber::Float(t.clone()),
        }
    }
}

/// A JSON value.
///
/// Objects keep their entries in order; a key is looked up at its first
/// entry.
#[derive(Debug, PartialEq)]
pub enum Json {
    Null,
    Bool(bool),
    Number(JsonNumber),
    String(String),
    Array(Vec<Json>),
    Object(Vec<(String, Json)>),
}

/// The mathematical value of a [`Json`]: strings become character sequences.
pub enum JsonView {
    Null,
    Bool(bool),
    Number(NumberView),
    Str(Seq<char>),
    Array(Seq<JsonView>),
    Object(Seq<(Seq<char>, JsonView)>),
}

/// The value of `key` at its first entry in `entries`.
pub open spec fn lookup(entries: Seq<(Seq<char>, JsonView)>, key: Seq<char>) -> Option<JsonView>
    decreases entries.len(),
{
    if entries.len() == 0 {
        None
    } else if entries[0].0 == key {
        Some(entries[0].1)
    } else {
        lookup(entries.drop_first(), key)
    }
}

/// The position of the first entry of `key` in `entries`; -1 where there is none.
pub open spec fn first_key_index(entries: Seq<(Seq<char>, JsonView)>, key: Seq<char>) -> int
    decreases entries.len(),
{
    if entries.len() == 0 {
        -1
    } else if entries[0].0 == key {
        0
    } else {
        let rest = first_key_index(entries.drop_first(), key);
        if rest < 0 {
            -1
        } else {
            rest + 1
        }
    }
}

/// `first_key_index` finds the entry that `lookup` reads, or says there is none.
pub proof fn lemma_first_key_index(entries: Seq<(Seq<char>, JsonView)>, key: Seq<char>)
    ensures
        -1 <= first_key_index(entries, key) < entries.len(),
        first_key_index(entries, key) >= 0 <==> lookup(entries, key) is Some,
        first_key_index(entries, key) >= 0 ==> {
            let i = first_key_index(entries, key);
            &&& entries[i].0 == key
            &&& lookup(entries, key) == Some(entries[i].1)
            &&& forall|j: int| 0 <= j < i ==> (#[trigger] entries[j]).0 != key
        },
        first_key_index(entries, key) < 0 ==> forall|j: int|
            0 <= j < entries.len() ==> (#[trigger] entries[j]).0 != key,
    decreases entries.len(),
{
    if entries.len() > 0 {
        lemma_first_key_index(entries.drop_first(), key);
        assert forall|j: int| 1 <= j < entries.len() implies entries[j] == entries.drop_first()[j - 1] by {}
    }
}

/// Replacing an entry of another key keeps what `key` looks up.
pub proof fn lemma_lookup_update_other(
    entries: Seq<(Seq<char>, JsonView)>,
    i: int,
    entry: (Seq<char>, JsonView),
    key: Seq<char>,
)
    requires
        0 <= i < entries.len(),
        entries[i].0 != key,
        entry.0 != key,
    ensures
        lookup(entries.update(i, entry), key) == lookup(entries, key),
    decreases entries.len(),
{
    if i > 0 {
        lemma_lookup_update_other(entries.drop_first(), i - 1, entry, key);
        assert(entries.update(i, entry).drop_first() =~= entries.drop_first().update(i - 1, entry));
    } else {
        assert(entries.update(i, entry).drop_first() =~= entries.drop_first());
    }
}

/// Appending an entry of another key keeps what `key` looks up.
pub proof fn lemma_lookup_push_other(
    entries: Seq<(Seq<char>, JsonView)>,
    entry: (Seq<char>, JsonView),
    key: Seq<char>,
)
    requires
        entry.0 != key,
    ensures
        lookup(entries.push(entry), key) == lookup(entries, key),
    decreases entries.len(),
{
    if entries.len() > 0 {
        lemma_lookup_push_other(entries.drop_first(), entry, key);
        assert(entries.push(entry).drop_first() =~= entries.drop_first().push(entry));
    } else {
        assert(entries.push(entry).drop_first() =~= entries);
    }
}

impl JsonView {
    /// The value under `key` when `self` is an object that has the key.
    pub open spec fn get(self, key: Seq<char>) -> Option<JsonView> {
        match self {
            JsonView::Object(entries) => lookup(entries, key),
            _ => None,
        }
    }

    /// `value[key]` as `serde_json` reads it: `null` where there is no such entry.
    pub open spec fn at(self, key: Seq<char>) -> JsonView {
        match self.get(key) {
            Some(v) => v,
            None => JsonView::Null,
        }
    }

    /// The text when `self` is a string.
    pub open spec fn as_str(self) -> Option<Seq<char>> {
        match self {
            JsonView::Str(s) => Some(s),
            _ => None,
        }
    }

    /// The first element when `self` is a non-empty array.
    pub open spec fn first_element(self) -> Option<JsonView> {
        match self {
            JsonView::Array(items) => if items.len() > 0 {
                Some(items[0])
            } else {
                None
            },
            _ => None,
        }
    }

    /// `{}`
    pub open spec fn empty_object() -> JsonView {
        JsonView::Object(Seq::empty())
    }
}

impl Json {
    /// The view of a value.
    pub open spec fn model(self) -> JsonView
        decreases self,
    {
        match self {
            Json::Null => JsonView::Null,
            Json::Bool(b) => JsonView::Bool(b),
            Json::Number(n) => JsonView::Number(n@),
            Json::String(s) => JsonView::Str(s@),
            Json::Array(items) => JsonView::Array(
                Seq::new(
                    items@.len(),
                    |i: int|
                        if 0 <= i < items@.len() {
                            items@[i].model()
                        } else {
                            JsonView::Null
                        },
                ),
            ),
            Json::Object(entries) => JsonView::Object(
                Seq::new(
                    entries@.len(),
                    |i: int|
                        if 0 <= i < entries@.len() {
                            (entries@[i].0@, entries@[i].1.model())
                        } else {
                            (Seq::empty(), JsonView::Null)
                        },
                ),
            ),
        }
    }
}

impl View for Json {
    type V = JsonView;

    open spec fn view(&self) -> JsonView {
        self.model()
    }
}

/// The view of a sequence of values.
pub open spec fn views(items: Seq<Json>) -> Seq<JsonView> {
    Seq::new(items.len(), |i: int| items[i]@)
}

/// The view of a sequence of object entries.
pub open spec fn entry_views(entries: Seq<(String, Json)>) -> Seq<(Seq<char>, JsonView)> {
    Seq::new(entries.len(), |i: int| (entries[i].0@, entries[i].1@))
}

/// The view of an array is the views of its elements.
pub proof fn lemma_array_view(items: Vec<Json>)
    ensures
        Json::Array(items)@ == JsonView::Array(views(items@)),
{
    assert(Json::Array(items)@->Array_0 =~= views(items@));
}

/// The view of an object is the views of its entries.
pub proof fn lemma_object_view(entries: Vec<(String, Json)>)
    ensures
        Json::Object(entries)@ == JsonView::Object(entry_views(entries@)),
{
    assert(Json::Object(entries)@->Object_0 =~= entry_views(entries@));
}

/// A value and its view are of the same kind.
pub proof fn lemma_view_kind(v: Json)
    ensures
        v@ is Null <==> v is Null,
        v@ is Bool <==> v is Bool,
        v@ is Number <==> v is Number,
        v@ is Str <==> v is String,
        v@ is Array <==> v is Array,
        v@ is Object <==> v is Object,
        v is Number ==> v@ == JsonView::Number(v->Number_0@),
        v is String ==> v@ == JsonView::Str(v->String_0@),
        v is Bool ==> v@ == JsonView::Bool(v->Bool_0),
{
}

/// `key == lit`, by the characters.
pub fn string_is(key: &String, lit: &str) -> (r: bool)
    ensures
        r == (key@ == lit@),
{
    *key == lit.to_owned()
}

/// The value of `key` at its first entry in `entries`.
pub fn lookup_entry<'a>(entries: &'a Vec<(String, Json)>, key: &str) -> (r: Option<&'a Json>)
    ensures
        r is Some <==> lookup(entry_views(entries@), key@) is Some,
        r matches Some(v) ==> Some(v@) == lookup(entry_views(entries@), key@),
{
    let wanted = key.to_owned();
    let mut i: usize = 0;
    assert(entry_views(entries@).skip(0) =~= entry_views(entries@));
    while i < entries.len()
        invariant
            i <= entries@.len(),
            wanted@ == key@,
            lookup(entry_views(entries@), key@) == lookup(
                entry_views(entries@).skip(i as int),
                key@,
            ),
        decreases entries@.len() - i,
    {
        let ghost rest = entry_views(entries@).skip(i as int);
        assert(rest.drop_first() =~= entry_views(entries@).skip(i + 1));
        if entries[i].0 == wanted {
            return Some(&entries[i].1);
        }
        i = i + 1;
    }
    None
}

impl Json {
    /// A copy of the value.
    pub fn deep_copy(&self) -> (r: Json)
        ensures
            r@ == self@,
        decreases self,
    {
        match self {
            Json::Null => Json::Null,
            Json::Bool(b) => Json::Bool(*b),
            Json::Number(n) => Json::Number(n.copy()),
            Json::String(s) => Json::String(s.clone()),
            Json::Array(items) => {
                let mut out: Vec<Json> = Vec::new();
                let mut i: usize = 0;
                while i < items.len()
                    invariant
                        i <= items@.len(),
                        out@.len() == i,
                        forall|k: int| 0 <= k < i ==> (#[trigger] out@[k])@ == items@[k]@,
                        *self == Json::Array(*items),
                    decreases items@.len() - i,
                {
                    proof {
                        assert(decreases_to!(*self => self->Array_0));
                        assert(decreases_to!(*items => items@));
                        assert(decreases_to!(items@ => items@[i as int]));
                    }
                    out.push(items[i].deep_copy());
                    i = i + 1;
                }
                proof {
                    lemma_array_view(out);
                    lemma_array_view(*items);
                    assert(views(out@) =~= views(items@));
                }
                Json::Array(out)
            },
            Json::Object(entries) => {
                let mut out: Vec<(String, Json)> = Vec::new();
                let mut i: usize = 0;
                while i < entries.len()
                    invariant
                        i <= entries@.len(),
                        out@.len() == i,
                        forall|k: int|
                            0 <= k < i ==> (#[trigger] out@[k]).0@ == entries@[k].0@ && out@[k].1@
                                == entries@[k].1@,
                        *self == Json::Object(*entries),
                    decreases entries@.len() - i,
                {
                    proof {
                        assert(decreases_to!(*self => self->Object_0));
                        assert(decreases_to!(*entries => entries@));
                        assert(decreases_to!(entries@ => entries@[i as int]));
                        assert(decreases_to!(entries@[i as int] => entries@[i as int].1));
                    }
                    let key = entries[i].0.clone();
                    let value = entries[i].1.deep_copy();
                    out.push((key, value));
                    i = i + 1;
                }
                proof {
                    lemma_object_view(out);
                    lemma_object_view(*entries);
                    assert(entry_views(out@) =~= entry_views(entries@));
                }
                Json::Object(out)
            },
        }
    }

    /// The value under `key` when `self` is an object that has the key.
    pub fn get(&self, key: &str) -> (r: Option<&Json>)
        ensures
            r is Some <==> self@.get(key@) is Some,
            r matches Some(v) ==> Some(v@) == self@.get(key@),
    {
        match self {
            Json::Object(entries) => {
                proof {
                    lemma_object_view(*entries);
                }
                lookup_entry(entries, key)
            },
            _ => None,
        }
    }

    /// The entries when `self` is an object.
    pub fn as_object(&self) -> (r: Option<&Vec<(String, Json)>>)
        ensures
            r is Some <==> self@ is Object,
            r matches Some(entries) ==> self@ == JsonView::Object(entry_views(entries@)),
    {
        match self {
            Json::Object(entries) => {
                proof {
                    lemma_object_view(*entries);
                }
                Some(entries)
            },
            _ => None,
        }
    }

    /// The text when `self` is a string.
    pub fn as_str(&self) -> (r: Option<&String>)
        ensures
            r is Some <==> self@.as_str() is Some,
            r matches Some(s) ==> Some(s@) == self@.as_str(),
    {
        match self {
            Json::String(s) => Some(s),
            _ => None,
        }
    }

    /// The elements when `self` is an array.
    pub fn as_array(&self) -> (r: Option<&Vec<Json>>)
        ensures
            r is Some <==> self@ is Array,
            r matches Some(items) ==> self@ == JsonView::Array(views(items@)),
    {
        match self {
            Json::Array(items) => {
                proof {
                    lemma_array_view(*items);
                }
                Some(items)
            },
            _ => None,
        }
    }

    /// An empty object: `{}`.
    pub fn empty_object() -> (r: Json)
        ensures
            r@ == JsonView::empty_object(),
    {
        let entries: Vec<(String, Json)> = Vec::new();
        proof {
            lemma_object_view(entries);
            assert(entry_views(entries@) =~= Seq::empty());
        }
        Json::Object(entries)
    }

    /// A string value holding `s`.
    pub fn from_text(s: &str) -> (r: Json)
        ensures
            r@ == JsonView::Str(s@),
    {
        Json::String(s.to_owned())
    }
}

impl Clone for Json {
    /// A copy of the value: [`Json::deep_copy`].
    fn clone(&self) -> (r: Json)
        ensures
            r@ == self@,
    {
        self.deep_copy()
    }
}

} // verus!

verus! {

/// A JSON value of `serde_json`, carried into [`Json`] as soon as it is read.
#[verifier::external_type_specification]
#[verifier::external_body]
pub struct ExSerdeValue(serde_json::Value);

/// What `serde_json::from_str::<serde_json::Value>` reads from `text`, in the
/// library's model; `None` where it reports an error.
pub uninterp spec fn serde_json_reading(text: Seq<char>) -> Option<JsonView>;

/// Carries a `serde_json` value into [`Json`] one for one: each variant to
/// its namesake, a number to the integer kind `serde_json` holds it in (or to
/// its decimal text when it is a float), map entries in the map's order.
#[verifier::external_body]
fn json_from_serde(value: serde_json::Value) -> Json {
    match value {
        serde_json::Value::Null => Json::Null,
        serde_json::Value::Bool(b) => Json::Bool(b),
        serde_json::Value::Number(n) => Json::Number(match (n.as_u64(), n.as_i64()) {
            (Some(u), _) => JsonNumber::PosInt(u),
            (None, Some(i)) => JsonNumber::NegInt(i),
            (None, None) => JsonNumber::Float(n.to_string()),
        }),
        serde_json::Value::String(s) => Json::String(s),
        serde_json::Value::Array(a) => Json::Array(a.into_iter().map(json_from_serde).collect()),
        serde_json::Value::Object(m) => Json::Object(m.into_iter().map(|(k, v)| (k, json_from_serde(v))).collect()),
    }
}

/// Reads JSON text with `serde_json::from_str` (into `serde_json::Value`).
/// Claimed: the outcome is [`serde_json_reading`] of the text, a function of
/// the text alone; what that reading is on given text, and what the error
/// says, are not stated.
#[verifier::external_body]
pub fn parse_json(text: &str) -> (r: Result<Json, JsonError>)
    ensures
        match r {
            Ok(v) => serde_json_reading(text@) == Some(v@),
            Err(_) => serde_json_reading(text@) is None,
        },
{
    match serde_json::from_str::<serde_json::Value>(text) {
        Ok(v) => Ok(json_from_serde(v)),
        Err(e) => Err(JsonError { message: e.to_string(), line: e.line(), column: e.column() }),
    }
}

/// The text that `serde_json::Value`'s `Debug` gives for a value, in the
/// library's model (`String("a")`, `Number(1)`, `Array [..]`, ...).
pub uninterp spec fn serde_debug_text(value: JsonView) -> Seq<char>;

/// Carries a value into `serde_json` one for one: each variant to its
/// namesake, an integer to a `serde_json` number, a float by reading its
/// text, object entries into the map (collected last to first, so that of
/// two entries of one key the first stays, as [`lookup`] reads it).
#[verifier::external_body]
fn serde_from_json(json: &Json) -> Value {
    match json {
        Json::Null => Value::Null,
        Json::Bool(b) => Value::Bool(*b),
        Json::Number(JsonNumber::PosInt(u)) => Value::from(*u),
        Json::Number(JsonNumber::NegInt(i)) => Value::from(*i),
        Json::Number(JsonNumber::Float(t)) => serde_json::from_str(t).unwrap_or(Value::Null),
        Json::String(s) => Value::String(s.clone()),
        Json::Array(a) => Value::Array(a.iter().map(serde_from_json).collect()),
        Json::Object(m) => Value::Object(m.iter().rev().map(|(k, v)| (k.clone(), serde_from_json(v))).collect()),
    }
}

/// Formats a value as `serde_json::Value`'s `Debug` does (`format!("{:?}",
/// ..)`). Claimed: the text is [`serde_debug_text`] of the value, a function
/// of the value alone; what that text is, is not stated.
#[verifier::external_body]
pub fn debug_text(value: &Json) -> (r: String)
    ensures
        r@ == serde_debug_text(value@),
{
    format!("{:?}", serde_from_json(value))
}

} // verus!
