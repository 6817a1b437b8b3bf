//! JSON values. They are `serde_json`'s: this module says what the operations on them do, over a
//! mathematical model of JSON.
//!
//! The statements are about `serde_json` as this crate builds it: without `preserve_order`, so
//! that an object keeps its entries sorted by key and is determined by them, and without
//! `arbitrary_precision`, `raw_value` and `unbounded_depth`.
use vstd::prelude::*;

verus! {

/// A JSON value.
pub enum Json {
    Null,
    Bool(bool),
    Integer(int),
    /// A number that is held in floating point, by the bits of its IEEE 754 representation.
    Float(u64),
    Text(Seq<char>),
    Array(Seq<Json>),
    Object(Map<Seq<char>, Json>),
}

/// `serde_json::Value`; `json_of` says what one holds.
#[verifier::external_type_specification]
#[verifier::external_body]
pub struct ExValue(serde_json::Value);

/// `serde_json::Map`; `entries_of` says what one holds.
#[verifier::external_type_specification]
#[verifier::external_body]
#[verifier::reject_recursive_types(K)]
#[verifier::reject_recursive_types(V)]
pub struct ExJsonMap<K, V>(serde_json::Map<K, V>);

/// The JSON value that a `serde_json::Value` holds.
pub uninterp spec fn json_of(value: serde_json::Value) -> Json;

/// The entries of a `serde_json` object.
pub uninterp spec fn entries_of(
    object: serde_json::Map<String, serde_json::Value>,
) -> Map<Seq<char>, Json>;

/// The text that `serde_json::to_string` writes for a JSON value.
pub uninterp spec fn json_text(value: Json) -> Seq<char>;

/// What `serde_json::from_str` reads from a text: a JSON value, or the message of the error.
pub uninterp spec fn parsed_json(text: Seq<char>) -> Result<Json, Seq<char>>;

/// `text` reads as `value`.
pub open spec fn reads_as(text: Seq<char>, value: Json) -> bool {
    parsed_json(text) == Ok::<Json, Seq<char>>(value)
}

/// What a read handed out: the JSON value, or the message of the error.
pub open spec fn outcome_of(read: Result<serde_json::Value, String>) -> Result<Json, Seq<char>> {
    match read {
        Ok(value) => Ok(json_of(value)),
        Err(message) => Err(message@),
    }
}

/// The JSON values that a sequence of `serde_json` values holds.
pub open spec fn jsons_of(values: Seq<serde_json::Value>) -> Seq<Json> {
    values.map_values(|value: serde_json::Value| json_of(value))
}

/// The entries of an empty object.
pub open spec fn no_entries() -> Map<Seq<char>, Json> {
    Map::empty()
}

/// The JSON texts of a list of strings.
pub open spec fn texts_json(texts: Seq<Seq<char>>) -> Seq<Json> {
    texts.map_values(|text: Seq<char>| Json::Text(text))
}

/// The value holds no floating-point number, at any depth.
pub open spec fn holds_no_float(value: Json) -> bool
    decreases value,
{
    match value {
        Json::Float(_) => false,
        Json::Array(items) => forall|i: int|
            0 <= i < items.len() ==> holds_no_float(#[trigger] items[i]),
        Json::Object(entries) => forall|key: Seq<char>| #[trigger]
            entries.contains_key(key) ==> holds_no_float(entries[key]),
        _ => true,
    }
}

/// Arrays and objects are nested in the value at most `depth` deep.
pub open spec fn nests_within(value: Json, depth: nat) -> bool
    decreases depth,
{
    match value {
        Json::Array(items) => depth > 0 && forall|i: int|
            0 <= i < items.len() ==> nests_within(#[trigger] items[i], (depth - 1) as nat),
        Json::Object(entries) => depth > 0 && forall|key: Seq<char>| #[trigger]
            entries.contains_key(key) ==> nests_within(entries[key], (depth - 1) as nat),
        _ => true,
    }
}

/// `serde_json::to_string` on a `Value`. It fails only where a `Serialize` implementation fails
/// or a map has keys that are no strings; a `Value` does neither. An empty object is written as
/// `{}`. A text written for a value without floating-point numbers reads back as that value, as
/// long as it stays within the reader's limit of 127 nested arrays and objects. Nothing is said of
/// how a floating-point number reads back: without `float_roundtrip` the reader may come out at a
/// neighbouring one.
#[verifier::external_body]
pub(crate) fn write_json(value: &serde_json::Value) -> (text: Result<String, String>)
    ensures
        match text {
            Ok(text) => {
                &&& text@ == json_text(json_of(*value))
                &&& json_of(*value) == Json::Object(no_entries()) ==> text@ == "{}"@
                &&& holds_no_float(json_of(*value)) && nests_within(json_of(*value), 127)
                    ==> reads_as(text@, json_of(*value))
            },
            Err(_) => false,
        },
{
    match serde_json::to_string(value) {
        Ok(text) => Ok(text),
        Err(error) => Err(error.to_string()),
    }
}

/// `serde_json::from_str` into a `Value`, with the message of the error where it fails. What it
/// reads, and each message, depends on the text alone. Arrays and objects that are nested more
/// than 127 deep are refused.
#[verifier::external_body]
pub(crate) fn read_json(text: &str) -> (value: Result<serde_json::Value, String>)
    ensures
        outcome_of(value) == parsed_json(text@),
        match value {
            Ok(value) => nests_within(json_of(value), 127),
            Err(_) => true,
        },
{
    match serde_json::from_str(text) {
        Ok(value) => Ok(value),
        Err(error) => Err(error.to_string()),
    }
}

/// `serde_json::Value::default`, which is null.
#[verifier::external_body]
pub(crate) fn null_value() -> (value: serde_json::Value)
    ensures
        json_of(value) == Json::Null,
{
    serde_json::Value::default()
}

/// `serde_json::Value::from` on a `bool`.
#[verifier::external_body]
pub(crate) fn bool_value(flag: bool) -> (value: serde_json::Value)
    ensures
        json_of(value) == Json::Bool(flag),
{
    serde_json::Value::from(flag)
}

/// `serde_json::Value::from` on an optional number: null where there is none.
#[verifier::external_body]
pub(crate) fn number_value(number: Option<u32>) -> (value: serde_json::Value)
    ensures
        json_of(value) == match number {
            Some(n) => Json::Integer(n as int),
            None => Json::Null,
        },
{
    serde_json::Value::from(number)
}

/// `serde_json::Value::from` on a string.
#[verifier::external_body]
pub(crate) fn text_value(text: String) -> (value: serde_json::Value)
    ensures
        json_of(value) == Json::Text(text@),
{
    serde_json::Value::from(text)
}

/// `serde_json::Value::from` on a list of values: the array of them, in order.
#[verifier::external_body]
pub(crate) fn array_value(items: Vec<serde_json::Value>) -> (value: serde_json::Value)
    ensures
        json_of(value) == Json::Array(jsons_of(items@)),
{
    serde_json::Value::from(items)
}

/// `serde_json::Value::from` on an object.
#[verifier::external_body]
pub(crate) fn object_value(
    object: serde_json::Map<String, serde_json::Value>,
) -> (value: serde_json::Value)
    ensures
        json_of(value) == Json::Object(entries_of(object)),
{
    serde_json::Value::from(object)
}

/// `serde_json::Value::as_str`: the text of a string, and nothing of any other value.
#[verifier::external_body]
pub(crate) fn as_text(value: &serde_json::Value) -> (text: Option<&str>)
    ensures
        match text {
            Some(text) => json_of(*value) == Json::Text(text@),
            None => !(json_of(*value) is Text),
        },
{
    value.as_str()
}

/// `serde_json::Value::get` with a key: the value under it, if this is an object that has it.
#[verifier::external_body]
pub(crate) fn get_field<'a>(value: &'a serde_json::Value, key: &str) -> (field: Option<
    &'a serde_json::Value,
>)
    ensures
        match field {
            Some(field) => {
                &&& json_of(*value) is Object
                &&& json_of(*value)->Object_0.contains_key(key@)
                &&& json_of(*field) == json_of(*value)->Object_0[key@]
            },
            None => json_of(*value) is Object ==> !json_of(*value)->Object_0.contains_key(key@),
        },
{
    value.get(key)
}

/// `serde_json::Value::as_object_mut`: the object inside the value, if it is one. The value holds
/// in the end what the object holds in the end.
#[verifier::external_body]
pub(crate) fn as_object_mut(value: &mut serde_json::Value) -> (found: Option<
    &mut serde_json::Map<String, serde_json::Value>,
>)
    ensures
        match found {
            Some(object) => {
                &&& json_of(*old(value)) == Json::Object(entries_of(*object))
                &&& json_of(*final(value)) == Json::Object(entries_of(*final(object)))
            },
            None => {
                &&& !(json_of(*old(value)) is Object)
                &&& json_of(*final(value)) == json_of(*old(value))
            },
        },
{
    value.as_object_mut()
}

/// `serde_json::Value::as_array_mut`: the list inside the value, if it is an array. The value
/// holds in the end what the list holds in the end.
#[verifier::external_body]
pub(crate) fn as_array_mut(value: &mut serde_json::Value) -> (found: Option<
    &mut Vec<serde_json::Value>,
>)
    ensures
        match found {
            Some(items) => {
                &&& json_of(*old(value)) == Json::Array(jsons_of(items@))
                &&& json_of(*final(value)) == Json::Array(jsons_of(final(items)@))
            },
            None => {
                &&& !(json_of(*old(value)) is Array)
                &&& json_of(*final(value)) == json_of(*old(value))
            },
        },
{
    value.as_array_mut()
}

/// `serde_json::Map::new`: an object without entries.
#[verifier::external_body]
pub(crate) fn new_object() -> (object: serde_json::Map<String, serde_json::Value>)
    ensures
        entries_of(object) == no_entries(),
{
    serde_json::Map::new()
}

/// `serde_json::Map::insert`: the value stands under the key afterwards, in place of what may
/// have stood there.
#[verifier::external_body]
pub(crate) fn insert_entry(
    object: &mut serde_json::Map<String, serde_json::Value>,
    key: &str,
    value: serde_json::Value,
)
    ensures
        entries_of(*final(object)) == entries_of(*old(object)).insert(key@, json_of(value)),
{
    object.insert(key.to_string(), value);
}

/// `serde_json::Map::entry` with `or_insert`: the value stands under the key afterwards if the
/// key was not there; else nothing changes.
#[verifier::external_body]
pub(crate) fn insert_if_absent(
    object: &mut serde_json::Map<String, serde_json::Value>,
    key: &str,
    value: serde_json::Value,
)
    ensures
        entries_of(*final(object)) == with_default(entries_of(*old(object)), key@, json_of(value)),
{
    object.entry(key).or_insert(value);
}

/// `serde_json::Map::get_mut`: the value under the key, if it is there. The object holds in the
/// end what that value holds in the end, and its other entries.
#[verifier::external_body]
pub(crate) fn get_entry_mut<'a>(
    object: &'a mut serde_json::Map<String, serde_json::Value>,
    key: &str,
) -> (found: Option<&'a mut serde_json::Value>)
    ensures
        match found {
            Some(value) => {
                &&& entries_of(*old(object)).contains_key(key@)
                &&& json_of(*value) == entries_of(*old(object))[key@]
                &&& entries_of(*final(object)) == entries_of(*old(object)).insert(
                    key@,
                    json_of(*final(value)),
                )
            },
            None => {
                &&& !entries_of(*old(object)).contains_key(key@)
                &&& entries_of(*final(object)) == entries_of(*old(object))
            },
        },
{
    object.get_mut(key)
}

/// The entries with `value` under `key`, unless something stands there already.
pub open spec fn with_default(
    entries: Map<Seq<char>, Json>,
    key: Seq<char>,
    value: Json,
) -> Map<Seq<char>, Json> {
    if entries.contains_key(key) {
        entries
    } else {
        entries.insert(key, value)
    }
}

/// The array of a list of strings.
pub(crate) fn texts_value(texts: &Vec<String>) -> (value: serde_json::Value)
    ensures
        json_of(value) == Json::Array(texts_json(texts.deep_view())),
{
    let mut items: Vec<serde_json::Value> = Vec::new();
    let mut i: usize = 0;
    while i < texts.len()
        invariant
            i <= texts@.len(),
            items@.len() == i,
            forall|j: int| 0 <= j < i ==> json_of(#[trigger] items@[j]) == Json::Text(texts@[j]@),
        decreases texts@.len() - i,
    {
        items.push(text_value(texts[i].clone()));
        i += 1;
    }
    assert(jsons_of(items@) =~= texts_json(texts.deep_view()));
    array_value(items)
}

/// The array of a list of texts has the texts in their order.
pub proof fn law_texts_stay_in_order(texts: Seq<Seq<char>>)
    ensures
        texts_json(texts).len() == texts.len(),
        forall|i: int|
            0 <= i < texts.len() ==> #[trigger] texts_json(texts)[i] == Json::Text(texts[i]),
{
}

/// A default takes effect exactly where nothing stands under the key, and changes nothing else.
pub proof fn law_default_fills_gap(
    entries: Map<Seq<char>, Json>,
    key: Seq<char>,
    value: Json,
    other: Seq<char>,
)
    ensures
        ({
            let filled = with_default(entries, key, value);
            &&& filled.contains_key(key)
            &&& filled[key] == if entries.contains_key(key) {
                entries[key]
            } else {
                value
            }
            &&& other != key ==> filled.contains_key(other) == entries.contains_key(other)
            &&& other != key && entries.contains_key(other) ==> filled[other] == entries[other]
        }),
{
}

} // verus!
