//! JSON values, as `serde_json` holds them.
use serde_json::Value;
use vstd::prelude::*;

verus! {

/// `serde_json::Value`, carried as an opaque value.
#[verifier::external_type_specification]
#[verifier::external_body]
pub struct ExValue(Value);

/// What a JSON value holds. A number is given by its text.
pub enum JsonView {
    Null,
    Bool(bool),
    Number(Seq<char>),
    String(Seq<char>),
    Array(Seq<JsonView>),
    Object(Map<Seq<char>, JsonView>),
}

/// The contents of a JSON value.
pub uninterp spec fn json_view(value: Value) -> JsonView;

/// The text of a JSON value, as `serde_json` writes it on one line.
pub uninterp spec fn json_text(value: JsonView) -> Seq<char>;

/// The object with the given fields: of two fields with one key, the later one
/// counts.
pub open spec fn json_fields(fields: Seq<(String, Value)>) -> Map<Seq<char>, JsonView>
    decreases fields.len(),
{
    if fields.len() == 0 {
        Map::empty()
    } else {
        json_fields(fields.drop_last()).insert(fields.last().0@, json_view(fields.last().1))
    }
}

/// Makes a `Value::String` of the given text.
#[verifier::external_body]
pub(crate) fn json_string(text: String) -> (value: Value)
    ensures
        json_view(value) == JsonView::String(text@),
{
    Value::String(text)
}

/// Makes a `Value::Array` of the given values, in the given order.
#[verifier::external_body]
pub(crate) fn json_array(values: Vec<Value>) -> (value: Value)
    ensures
        json_view(value) == JsonView::Array(values@.map_values(|v: Value| json_view(v))),
{
    Value::Array(values)
}

/// Makes a JSON array of the given texts.
pub fn json_strings(texts: &Vec<String>) -> (value: Value)
    ensures
        json_view(value) == JsonView::Array(texts@.map_values(|s: String| JsonView::String(s@))),
{
    let mut values: Vec<Value> = Vec::new();
    let mut i: usize = 0;
    while i < texts.len()
        invariant
            i <= texts@.len(),
            values@.len() == i,
            forall|j: int|
                0 <= j < i ==> json_view(#[trigger] values@[j]) == JsonView::String(texts@[j]@),
        decreases texts@.len() - i,
    {
        values.push(json_string(texts[i].clone()));
        i = i + 1;
    }
    assert(values@.map_values(|v: Value| json_view(v)) =~= texts@.map_values(
        |s: String| JsonView::String(s@),
    ));
    json_array(values)
}

/// Collects key-value pairs into a `Value::Object`, by `Value`'s `FromIterator`.
#[verifier::external_body]
pub(crate) fn json_object(fields: Vec<(String, Value)>) -> (value: Value)
    ensures
        json_view(value) == JsonView::Object(json_fields(fields@)),
{
    fields.into_iter().collect()
}

/// Calls `Value`'s `to_string`. An object keeps its fields in the order of their keys
/// (the `preserve_order` feature is off), so the text depends on the contents alone.
#[verifier::external_body]
pub(crate) fn json_to_string(value: &Value) -> (text: String)
    ensures
        text@ == json_text(json_view(*value)),
{
    value.to_string()
}

/// An object holds the fields that it was given: every key that occurs, each with the value
/// that it was given last.
pub proof fn law_object_holds_the_last_value(
    fields: Seq<(String, Value)>,
    key: String,
    value: Value,
    other: Seq<char>,
)
    ensures
        json_fields(seq![]).dom() =~= set![],
        ({
            let more = json_fields(fields.push((key, value)));
            &&& more.dom() =~= json_fields(fields).dom().insert(key@)
            &&& more[key@] == json_view(value)
            &&& other != key@ ==> more[other] == json_fields(fields)[other]
        }),
{
    assert(fields.push((key, value)).drop_last() =~= fields);
}

} // verus!
