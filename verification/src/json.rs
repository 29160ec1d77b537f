//! JSON objects, built and printed by `serde_json`.
use crate::text::texts;
use serde_json::Value;
use vstd::prelude::*;

verus! {

/// `serde_json::Value`: a JSON value.
#[verifier::external_type_specification]
#[verifier::external_body]
pub struct ExValue(Value);

/// `serde_json::Map`: the fields of a JSON object.
#[verifier::external_type_specification]
#[verifier::external_body]
#[verifier::reject_recursive_types(K)]
#[verifier::reject_recursive_types(V)]
pub struct ExFields<K, V>(serde_json::Map<K, V>);

/// The content of a JSON value.
pub enum Json {
    /// A string.
    Text(Seq<char>),
    /// A whole number.
    Integer(int),
    /// An array.
    List(Seq<Json>),
    /// An object; the order of its fields does not matter.
    Object(Map<Seq<char>, Json>),
    /// Any other value, by its compact text.
    Other(Seq<char>),
}

/// The content of a `serde_json::Value`.
pub uninterp spec fn value_json(v: Value) -> Json;

/// The fields that a `serde_json::Map` holds.
pub uninterp spec fn fields_json(fields: serde_json::Map<String, Value>) -> Map<Seq<char>, Json>;

/// The compact text that `serde_json` prints for a JSON value of that content.
pub uninterp spec fn json_text(content: Json) -> Seq<char>;

/// An array of strings.
pub open spec fn json_texts(list: Seq<Seq<char>>) -> Json {
    Json::List(Seq::new(list.len(), |i: int| Json::Text(list[i])))
}

/// No fields at all.
pub open spec fn no_fields() -> Map<Seq<char>, Json> {
    Map::empty()
}

/// `<Value as From<String>>::from`: a JSON string.
#[verifier::external_body]
pub(crate) fn text_value(s: String) -> (r: Value)
    ensures
        value_json(r) == Json::Text(s@),
{
    Value::from(s)
}

/// `<Value as From<i64>>::from`: a JSON number without a fraction.
#[verifier::external_body]
pub(crate) fn integer_value(n: i64) -> (r: Value)
    ensures
        value_json(r) == Json::Integer(n as int),
{
    Value::from(n)
}

/// `<Value as From<Vec<String>>>::from`: a JSON array of strings, in order.
#[verifier::external_body]
pub(crate) fn texts_value(list: Vec<String>) -> (r: Value)
    ensures
        value_json(r) == json_texts(texts(list@)),
{
    Value::from(list)
}

/// `serde_json::Map::new`: no fields.
#[verifier::external_body]
pub(crate) fn new_fields() -> (r: serde_json::Map<String, Value>)
    ensures
        fields_json(r) == no_fields(),
{
    serde_json::Map::new()
}

/// `serde_json::Map::insert`: adds a field; one of the same key gets the new value.
#[verifier::external_body]
fn insert_field(fields: &mut serde_json::Map<String, Value>, key: String, value: Value)
    ensures
        fields_json(*final(fields)) == fields_json(*old(fields)).insert(key@, value_json(value)),
{
    fields.insert(key, value);
}

/// `<Value as From<serde_json::Map<String, Value>>>::from`: a JSON object with
/// those fields.
#[verifier::external_body]
pub(crate) fn object_value(fields: serde_json::Map<String, Value>) -> (r: Value)
    ensures
        value_json(r) == Json::Object(fields_json(fields)),
{
    Value::from(fields)
}

/// `<Value as ToString>::to_string`: the compact text, which depends on the
/// content alone because objects keep their fields sorted by key.
#[verifier::external_body]
pub(crate) fn value_text(v: &Value) -> (r: String)
    ensures
        r@ == json_text(value_json(*v)),
{
    v.to_string()
}

/// Adds a field to those of an object.
pub(crate) fn push_field(fields: &mut serde_json::Map<String, Value>, key: &str, value: Value)
    ensures
        fields_json(*final(fields)) == fields_json(*old(fields)).insert(key@, value_json(value)),
{
    insert_field(fields, key.to_owned(), value);
}

/// An object with a single field.
pub open spec fn json_field(key: Seq<char>, value: Json) -> Json {
    Json::Object(Map::empty().insert(key, value))
}

/// An object with a single field.
pub(crate) fn field_value(key: &str, value: Value) -> (r: Value)
    ensures
        value_json(r) == json_field(key@, value_json(value)),
{
    let mut fields = new_fields();
    push_field(&mut fields, key, value);
    object_value(fields)
}

/// An array of strings holds those strings, one for each and in order.
pub proof fn law_list_holds_the_texts(list: Seq<Seq<char>>)
    ensures
        json_texts(list) matches Json::List(items) && items.len() == list.len() && (forall|i: int|
            0 <= i < list.len() ==> #[trigger] items[i] == Json::Text(list[i])),
{
}

/// An object with a single field has that field and no other.
pub proof fn law_single_field(key: Seq<char>, value: Json)
    ensures
        json_field(key, value) matches Json::Object(fields) && fields[key] == value && (forall|
            k: Seq<char>,
        |
            #[trigger] fields.contains_key(k) <==> k == key),
{
}

} // verus!
