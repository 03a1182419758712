use vstd::prelude::*;

verus! {

/// A JSON value of the serde_json crate, held opaquely: the render model is
/// assembled into one and handed to the template engine whole.
#[verifier::external_type_specification]
#[verifier::external_body]
pub struct ExJsonValue(serde_json::Value);

/// A JSON object of the serde_json crate, held opaquely.
#[verifier::external_type_specification]
#[verifier::external_body]
#[verifier::reject_recursive_types(K)]
#[verifier::reject_recursive_types(V)]
pub struct ExJsonMap<K, V>(serde_json::Map<K, V>);

/// A JSON value as the contracts see it: the exact tree handed to the
/// template engine, an object's fields as a map from field name to value.
#[verifier::ext_equal]
pub enum JsonModel {
    Null,
    Bool(bool),
    UInt(u64),
    Str(Seq<char>),
    Arr(Seq<JsonModel>),
    Obj(Map<Seq<char>, JsonModel>),
}

/// What a serde_json value holds, as the tree above.
pub uninterp spec fn value_model(v: serde_json::Value) -> JsonModel;

/// What a serde_json object holds: its fields, by name.
pub uninterp spec fn json_map_model(m: serde_json::Map<String, serde_json::Value>) -> Map<Seq<char>, JsonModel>;

/// Relies on serde_json::Value::String holding exactly the given text.
#[verifier::external_body]
pub(crate) fn json_string(s: String) -> (r: serde_json::Value)
    ensures
        value_model(r) == JsonModel::Str(s@),
{
    serde_json::Value::String(s)
}

/// Relies on serde_json::Value::Bool holding exactly the given truth value.
#[verifier::external_body]
pub(crate) fn json_bool(b: bool) -> (r: serde_json::Value)
    ensures
        value_model(r) == JsonModel::Bool(b),
{
    serde_json::Value::Bool(b)
}

/// Relies on serde_json::Value::from making the JSON number of the integer.
#[verifier::external_body]
pub(crate) fn json_u64(n: u64) -> (r: serde_json::Value)
    ensures
        value_model(r) == JsonModel::UInt(n),
{
    serde_json::Value::from(n)
}

/// Relies on serde_json::Value::Null, the JSON null.
#[verifier::external_body]
pub(crate) fn json_null() -> (r: serde_json::Value)
    ensures
        value_model(r) == JsonModel::Null,
{
    serde_json::Value::Null
}

/// Relies on serde_json::Value::Array holding the given values in order.
#[verifier::external_body]
pub(crate) fn json_array(items: Vec<serde_json::Value>) -> (r: serde_json::Value)
    ensures
        value_model(r) == JsonModel::Arr(items@.map_values(|v: serde_json::Value| value_model(v))),
{
    serde_json::Value::Array(items)
}

/// Relies on serde_json::Map::new making an empty JSON object.
#[verifier::external_body]
pub(crate) fn json_map_new() -> (r: serde_json::Map<String, serde_json::Value>)
    ensures
        json_map_model(r) =~= Map::empty(),
{
    serde_json::Map::new()
}

/// Relies on serde_json::Map::insert binding the key to the value.
#[verifier::external_body]
pub(crate) fn json_map_insert(
    m: &mut serde_json::Map<String, serde_json::Value>,
    key: &str,
    value: serde_json::Value,
)
    ensures
        json_map_model(*final(m)) == json_map_model(*old(m)).insert(key@, value_model(value)),
{
    m.insert(key.to_string(), value);
}

/// Relies on serde_json::Value::Object holding exactly the given fields.
#[verifier::external_body]
pub(crate) fn json_object(m: serde_json::Map<String, serde_json::Value>) -> (r: serde_json::Value)
    ensures
        value_model(r) == JsonModel::Obj(json_map_model(m)),
{
    serde_json::Value::Object(m)
}

} // verus!
