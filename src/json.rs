use vstd::prelude::*;

verus! {

/// The mathematical shape of a JSON document.
///
/// Numbers are split into integers and numbers with a fraction or an
/// exponent; the decoder only ever reads integers.
pub enum JsonModel {
    Null,
    Bool(bool),
    Int(int),
    Frac,
    Str(Seq<char>),
    Arr(Seq<JsonModel>),
    Obj(Seq<(Seq<char>, JsonModel)>),
}

/// The value that the first member named `k` at index `i` or later holds.
pub open spec fn field_from(es: Seq<(Seq<char>, JsonModel)>, k: Seq<char>, i: int) -> Option<JsonModel>
    decreases es.len() - i,
{
    if i < 0 || i >= es.len() {
        None
    } else if es[i].0 == k {
        Some(es[i].1)
    } else {
        field_from(es, k, i + 1)
    }
}

/// The value of the first member named `k` of an object's members.
pub open spec fn field(es: Seq<(Seq<char>, JsonModel)>, k: Seq<char>) -> Option<JsonModel> {
    field_from(es, k, 0)
}

#[verifier::external_type_specification]
#[verifier::external_body]
pub struct ExValue(serde_json::Value);

/// What a parsed JSON value holds, as a model.
pub uninterp spec fn json_of(v: serde_json::Value) -> JsonModel;

/// The document that serde_json reads from a text, if the text is JSON.
pub uninterp spec fn parsed_json(s: Seq<char>) -> Option<JsonModel>;

/// Relies on `serde_json::from_str::<Value>`: it succeeds exactly on the
/// texts that hold one JSON document, and the value holds that document.
/// A failure is handed on as the parser's description of it.
#[verifier::external_body]
pub(crate) fn parse_value(s: &str) -> (r: Result<serde_json::Value, String>)
    ensures
        r is Ok <==> parsed_json(s@) is Some,
        r is Ok ==> parsed_json(s@) == Some(json_of(r->Ok_0)),
{
    serde_json::from_str::<serde_json::Value>(s).map_err(|e| e.to_string())
}

/// Relies on `Value::as_object` and `Map::iter`: the members of an object,
/// in the order the map walks them.
#[verifier::external_body]
pub(crate) fn object_members(v: &serde_json::Value) -> (r: Option<Vec<(String, serde_json::Value)>>)
    ensures
        r is Some <==> json_of(*v) is Obj,
        r is Some ==> json_of(*v) == JsonModel::Obj(
            r->Some_0@.map_values(|e: (String, serde_json::Value)| (e.0@, json_of(e.1))),
        ),
{
    v.as_object().map(|m| m.iter().map(|(k, x)| (k.clone(), x.clone())).collect())
}

/// Relies on `Value::as_array`: the items of an array, in order.
#[verifier::external_body]
pub(crate) fn array_items(v: &serde_json::Value) -> (r: Option<Vec<serde_json::Value>>)
    ensures
        r is Some <==> json_of(*v) is Arr,
        r is Some ==> json_of(*v) == JsonModel::Arr(
            r->Some_0@.map_values(|x: serde_json::Value| json_of(x)),
        ),
{
    v.as_array().cloned()
}

/// Relies on `Value::as_str`: the text of a string value.
#[verifier::external_body]
pub(crate) fn string_value(v: &serde_json::Value) -> (r: Option<String>)
    ensures
        r is Some <==> json_of(*v) is Str,
        r is Some ==> json_of(*v) == JsonModel::Str(r->Some_0@),
{
    v.as_str().map(|s| s.to_string())
}

/// Relies on `Value::as_u64`: a non-negative integer value.
#[verifier::external_body]
pub(crate) fn unsigned_value(v: &serde_json::Value) -> (r: Option<u64>)
    ensures
        r is Some <==> (json_of(*v) is Int && json_of(*v)->Int_0 >= 0),
        r is Some ==> json_of(*v) == JsonModel::Int(r->Some_0 as int),
{
    v.as_u64()
}

/// Relies on `Value::as_bool`: a boolean value.
#[verifier::external_body]
pub(crate) fn bool_value(v: &serde_json::Value) -> (r: Option<bool>)
    ensures
        r is Some <==> json_of(*v) is Bool,
        r is Some ==> json_of(*v) == JsonModel::Bool(r->Some_0),
{
    v.as_bool()
}

/// Relies on `Value::is_null`.
#[verifier::external_body]
pub(crate) fn is_null_value(v: &serde_json::Value) -> (r: bool)
    ensures
        r == (json_of(*v) is Null),
{
    v.is_null()
}

/// Whether a member name is the given key.
pub(crate) fn key_is(k: &String, name: &str) -> (r: bool)
    ensures
        r == (k@ == name@),
{
    let owned = name.to_owned();
    k.eq(&owned)
}

/// The value of the first member named `name`.
pub(crate) fn get_field<'a>(es: &'a Vec<(String, serde_json::Value)>, name: &str) -> (r: Option<&'a serde_json::Value>)
    ensures
        r is Some <==> field(es@.map_values(|e: (String, serde_json::Value)| (e.0@, json_of(e.1))), name@) is Some,
        r is Some ==> field(es@.map_values(|e: (String, serde_json::Value)| (e.0@, json_of(e.1))), name@)
            == Some(json_of(*r->Some_0)),
{
    let ghost ms = es@.map_values(|e: (String, serde_json::Value)| (e.0@, json_of(e.1)));
    let mut i: usize = 0;
    while i < es.len()
        invariant
            i <= es.len(),
            ms == es@.map_values(|e: (String, serde_json::Value)| (e.0@, json_of(e.1))),
            field_from(ms, name@, i as int) == field(ms, name@),
        decreases es.len() - i,
    {
        if key_is(&es[i].0, name) {
            return Some(&es[i].1);
        }
        i = i + 1;
    }
    None
}

} // verus!
