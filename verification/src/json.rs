//! JSON values as `serde_json` holds them, and their mathematical model.
//!
//! The library reads and builds `serde_json::Value` trees; parsing and
//! printing are `serde_json`'s own. Everything this module states about that
//! crate is assumed, not proved: each such item says so in its doc comment.

use vstd::prelude::*;

verus! {

/// The mathematical model of a JSON value.
pub enum Json {
    Null,
    Bool(bool),
    /// A number. The library never looks inside one.
    Number(Seq<char>),
    Text(Seq<char>),
    Array(Seq<Json>),
    Object(Map<Seq<char>, Json>),
}

#[verifier::external_type_specification]
#[verifier::external_body]
pub struct ExValue(serde_json::Value);

#[verifier::external_type_specification]
#[verifier::external_body]
#[verifier::reject_recursive_types(K)]
#[verifier::reject_recursive_types(V)]
pub struct ExObject<K, V>(serde_json::Map<K, V>);

#[verifier::external_type_specification]
#[verifier::external_body]
pub struct ExError(serde_json::Error);

/// The JSON value that a `serde_json::Value` holds.
pub uninterp spec fn json_of(value: serde_json::Value) -> Json;

/// The members that a `serde_json::Map` holds, each under its name.
pub uninterp spec fn members_of(object: serde_json::Map<String, serde_json::Value>) -> Map<
    Seq<char>,
    Json,
>;

/// What `serde_json::from_str` makes of a text: the value it stands for, or
/// nothing where the text is not JSON.
pub uninterp spec fn parsed_json(text: Seq<char>) -> Option<Json>;

/// What `serde_json::to_string` writes for a value, or nothing where it
/// reports an error.
pub uninterp spec fn json_text(json: Json) -> Option<Seq<char>>;

/// The models of a run of values, in order.
pub open spec fn jsons_of(values: Seq<serde_json::Value>) -> Seq<Json> {
    Seq::new(values.len(), |i: int| json_of(values[i]))
}

/// Assumed of `serde_json::Value::is_null`: true for JSON `null` alone.
pub assume_specification[ serde_json::Value::is_null ](value: &serde_json::Value) -> (null: bool)
    ensures
        null == (json_of(*value) is Null),
;

/// Assumed of `serde_json::Value::as_bool`: the truth value of a JSON
/// boolean, and nothing for any other value.
pub assume_specification[ serde_json::Value::as_bool ](value: &serde_json::Value) -> (flag: Option<
    bool,
>)
    ensures
        match flag {
            Some(b) => json_of(*value) == Json::Bool(b),
            None => !(json_of(*value) is Bool),
        },
;

/// Assumed of `serde_json::Value::as_str`: the text of a JSON string, and
/// nothing for any other value.
pub assume_specification[ serde_json::Value::as_str ](value: &serde_json::Value) -> (text: Option<
    &str,
>)
    ensures
        match text {
            Some(t) => json_of(*value) == Json::Text(t@),
            None => !(json_of(*value) is Text),
        },
;

/// Assumed of `serde_json::Value::as_array`: the items of a JSON array, in
/// order, and nothing for any other value.
pub assume_specification[ serde_json::Value::as_array ](value: &serde_json::Value) -> (items:
    Option<&Vec<serde_json::Value>>)
    ensures
        match items {
            Some(a) => json_of(*value) == Json::Array(jsons_of(a@)),
            None => !(json_of(*value) is Array),
        },
;

/// Assumed of `serde_json::Value::as_object`: the members of a JSON object,
/// and nothing for any other value.
pub assume_specification[ serde_json::Value::as_object ](value: &serde_json::Value) -> (object:
    Option<&serde_json::Map<String, serde_json::Value>>)
    ensures
        match object {
            Some(o) => json_of(*value) == Json::Object(members_of(*o)),
            None => !(json_of(*value) is Object),
        },
;

/// Assumed of `Clone::clone` on `serde_json::Value`: the copy holds the same
/// JSON value.
pub assume_specification[ <serde_json::Value as Clone>::clone ](
    value: &serde_json::Value,
) -> (copy: serde_json::Value)
    ensures
        json_of(copy) == json_of(*value),
;

/// Assumed of `serde_json::from_str` at `serde_json::Value`: it succeeds
/// exactly on the texts that `parsed_json` gives a value, and returns that
/// value.
#[verifier::external_body]
pub(crate) fn parse(text: &str) -> (parsed: Result<serde_json::Value, serde_json::Error>)
    ensures
        match parsed {
            Ok(value) => parsed_json(text@) == Some(json_of(value)),
            Err(_) => parsed_json(text@) is None,
        },
{
    serde_json::from_str::<serde_json::Value>(text)
}

/// Assumed of `serde_json::to_string` at `serde_json::Value`: what it
/// returns depends on the JSON value alone, and is what `json_text` names.
#[verifier::external_body]
pub(crate) fn render(value: &serde_json::Value) -> (rendered: Result<String, serde_json::Error>)
    ensures
        match rendered {
            Ok(text) => json_text(json_of(*value)) == Some(text@),
            Err(_) => json_text(json_of(*value)) is None,
        },
{
    serde_json::to_string(value)
}

/// Assumed of `serde_json::Map::get`: the member of that name, if the
/// object has one.
#[verifier::external_body]
pub(crate) fn member<'a>(
    object: &'a serde_json::Map<String, serde_json::Value>,
    name: &str,
) -> (found: Option<&'a serde_json::Value>)
    ensures
        match found {
            Some(value) => members_of(*object).contains_key(name@) && members_of(*object)[name@]
                == json_of(*value),
            None => !members_of(*object).contains_key(name@),
        },
{
    object.get(name)
}

/// Assumed of `serde_json::Map::keys`: it yields the name of every member,
/// each once.
#[verifier::external_body]
pub(crate) fn member_names(object: &serde_json::Map<String, serde_json::Value>) -> (names: Vec<
    String,
>)
    ensures
        names.deep_view().no_duplicates(),
        forall|name: Seq<char>|
            names.deep_view().contains(name) <==> members_of(*object).contains_key(name),
{
    object.keys().cloned().collect()
}

/// Assumed of `serde_json::Map::new`: an object without members.
#[verifier::external_body]
pub(crate) fn empty_object() -> (object: serde_json::Map<String, serde_json::Value>)
    ensures
        forall|name: Seq<char>| !members_of(object).contains_key(name),
{
    serde_json::Map::new()
}

/// Assumed of `serde_json::Map::insert`: afterwards the object holds the
/// value under that name, in place of any earlier member of that name, and
/// its other members as before.
#[verifier::external_body]
pub(crate) fn set_member(
    object: &mut serde_json::Map<String, serde_json::Value>,
    name: String,
    value: serde_json::Value,
)
    ensures
        members_of(*final(object)) == members_of(*old(object)).insert(name@, json_of(value)),
{
    object.insert(name, value);
}

/// Assumed of the variant `serde_json::Value::Object`: the JSON object with
/// the members given.
#[verifier::external_body]
pub(crate) fn object_value(object: serde_json::Map<String, serde_json::Value>) -> (value:
    serde_json::Value)
    ensures
        json_of(value) == Json::Object(members_of(object)),
{
    serde_json::Value::Object(object)
}

/// Assumed of the variant `serde_json::Value::Array`: the JSON array of the
/// items given, in order.
#[verifier::external_body]
pub(crate) fn array_value(items: Vec<serde_json::Value>) -> (value: serde_json::Value)
    ensures
        json_of(value) == Json::Array(jsons_of(items@)),
{
    serde_json::Value::Array(items)
}

/// Assumed of the variant `serde_json::Value::String`: the JSON string of
/// the text given.
#[verifier::external_body]
pub(crate) fn text_value(text: String) -> (value: serde_json::Value)
    ensures
        json_of(value) == Json::Text(text@),
{
    serde_json::Value::String(text)
}

/// Assumed of the variant `serde_json::Value::Bool`: the JSON boolean given.
#[verifier::external_body]
pub(crate) fn flag_value(flag: bool) -> (value: serde_json::Value)
    ensures
        json_of(value) == Json::Bool(flag),
{
    serde_json::Value::Bool(flag)
}

} // verus!
