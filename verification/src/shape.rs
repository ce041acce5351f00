//! The shapes that the wire format is made of, and how each is read from
//! and written to JSON: texts, flags, lists of texts, maps from texts to
//! texts, and the members of an object that hold them.
//!
//! A member that may be missing is read as present only where the object
//! has it and it is not `null`; it is written only where it is present.

use crate::json::{
    array_value, empty_object, member, member_names, object_value, set_member, text_value, Json,
    json_of, jsons_of, members_of,
};
use crate::string_map::StringMap;
use vstd::prelude::*;
use vstd::string::StringExecFns;

verus! {

/// The text of a JSON string; nothing for any other value.
pub open spec fn as_text(json: Json) -> Option<Seq<char>> {
    match json {
        Json::Text(text) => Some(text),
        _ => None,
    }
}

/// The truth value of a JSON boolean; nothing for any other value.
pub open spec fn as_flag(json: Json) -> Option<bool> {
    match json {
        Json::Bool(flag) => Some(flag),
        _ => None,
    }
}

/// The texts of a JSON array of strings, in order; nothing for any other
/// value.
pub open spec fn as_texts(json: Json) -> Option<Seq<Seq<char>>> {
    match json {
        Json::Array(items) => if forall|i: int| 0 <= i < items.len() ==> (#[trigger] items[i]) is Text {
            Some(items.map_values(|item: Json| item->Text_0))
        } else {
            None
        },
        _ => None,
    }
}

/// The map that a JSON object of strings stands for; nothing for any other
/// value.
pub open spec fn as_string_map(json: Json) -> Option<Map<Seq<char>, Seq<char>>> {
    match json {
        Json::Object(members) => if forall|name: Seq<char>| #[trigger]
            members.contains_key(name) ==> members[name] is Text {
            Some(members.map_values(|value: Json| value->Text_0))
        } else {
            None
        },
        _ => None,
    }
}

/// The member of that name, where the object has one.
pub open spec fn required(members: Map<Seq<char>, Json>, name: Seq<char>) -> Option<Json> {
    if members.contains_key(name) {
        Some(members[name])
    } else {
        None
    }
}

/// The member of that name, where the object has one that is not `null`.
pub open spec fn present(members: Map<Seq<char>, Json>, name: Seq<char>) -> Option<Json> {
    match required(members, name) {
        Some(json) => if json is Null {
            None
        } else {
            Some(json)
        },
        None => None,
    }
}

/// A text that must be there. Nothing stands for a mismatch.
pub open spec fn text_member(members: Map<Seq<char>, Json>, name: Seq<char>) -> Option<Seq<char>> {
    match required(members, name) {
        Some(json) => as_text(json),
        None => None,
    }
}

/// A flag that must be there. Nothing stands for a mismatch.
pub open spec fn flag_member(members: Map<Seq<char>, Json>, name: Seq<char>) -> Option<bool> {
    match required(members, name) {
        Some(json) => as_flag(json),
        None => None,
    }
}

/// A map of texts that must be there. Nothing stands for a mismatch.
pub open spec fn string_map_member(members: Map<Seq<char>, Json>, name: Seq<char>) -> Option<
    Map<Seq<char>, Seq<char>>,
> {
    match required(members, name) {
        Some(json) => as_string_map(json),
        None => None,
    }
}

/// A text that may be missing. Nothing stands for a mismatch, `Some(None)`
/// for a member that is not present.
pub open spec fn optional_text_member(members: Map<Seq<char>, Json>, name: Seq<char>) -> Option<
    Option<Seq<char>>,
> {
    match present(members, name) {
        Some(json) => match as_text(json) {
            Some(text) => Some(Some(text)),
            None => None,
        },
        None => Some(None),
    }
}

/// A flag that may be missing.
pub open spec fn optional_flag_member(members: Map<Seq<char>, Json>, name: Seq<char>) -> Option<
    Option<bool>,
> {
    match present(members, name) {
        Some(json) => match as_flag(json) {
            Some(flag) => Some(Some(flag)),
            None => None,
        },
        None => Some(None),
    }
}

/// A list of texts that may be missing.
pub open spec fn optional_texts_member(members: Map<Seq<char>, Json>, name: Seq<char>) -> Option<
    Option<Seq<Seq<char>>>,
> {
    match present(members, name) {
        Some(json) => match as_texts(json) {
            Some(texts) => Some(Some(texts)),
            None => None,
        },
        None => Some(None),
    }
}

/// A map of texts that may be missing.
pub open spec fn optional_string_map_member(
    members: Map<Seq<char>, Json>,
    name: Seq<char>,
) -> Option<Option<Map<Seq<char>, Seq<char>>>> {
    match present(members, name) {
        Some(json) => match as_string_map(json) {
            Some(map) => Some(Some(map)),
            None => None,
        },
        None => Some(None),
    }
}

/// The JSON array of strings that a list of texts is written as.
pub open spec fn texts_json(texts: Seq<Seq<char>>) -> Json {
    Json::Array(texts.map_values(|text: Seq<char>| Json::Text(text)))
}

/// The JSON object of strings that a map of texts is written as.
pub open spec fn string_map_json(map: Map<Seq<char>, Seq<char>>) -> Json {
    Json::Object(map.map_values(|text: Seq<char>| Json::Text(text)))
}

/// The members with one more, where there is a value to write; the members
/// as they are, where there is none.
#[verifier::opaque]
pub open spec fn with_member(
    members: Map<Seq<char>, Json>,
    name: Seq<char>,
    value: Option<Json>,
) -> Map<Seq<char>, Json> {
    match value {
        Some(json) => members.insert(name, json),
        None => members,
    }
}

/// What stands under a name once a member has been written: the value
/// written, where there is one and the name is the member's; else what
/// stood there before.
pub proof fn lemma_with_member()
    ensures
        forall|members: Map<Seq<char>, Json>, name: Seq<char>, value: Option<Json>, other: Seq<char>|
            #[trigger] required(with_member(members, name, value), other) == (if other == name
                && value is Some {
                value
            } else {
                required(members, other)
            }),
{
    reveal(with_member);
}

/// What a text that may be missing is written as.
pub open spec fn optional_text_json(text: Option<Seq<char>>) -> Option<Json> {
    match text {
        Some(t) => Some(Json::Text(t)),
        None => None,
    }
}

/// What a flag that may be missing is written as.
pub open spec fn optional_flag_json(flag: Option<bool>) -> Option<Json> {
    match flag {
        Some(f) => Some(Json::Bool(f)),
        None => None,
    }
}

/// What a list of texts that may be missing is written as.
pub open spec fn optional_texts_json(texts: Option<Seq<Seq<char>>>) -> Option<Json> {
    match texts {
        Some(t) => Some(texts_json(t)),
        None => None,
    }
}

/// What a map of texts that may be missing is written as.
pub open spec fn optional_string_map_json(map: Option<Map<Seq<char>, Seq<char>>>) -> Option<Json> {
    match map {
        Some(m) => Some(string_map_json(m)),
        None => None,
    }
}

/// Reads a text.
pub fn read_text(value: &serde_json::Value) -> (found: Option<String>)
    ensures
        found.deep_view() == as_text(json_of(*value)),
{
    match value.as_str() {
        Some(text) => Some(text.to_owned()),
        None => None,
    }
}

/// Reads a flag.
pub fn read_flag(value: &serde_json::Value) -> (found: Option<bool>)
    ensures
        found == as_flag(json_of(*value)),
{
    value.as_bool()
}

/// Reads a list of texts.
pub fn read_texts(value: &serde_json::Value) -> (found: Option<Vec<String>>)
    ensures
        found.deep_view() == as_texts(json_of(*value)),
{
    let items = match value.as_array() {
        Some(items) => items,
        None => {
            return None;
        },
    };
    let ghost jsons = jsons_of(items@);
    let mut texts: Vec<String> = Vec::new();
    let mut index: usize = 0;
    while index < items.len()
        invariant
            index <= items.len(),
            jsons == jsons_of(items@),
            json_of(*value) == Json::Array(jsons),
            texts.len() == index,
            forall|i: int| 0 <= i < index ==> #[trigger] jsons[i] == Json::Text(texts[i]@),
        decreases items.len() - index,
    {
        match items[index].as_str() {
            Some(text) => {
                texts.push(text.to_owned());
            },
            None => {
                assert(!(jsons[index as int] is Text));
                return None;
            },
        }
        index = index + 1;
    }
    assert(texts.deep_view() =~= jsons.map_values(|item: Json| item->Text_0));
    Some(texts)
}

/// Reads a map of texts.
pub fn read_string_map(value: &serde_json::Value) -> (found: Option<StringMap>)
    ensures
        found.deep_view() == as_string_map(json_of(*value)),
{
    let object = match value.as_object() {
        Some(object) => object,
        None => {
            return None;
        },
    };
    let ghost members = members_of(*object);
    let names = member_names(object);
    let mut map = StringMap::new();
    let mut index: usize = 0;
    while index < names.len()
        invariant
            index <= names.len(),
            members == members_of(*object),
            json_of(*value) == Json::Object(members),
            names.deep_view().no_duplicates(),
            forall|name: Seq<char>|
                names.deep_view().contains(name) <==> members.contains_key(name),
            forall|name: Seq<char>|
                map@.contains_key(name) <==> exists|i: int|
                    0 <= i < index && #[trigger] names.deep_view()[i] == name,
            forall|i: int|
                0 <= i < index ==> members[#[trigger] names.deep_view()[i]] == Json::Text(
                    map@[names.deep_view()[i]],
                ),
        decreases names.len() - index,
    {
        let ghost name = names.deep_view()[index as int];
        assert(names.deep_view().contains(name));
        assert(name == names[index as int]@);
        let text = match member(object, names[index].as_str()) {
            Some(item) => match item.as_str() {
                Some(text) => text.to_owned(),
                None => {
                    return None;
                },
            },
            None => {
                return None;
            },
        };
        let ghost before = map@;
        map.insert(names[index].clone(), text);
        assert forall|i: int| 0 <= i < index + 1 implies members[#[trigger] names.deep_view()[i]]
            == Json::Text(map@[names.deep_view()[i]]) by {
            if i < index {
                assert(names.deep_view()[i] != names.deep_view()[index as int]);
            }
        }
        assert forall|key: Seq<char>|
            map@.contains_key(key) <==> exists|i: int|
                0 <= i < index + 1 && #[trigger] names.deep_view()[i] == key by {
            if map@.contains_key(key) && key != name {
                assert(before.contains_key(key));
            }
        }
        index = index + 1;
    }
    assert forall|name: Seq<char>| #[trigger] members.contains_key(name) implies members[name] is Text by {
        assert(names.deep_view().contains(name));
    }
    assert(map@ =~= members.map_values(|value: Json| value->Text_0)) by {
        assert forall|name: Seq<char>| map@.contains_key(name) <==> members.contains_key(name) by {
            if members.contains_key(name) {
                assert(names.deep_view().contains(name));
            }
        }
        assert forall|name: Seq<char>| map@.contains_key(name) implies map@[name] == members[name]->Text_0 by {
            let i = choose|i: int| 0 <= i < index && #[trigger] names.deep_view()[i] == name;
        }
    }
    Some(map)
}

/// The member of that name, where the object has one that is not `null`.
pub(crate) fn present_member<'a>(
    object: &'a serde_json::Map<String, serde_json::Value>,
    name: &str,
) -> (found: Option<&'a serde_json::Value>)
    ensures
        match present(members_of(*object), name@) {
            Some(json) => found matches Some(value) && json_of(*value) == json,
            None => found is None,
        },
{
    match member(object, name) {
        Some(value) => if value.is_null() {
            None
        } else {
            Some(value)
        },
        None => None,
    }
}

/// Reads a text that must be there.
pub(crate) fn get_text(object: &serde_json::Map<String, serde_json::Value>, name: &str) -> (found:
    Option<String>)
    ensures
        found.deep_view() == text_member(members_of(*object), name@),
{
    match member(object, name) {
        Some(value) => read_text(value),
        None => None,
    }
}

/// Reads a flag that must be there.
pub(crate) fn get_flag(object: &serde_json::Map<String, serde_json::Value>, name: &str) -> (found:
    Option<bool>)
    ensures
        found == flag_member(members_of(*object), name@),
{
    match member(object, name) {
        Some(value) => read_flag(value),
        None => None,
    }
}

/// Reads a map of texts that must be there.
pub(crate) fn get_string_map(
    object: &serde_json::Map<String, serde_json::Value>,
    name: &str,
) -> (found: Option<StringMap>)
    ensures
        found.deep_view() == string_map_member(members_of(*object), name@),
{
    match member(object, name) {
        Some(value) => read_string_map(value),
        None => None,
    }
}

/// Reads a text that may be missing.
pub(crate) fn get_optional_text(
    object: &serde_json::Map<String, serde_json::Value>,
    name: &str,
) -> (found: Option<Option<String>>)
    ensures
        found.deep_view() == optional_text_member(members_of(*object), name@),
{
    match present_member(object, name) {
        Some(value) => match read_text(value) {
            Some(text) => Some(Some(text)),
            None => None,
        },
        None => Some(None),
    }
}

/// Reads a flag that may be missing.
pub(crate) fn get_optional_flag(
    object: &serde_json::Map<String, serde_json::Value>,
    name: &str,
) -> (found: Option<Option<bool>>)
    ensures
        found == optional_flag_member(members_of(*object), name@),
{
    match present_member(object, name) {
        Some(value) => match read_flag(value) {
            Some(flag) => Some(Some(flag)),
            None => None,
        },
        None => Some(None),
    }
}

/// Reads a list of texts that may be missing.
pub(crate) fn get_optional_texts(
    object: &serde_json::Map<String, serde_json::Value>,
    name: &str,
) -> (found: Option<Option<Vec<String>>>)
    ensures
        found.deep_view() == optional_texts_member(members_of(*object), name@),
{
    match present_member(object, name) {
        Some(value) => match read_texts(value) {
            Some(texts) => Some(Some(texts)),
            None => None,
        },
        None => Some(None),
    }
}

/// Reads a map of texts that may be missing.
pub(crate) fn get_optional_string_map(
    object: &serde_json::Map<String, serde_json::Value>,
    name: &str,
) -> (found: Option<Option<StringMap>>)
    ensures
        found.deep_view() == optional_string_map_member(members_of(*object), name@),
{
    match present_member(object, name) {
        Some(value) => match read_string_map(value) {
            Some(map) => Some(Some(map)),
            None => None,
        },
        None => Some(None),
    }
}

/// Writes a list of texts.
pub fn write_texts(texts: &Vec<String>) -> (value: serde_json::Value)
    ensures
        json_of(value) == texts_json(texts.deep_view()),
{
    let mut items: Vec<serde_json::Value> = Vec::new();
    let mut index: usize = 0;
    while index < texts.len()
        invariant
            index <= texts.len(),
            items.len() == index,
            forall|i: int| 0 <= i < index ==> json_of(#[trigger] items[i]) == Json::Text(texts[i]@),
        decreases texts.len() - index,
    {
        items.push(text_value(texts[index].clone()));
        index = index + 1;
    }
    assert(jsons_of(items@) =~= texts.deep_view().map_values(|text: Seq<char>| Json::Text(text)));
    array_value(items)
}

/// Writes a map of texts.
pub fn write_string_map(map: &StringMap) -> (value: serde_json::Value)
    ensures
        json_of(value) == string_map_json(map@),
{
    let mut object = empty_object();
    let mut index: usize = 0;
    let count = map.len();
    while index < count
        invariant
            index <= count,
            count == map.entries().len(),
            crate::string_map::distinct_names(map.entries()),
            forall|name: Seq<char>|
                members_of(object).contains_key(name) <==> exists|i: int|
                    0 <= i < index && #[trigger] map.entries()[i].0@ == name,
            forall|i: int|
                0 <= i < index ==> members_of(object)[(#[trigger] map.entries()[i]).0@]
                    == Json::Text(map.entries()[i].1@),
        decreases count - index,
    {
        let ghost before = members_of(object);
        match map.entry(index) {
            Some((name, text)) => {
                set_member(&mut object, name.clone(), text_value(text.clone()));
                assert forall|i: int| 0 <= i < index + 1 implies members_of(object)[(
                #[trigger] map.entries()[i]).0@] == Json::Text(map.entries()[i].1@) by {
                    if i < index {
                        assert(map.entries()[i].0@ != map.entries()[index as int].0@);
                    }
                }
                assert forall|key: Seq<char>|
                    members_of(object).contains_key(key) <==> exists|i: int|
                        0 <= i < index + 1 && #[trigger] map.entries()[i].0@ == key by {
                    if members_of(object).contains_key(key) && key != name@ {
                        assert(before.contains_key(key));
                    }
                }
            },
            None => {},
        }
        index = index + 1;
    }
    proof {
        map.lemma_view();
        crate::string_map::lemma_entries_map(map.entries());
        let written = map@.map_values(|text: Seq<char>| Json::Text(text));
        assert forall|name: Seq<char>| members_of(object).contains_key(name) <==> written.contains_key(name) by {
            if members_of(object).contains_key(name) {
                let i = choose|i: int| 0 <= i < index && #[trigger] map.entries()[i].0@ == name;
                assert(map@.contains_key(map.entries()[i].0@));
            }
            if written.contains_key(name) {
                let i = choose|i: int| crate::string_map::names_entry(map.entries(), i, name);
                assert(map.entries()[i].0@ == name);
            }
        }
        assert forall|name: Seq<char>| members_of(object).contains_key(name) implies members_of(object)[name] == written[name] by {
            let i = choose|i: int| 0 <= i < index && #[trigger] map.entries()[i].0@ == name;
            assert(map@[map.entries()[i].0@] == map.entries()[i].1@);
        }
        assert(members_of(object) =~= written);
    }
    object_value(object)
}

/// An object without members.
pub(crate) fn new_object() -> (object: serde_json::Map<String, serde_json::Value>)
    ensures
        members_of(object) == Map::<Seq<char>, Json>::empty(),
{
    let object = empty_object();
    assert(members_of(object) =~= Map::<Seq<char>, Json>::empty());
    object
}

/// Puts a value under a name.
pub(crate) fn put(
    object: &mut serde_json::Map<String, serde_json::Value>,
    name: &str,
    value: serde_json::Value,
)
    ensures
        members_of(*final(object)) == members_of(*old(object)).insert(name@, json_of(value)),
{
    set_member(object, String::from_str(name), value);
}

/// Puts a text under a name.
pub(crate) fn put_text(
    object: &mut serde_json::Map<String, serde_json::Value>,
    name: &str,
    text: &String,
)
    ensures
        members_of(*final(object)) == members_of(*old(object)).insert(name@, Json::Text(text@)),
{
    put(object, name, text_value(text.clone()));
}

/// Puts a text under a name, where there is one.
pub(crate) fn put_optional_text(
    object: &mut serde_json::Map<String, serde_json::Value>,
    name: &str,
    text: &Option<String>,
)
    ensures
        members_of(*final(object)) == with_member(
            members_of(*old(object)),
            name@,
            optional_text_json(text.deep_view()),
        ),
{
    reveal(with_member);
    match text {
        Some(t) => {
            put_text(object, name, t);
        },
        None => {},
    }
}

/// Puts a flag under a name, where there is one.
pub(crate) fn put_optional_flag(
    object: &mut serde_json::Map<String, serde_json::Value>,
    name: &str,
    flag: &Option<bool>,
)
    ensures
        members_of(*final(object)) == with_member(
            members_of(*old(object)),
            name@,
            optional_flag_json(*flag),
        ),
{
    reveal(with_member);
    match flag {
        Some(f) => {
            put(object, name, crate::json::flag_value(*f));
        },
        None => {},
    }
}

/// Puts a list of texts under a name, where there is one.
pub(crate) fn put_optional_texts(
    object: &mut serde_json::Map<String, serde_json::Value>,
    name: &str,
    texts: &Option<Vec<String>>,
)
    ensures
        members_of(*final(object)) == with_member(
            members_of(*old(object)),
            name@,
            optional_texts_json(texts.deep_view()),
        ),
{
    reveal(with_member);
    match texts {
        Some(t) => {
            put(object, name, write_texts(t));
        },
        None => {},
    }
}

/// Puts a map of texts under a name, where there is one.
pub(crate) fn put_optional_string_map(
    object: &mut serde_json::Map<String, serde_json::Value>,
    name: &str,
    map: &Option<StringMap>,
)
    ensures
        members_of(*final(object)) == with_member(
            members_of(*old(object)),
            name@,
            optional_string_map_json(map.deep_view()),
        ),
{
    reveal(with_member);
    match map {
        Some(m) => {
            put(object, name, write_string_map(m));
        },
        None => {},
    }
}

} // verus!
