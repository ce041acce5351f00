//! Envelopes: every typed body that goes to the service or comes from it is
//! a JSON object with one member, whose name the service fixes and whose
//! value is the entity.

use crate::error::DecodeFailure;
use crate::json::{
    json_of, member, member_names, members_of, object_value, parse, parsed_json, Json,
};
use crate::shape::{new_object, put};
use vstd::prelude::*;

verus! {

/// The envelope of an entity: the JSON object with the entity under the
/// key, and nothing else.
pub open spec fn envelope_json(key: Seq<char>, entity: Json) -> Json {
    Json::Object(Map::empty().insert(key, entity))
}

/// The entity in an envelope: what stands under the key in a JSON object
/// that has that one member and no other. Nothing for any other value.
pub open spec fn json_envelope(key: Seq<char>, json: Json) -> Option<Json> {
    match json {
        Json::Object(members) => if members.contains_key(key) && forall|name: Seq<char>| #[trigger]
            members.contains_key(name) ==> name == key {
            Some(members[key])
        } else {
            None
        },
        _ => None,
    }
}

/// An envelope has one member, under its key.
pub proof fn lemma_envelope_key(key: Seq<char>, entity: Json, name: Seq<char>)
    ensures
        envelope_json(key, entity) is Object,
        envelope_json(key, entity)->Object_0.contains_key(name) <==> name == key,
        envelope_json(key, entity)->Object_0[key] == entity,
{
}

/// What is put in an envelope is what is found in it.
pub proof fn lemma_envelope_round_trip(key: Seq<char>, entity: Json)
    ensures
        json_envelope(key, envelope_json(key, entity)) == Some(entity),
{
}

/// Puts an entity in its envelope.
pub fn enclose(key: &str, entity: serde_json::Value) -> (value: serde_json::Value)
    ensures
        json_of(value) == envelope_json(key@, json_of(entity)),
{
    let mut object = new_object();
    put(&mut object, key, entity);
    object_value(object)
}

/// Finds the entity in an envelope.
pub fn enclosed<'a>(key: &str, value: &'a serde_json::Value) -> (entity: Option<
    &'a serde_json::Value,
>)
    ensures
        match json_envelope(key@, json_of(*value)) {
            Some(json) => entity matches Some(found) && json_of(*found) == json,
            None => entity is None,
        },
{
    let object = value.as_object()?;
    let names = member_names(object);
    let found = member(object, key)?;
    if names.len() == 1 {
        assert forall|name: Seq<char>| #[trigger]
            members_of(*object).contains_key(name) implies name == key@ by {
            assert(names.deep_view().contains(name));
            assert(names.deep_view().contains(key@));
            let i = choose|i: int| 0 <= i < names.deep_view().len() && names.deep_view()[i] == name;
            let j = choose|j: int| 0 <= j < names.deep_view().len() && names.deep_view()[j] == key@;
        }
        Some(found)
    } else {
        proof {
            assert(names.deep_view().contains(key@));
            let j = choose|j: int| 0 <= j < names.deep_view().len() && names.deep_view()[j] == key@;
            let other = if j == 0 {
                1int
            } else {
                0int
            };
            assert(names.deep_view()[other] != key@);
            assert(names.deep_view().contains(names.deep_view()[other]));
            assert(members_of(*object).contains_key(names.deep_view()[other]));
        }
        None
    }
}

/// The entity in the envelope that a text holds. A text that is not JSON
/// is malformed; JSON that is not an envelope under that key is a mismatch.
pub open spec fn entity_in(key: Seq<char>, body: Seq<char>) -> Result<Json, DecodeFailure> {
    match parsed_json(body) {
        Some(json) => match json_envelope(key, json) {
            Some(entity) => Ok(entity),
            None => Err(DecodeFailure::SchemaMismatch),
        },
        None => Err(DecodeFailure::MalformedJson),
    }
}

/// The model of an entity that was looked for in a text.
pub open spec fn entity_view(found: Result<serde_json::Value, DecodeFailure>) -> Result<
    Json,
    DecodeFailure,
> {
    match found {
        Ok(value) => Ok(json_of(value)),
        Err(failure) => Err(failure),
    }
}

/// Reads a text as JSON and finds the entity in the envelope it holds.
pub fn read_envelope(key: &str, body: &str) -> (found: Result<serde_json::Value, DecodeFailure>)
    ensures
        entity_view(found) == entity_in(key@, body@),
{
    match parse(body) {
        Ok(value) => match enclosed(key, &value) {
            Some(entity) => Ok(entity.clone()),
            None => Err(DecodeFailure::SchemaMismatch),
        },
        Err(_) => Err(DecodeFailure::MalformedJson),
    }
}

} // verus!
