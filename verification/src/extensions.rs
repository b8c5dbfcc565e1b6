//! Free-form extension fields: JSON values filed under text keys.

use std::collections::HashMap;
use vstd::prelude::*;

verus! {

/// A map from texts to JSON values.
pub type JsonMap = HashMap<String, serde_json::Value>;

/// The entries of such a map, each key taken by its characters.
pub type JsonEntries = Map<Seq<char>, serde_json::Value>;

/// A JSON value of `serde_json`, carried through untouched.
#[verifier::external_type_specification]
#[verifier::external_body]
pub struct ExJsonValue(serde_json::Value);

/// What a `HashMap` from texts to JSON values holds, each key taken by its
/// characters.
pub uninterp spec fn json_map_entries(m: JsonMap) -> JsonEntries;

/// `HashMap::new`: the map holds nothing.
#[verifier::external_body]
fn json_map_new() -> (r: JsonMap)
    ensures
        json_map_entries(r) == JsonEntries::empty(),
{
    HashMap::new()
}

/// `HashMap::get` with a `&str` key: finds the entry whose key has the same
/// characters, as `String`'s `Eq` and `Borrow<str>` make it.
#[verifier::external_body]
fn json_map_get<'a>(m: &'a JsonMap, key: &str) -> (r: Option<&'a serde_json::Value>)
    ensures
        match r {
            Some(v) => json_map_entries(*m).contains_key(key@) && *v == json_map_entries(*m)[key@],
            None => !json_map_entries(*m).contains_key(key@),
        },
{
    m.get(key)
}

/// `HashMap::insert`: the key's entry now holds the value; the displaced
/// value is dropped.
#[verifier::external_body]
fn json_map_insert(m: &mut JsonMap, key: String, value: serde_json::Value)
    ensures
        json_map_entries(*final(m)) == json_map_entries(*old(m)).insert(key@, value),
{
    m.insert(key, value);
}

/// `HashMap::contains_key` with a `&str` key.
#[verifier::external_body]
fn json_map_contains_key(m: &JsonMap, key: &str) -> (b: bool)
    ensures
        b == json_map_entries(*m).contains_key(key@),
{
    m.contains_key(key)
}

/// `HashMap::remove` with a `&str` key: the entry leaves the map and its value
/// is handed back.
#[verifier::external_body]
fn json_map_remove(m: &mut JsonMap, key: &str) -> (r: Option<serde_json::Value>)
    ensures
        json_map_entries(*final(m)) == json_map_entries(*old(m)).remove(key@),
        match r {
            Some(v) => json_map_entries(*old(m)).contains_key(key@) && v == json_map_entries(*old(m))[key@],
            None => !json_map_entries(*old(m)).contains_key(key@),
        },
{
    m.remove(key)
}

/// Extension fields that customers add to an entity without a schema change.
#[derive(Debug, Default, Clone, PartialEq, Eq)]
pub struct Extensions(JsonMap);

impl View for Extensions {
    type V = JsonEntries;

    closed spec fn view(&self) -> JsonEntries {
        json_map_entries(self.0)
    }
}

impl Extensions {
    /// An empty set of extension fields.
    pub fn new() -> (e: Extensions)
        ensures
            e@ == JsonEntries::empty(),
    {
        Extensions(json_map_new())
    }

    /// The value filed under `key`, if any.
    pub fn get(&self, key: &str) -> (r: Option<&serde_json::Value>)
        ensures
            match r {
                Some(v) => self@.contains_key(key@) && *v == self@[key@],
                None => !self@.contains_key(key@),
            },
    {
        json_map_get(&self.0, key)
    }

    /// Files `value` under `key`, replacing what was there.
    pub fn set(&mut self, key: String, value: serde_json::Value)
        ensures
            final(self)@ == old(self)@.insert(key@, value),
    {
        json_map_insert(&mut self.0, key, value);
    }

    /// Whether a value is filed under `key`.
    pub fn contains_key(&self, key: &str) -> (b: bool)
        ensures
            b == self@.contains_key(key@),
    {
        json_map_contains_key(&self.0, key)
    }

    /// Takes out the value filed under `key`.
    pub fn remove(&mut self, key: &str) -> (r: Option<serde_json::Value>)
        ensures
            final(self)@ == old(self)@.remove(key@),
            match r {
                Some(v) => old(self)@.contains_key(key@) && v == old(self)@[key@],
                None => !old(self)@.contains_key(key@),
            },
    {
        json_map_remove(&mut self.0, key)
    }

    /// The underlying map.
    pub fn inner(&self) -> (m: &JsonMap)
        ensures
            json_map_entries(*m) == self@,
    {
        &self.0
    }
}

/// What is filed under a key is read back under that key, and no other
/// key's entry changes.
pub proof fn lemma_set_then_get(e: Extensions, key: Seq<char>, value: serde_json::Value, other: Seq<char>)
    ensures
        e@.insert(key, value).contains_key(key),
        e@.insert(key, value)[key] == value,
        other != key ==> (e@.insert(key, value).contains_key(other) == e@.contains_key(other)),
        other != key && e@.contains_key(other) ==> e@.insert(key, value)[other] == e@[other],
{
}

/// Taking out a key that was just filed hands back the value filed and
/// leaves the key absent.
pub proof fn lemma_set_then_remove(e: Extensions, key: Seq<char>, value: serde_json::Value)
    ensures
        e@.insert(key, value).contains_key(key),
        e@.insert(key, value)[key] == value,
        !e@.insert(key, value).remove(key).contains_key(key),
        !e@.contains_key(key) ==> e@.insert(key, value).remove(key) == e@,
{
    if !e@.contains_key(key) {
        assert(e@.insert(key, value).remove(key) =~= e@);
    }
}

impl From<JsonMap> for Extensions {
    /// Extension fields holding the entries of `map`.
    fn from(map: JsonMap) -> (e: Extensions)
        ensures
            e@ == json_map_entries(map),
    {
        Extensions(map)
    }
}

impl vstd::std_specs::convert::FromSpecImpl<JsonMap> for Extensions {
    open spec fn obeys_from_spec() -> bool {
        true
    }

    closed spec fn from_spec(v: JsonMap) -> Extensions {
        Extensions(v)
    }
}

} // verus!
