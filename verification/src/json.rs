//! JSON documents as plain values.

use crate::seqs::{first_where, is_first, lemma_first_absent, lemma_first_found};
use crate::text::same_text;
use vstd::prelude::*;

verus! {

/// A JSON value. A number keeps what the scrapers read of it: its value where
/// it is a non-negative integer below 2^64.
#[derive(Debug, PartialEq, Eq)]
pub enum Json {
    Null,
    Bool(bool),
    Number(Option<u64>),
    Text(String),
    Array(Vec<Json>),
    Object(Vec<(String, Json)>),
}

/// `serde_json::Value`, a parsed JSON document.
#[verifier::external_type_specification]
#[verifier::external_body]
pub struct ExValue(serde_json::Value);

/// The document that a text is in JSON; `None` where it is no valid JSON.
pub uninterp spec fn json_document(text: Seq<char>) -> Option<Json>;

/// What a parsed document holds: its tree, with each object's members in the
/// order in which the object yields them.
pub uninterp spec fn json_content(value: serde_json::Value) -> Json;

/// `serde_json::from_str` for a `Value`, the error dropped: the parsed document
/// of a valid JSON text, `None` for any other text.
#[verifier::external_body]
pub(crate) fn parse_value(text: &str) -> (parsed: Option<serde_json::Value>)
    ensures
        match parsed {
            Some(value) => json_document(text@) == Some(json_content(value)),
            None => json_document(text@) is None,
        },
{
    serde_json::from_str::<serde_json::Value>(text).ok()
}

/// Copies a `serde_json::Value` out, variant by variant; of a number it keeps
/// `Number::as_u64`, and of an object the pairs of `Map::iter`.
#[verifier::external_body]
pub(crate) fn json_from_value(value: &serde_json::Value) -> (json: Json)
    ensures
        json == json_content(*value),
{
    match value {
        serde_json::Value::Null => Json::Null,
        serde_json::Value::Bool(b) => Json::Bool(*b),
        serde_json::Value::Number(n) => Json::Number(n.as_u64()),
        serde_json::Value::String(s) => Json::Text(s.clone()),
        serde_json::Value::Array(items) => Json::Array(items.iter().map(json_from_value).collect()),
        serde_json::Value::Object(map) => Json::Object(
            map.iter().map(|(k, v)| (k.clone(), json_from_value(v))).collect(),
        ),
    }
}

/// Whether a member of an object has the name `key`.
pub open spec fn named(key: Seq<char>) -> spec_fn((String, Json)) -> bool {
    |member: (String, Json)| member.0@ == key
}

impl Json {
    /// The members of an object.
    pub open spec fn members(self) -> Option<Seq<(String, Json)>> {
        match self {
            Json::Object(members) => Some(members@),
            _ => None,
        }
    }

    /// The items of an array.
    pub open spec fn items(self) -> Option<Seq<Json>> {
        match self {
            Json::Array(items) => Some(items@),
            _ => None,
        }
    }

    /// The characters of a string.
    pub open spec fn text(self) -> Option<Seq<char>> {
        match self {
            Json::Text(s) => Some(s@),
            _ => None,
        }
    }

    /// The value of a number that is a non-negative integer below 2^64.
    pub open spec fn count(self) -> Option<u64> {
        match self {
            Json::Number(n) => n,
            _ => None,
        }
    }

    /// The value of the first member named `key`, where this is an object
    /// that has one.
    pub open spec fn member(self, key: Seq<char>) -> Option<Json> {
        match self.members() {
            Some(members) => match first_where(members, named(key)) {
                Some(found) => Some(found.1),
                None => None,
            },
            None => None,
        }
    }

    /// The item at position `index`, where this is an array that long.
    pub open spec fn item(self, index: int) -> Option<Json> {
        match self.items() {
            Some(items) => if 0 <= index < items.len() {
                Some(items[index])
            } else {
                None
            },
            None => None,
        }
    }

    /// Whether this is a string with exactly the characters of `text`.
    pub open spec fn is_text(self, text: Seq<char>) -> bool {
        self.text() == Some(text)
    }

    pub fn as_object(&self) -> (r: Option<&Vec<(String, Json)>>)
        ensures
            match r {
                Some(members) => self.members() == Some(members@),
                None => self.members() is None,
            },
    {
        match self {
            Json::Object(members) => Some(members),
            _ => None,
        }
    }

    pub fn as_array(&self) -> (r: Option<&Vec<Json>>)
        ensures
            match r {
                Some(items) => self.items() == Some(items@),
                None => self.items() is None,
            },
    {
        match self {
            Json::Array(items) => Some(items),
            _ => None,
        }
    }

    pub fn as_str(&self) -> (r: Option<&str>)
        ensures
            match r {
                Some(s) => self.text() == Some(s@),
                None => self.text() is None,
            },
    {
        match self {
            Json::Text(s) => Some(s.as_str()),
            _ => None,
        }
    }

    pub fn as_u64(&self) -> (r: Option<u64>)
        ensures
            r == self.count(),
    {
        match self {
            Json::Number(n) => *n,
            _ => None,
        }
    }

    /// The value of the first member named `key`.
    pub fn get(&self, key: &str) -> (r: Option<&Json>)
        ensures
            match r {
                Some(value) => self.member(key@) == Some(*value),
                None => self.member(key@) is None,
            },
    {
        match self {
            Json::Object(members) => find_member(members, key),
            _ => None,
        }
    }

    /// Whether this is a string equal to `text`.
    pub fn eq_str(&self, text: &str) -> (r: bool)
        ensures
            r == self.is_text(text@),
    {
        match self {
            Json::Text(s) => same_text(s.as_str(), text),
            _ => false,
        }
    }
}

/// The value of the first of `members` that is named `key`.
pub fn find_member<'a>(members: &'a Vec<(String, Json)>, key: &str) -> (r: Option<&'a Json>)
    ensures
        match r {
            Some(value) => first_where(members@, named(key@)) matches Some(found) && found.1
                == *value,
            None => first_where(members@, named(key@)) is None,
        },
{
    let mut i: usize = 0;
    while i < members.len()
        invariant
            i <= members.len(),
            forall|j: int| 0 <= j < i ==> !named(key@)(#[trigger] members@[j]),
        decreases members.len() - i,
    {
        if same_text(members[i].0.as_str(), key) {
            proof {
                assert(is_first(members@, named(key@), i as int));
                lemma_first_found(members@, named(key@), i as int);
            }
            return Some(&members[i].1);
        }
        i += 1;
    }
    proof {
        lemma_first_absent(members@, named(key@));
    }
    None
}

/// Parses a JSON text; `None` where the text is no valid JSON.
pub fn parse_json(text: &str) -> (r: Option<Json>)
    ensures
        r == json_document(text@),
{
    match parse_value(text) {
        Some(value) => Some(json_from_value(&value)),
        None => None,
    }
}

} // verus!
