//! JSON documents. `serde_json` reads the text; what is read is held here as
//! plain values, so that the rest of the library can take a document apart.

use crate::text::same_text;
use vstd::prelude::*;

verus! {

/// A JSON document as a mathematical value.
pub enum JsonDoc {
    Null,
    Bool(bool),
    /// The number, where it is an integer that fits `i64`; `None` for any
    /// other number.
    Number(Option<i64>),
    Text(Seq<char>),
    Array(Seq<JsonDoc>),
    /// The members, each with its key, in the order in which they are held.
    Object(Seq<(Seq<char>, JsonDoc)>),
}

/// A JSON document held as plain values.
#[derive(Debug)]
pub enum Json {
    Null,
    Bool(bool),
    /// The number, where it is an integer that fits `i64`; `None` for any
    /// other number.
    Number(Option<i64>),
    Text(String),
    Array(Vec<Json>),
    /// The members, each with its key, in the order in which they are held.
    Object(Vec<(String, Json)>),
}

/// The document that a `Json` holds.
pub open spec fn doc_of(json: Json) -> JsonDoc
    decreases json,
{
    match json {
        Json::Null => JsonDoc::Null,
        Json::Bool(flag) => JsonDoc::Bool(flag),
        Json::Number(number) => JsonDoc::Number(number),
        Json::Text(text) => JsonDoc::Text(text@),
        Json::Array(items) => JsonDoc::Array(
            Seq::new(
                items@.len(),
                |i: int|
                    if 0 <= i < items@.len() {
                        doc_of(items@[i])
                    } else {
                        JsonDoc::Null
                    },
            ),
        ),
        Json::Object(members) => JsonDoc::Object(
            Seq::new(
                members@.len(),
                |i: int|
                    if 0 <= i < members@.len() {
                        (members@[i].0@, doc_of(members@[i].1))
                    } else {
                        (Seq::empty(), JsonDoc::Null)
                    },
            ),
        ),
    }
}

impl View for Json {
    type V = JsonDoc;

    open spec fn view(&self) -> JsonDoc {
        doc_of(*self)
    }
}

impl DeepView for Json {
    type V = JsonDoc;

    open spec fn deep_view(&self) -> JsonDoc {
        doc_of(*self)
    }
}

/// The value of the first pair of `members` whose key is `key`.
pub open spec fn first_member(members: Seq<(Seq<char>, JsonDoc)>, key: Seq<char>) -> Option<
    JsonDoc,
>
    decreases members.len(),
{
    if members.len() == 0 {
        None
    } else if members[0].0 == key {
        Some(members[0].1)
    } else {
        first_member(members.drop_first(), key)
    }
}

impl JsonDoc {
    /// The first member held under `key`, where this is an object that has one.
    pub open spec fn member(self, key: Seq<char>) -> Option<JsonDoc> {
        match self {
            JsonDoc::Object(members) => first_member(members, key),
            _ => None,
        }
    }

    /// The first member held under `key`, unless there is none or it is null.
    pub open spec fn found(self, key: Seq<char>) -> Option<JsonDoc> {
        match self.member(key) {
            Some(JsonDoc::Null) | None => None,
            Some(doc) => Some(doc),
        }
    }

    /// The text held under `key`, where this is an object whose first member
    /// of that key is a string.
    pub open spec fn member_text(self, key: Seq<char>) -> Option<Seq<char>> {
        match self.member(key) {
            Some(JsonDoc::Text(text)) => Some(text),
            _ => None,
        }
    }

    /// The integer held under `key`, where this is an object whose first
    /// member of that key is an integer that fits `i64`.
    pub open spec fn member_integer(self, key: Seq<char>) -> Option<i64> {
        match self.member(key) {
            Some(JsonDoc::Number(Some(number))) => Some(number),
            _ => None,
        }
    }

    /// The elements held under `key`, where this is an object whose first
    /// member of that key is an array.
    pub open spec fn member_items(self, key: Seq<char>) -> Option<Seq<JsonDoc>> {
        match self.member(key) {
            Some(JsonDoc::Array(items)) => Some(items),
            _ => None,
        }
    }
}

/// `serde_json::Value`, taken as it is: nothing of what it holds is seen here.
#[verifier::external_type_specification]
#[verifier::external_body]
pub struct ExValue(serde_json::Value);

/// `serde_json::Error`, taken as it is.
#[verifier::external_type_specification]
#[verifier::external_body]
pub struct ExError(serde_json::Error);

/// The document that `serde_json::from_str` reads from a text, or `None`
/// where it refuses the text.
pub uninterp spec fn parsed_text(text: Seq<char>) -> Option<JsonDoc>;

/// The document that a `serde_json::Value` holds.
pub uninterp spec fn value_doc(value: serde_json::Value) -> JsonDoc;

/// Calls `serde_json::from_str` for a `serde_json::Value`. Not proved: that
/// the call succeeds on the texts for which `parsed_text` names a document,
/// and on no others, and that the value it then gives holds that document.
#[verifier::external_body]
fn parse_value(text: &str) -> (parsed: Result<serde_json::Value, serde_json::Error>)
    ensures
        parsed is Ok <==> parsed_text(text@) is Some,
        parsed matches Ok(value) ==> parsed_text(text@) == Some(value_doc(value)),
{
    serde_json::from_str::<serde_json::Value>(text)
}

/// Moves what a `serde_json::Value` holds into a `Json`, variant by variant,
/// the elements of an array and the members of an object in the order in
/// which `serde_json` hands them out; a number is read with
/// `serde_json::Number::as_i64`. Not proved: that the view of the result is
/// the document that the value holds.
#[verifier::external_body]
fn json_from_value(value: serde_json::Value) -> (json: Json)
    ensures
        json@ == value_doc(value),
{
    match value {
        serde_json::Value::Null => Json::Null,
        serde_json::Value::Bool(flag) => Json::Bool(flag),
        serde_json::Value::Number(number) => Json::Number(number.as_i64()),
        serde_json::Value::String(text) => Json::Text(text),
        serde_json::Value::Array(items) => Json::Array(
            items.into_iter().map(json_from_value).collect(),
        ),
        serde_json::Value::Object(members) => Json::Object(
            members.into_iter().map(|(key, member)| (key, json_from_value(member))).collect(),
        ),
    }
}

impl Json {
    /// Reads a JSON text.
    pub fn parse(text: &str) -> (json: Option<Json>)
        ensures
            json.deep_view() == parsed_text(text@),
    {
        match parse_value(text) {
            Ok(value) => Some(json_from_value(value)),
            Err(_) => None,
        }
    }

    /// The first member held under `key`, where this is an object that has one.
    pub fn member(&self, key: &str) -> (found: Option<&Json>)
        ensures
            found.deep_view() == self@.member(key@),
    {
        match self {
            Json::Object(members) => {
                let ghost held = self@->Object_0;
                let mut i: usize = 0;
                assert(held.skip(0) == held);
                while i < members.len()
                    invariant
                        i <= members@.len(),
                        self@ == JsonDoc::Object(held),
                        held.len() == members@.len(),
                        forall|k: int|
                            0 <= k < held.len() ==> held[k] == (members@[k].0@, members@[k].1@),
                        first_member(held, key@) == first_member(held.skip(i as int), key@),
                    decreases members@.len() - i,
                {
                    assert(held.skip(i as int).drop_first() == held.skip(i as int + 1));
                    if same_text(members[i].0.as_str(), key) {
                        return Some(&members[i].1);
                    }
                    i += 1;
                }
                None
            },
            _ => None,
        }
    }

    /// The first member held under `key`, unless there is none or it is null.
    pub fn found(&self, key: &str) -> (found: Option<&Json>)
        ensures
            found.deep_view() == self@.found(key@),
    {
        match self.member(key) {
            Some(Json::Null) | None => None,
            Some(json) => Some(json),
        }
    }

    /// The text held under `key`, where this is an object whose first member
    /// of that key is a string.
    pub fn member_text(&self, key: &str) -> (found: Option<&String>)
        ensures
            found.deep_view() == self@.member_text(key@),
    {
        match self.member(key) {
            Some(Json::Text(text)) => Some(text),
            _ => None,
        }
    }

    /// The integer held under `key`, where this is an object whose first
    /// member of that key is an integer that fits `i64`.
    pub fn member_integer(&self, key: &str) -> (found: Option<i64>)
        ensures
            found == self@.member_integer(key@),
    {
        match self.member(key) {
            Some(Json::Number(Some(number))) => Some(*number),
            _ => None,
        }
    }

    /// The elements held under `key`, where this is an object whose first
    /// member of that key is an array.
    pub fn member_items(&self, key: &str) -> (found: Option<&Vec<Json>>)
        ensures
            found.deep_view() == self@.member_items(key@),
    {
        match self.member(key) {
            Some(Json::Array(items)) => Some(items),
            _ => None,
        }
    }
}

} // verus!
