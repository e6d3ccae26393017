//! JSON documents as the message handlers read them.
//!
//! Text is turned into a document by `serde_json`; everything that then looks
//! into the document is verified code over the `Json` type of this module.

use crate::text::same_text;
use serde_json::Value;
use vstd::prelude::*;

verus! {

/// A JSON document, reduced to what message handling reads: the shape of
/// every value and the characters of every string. A number keeps no payload.
/// The members of an object are listed with their names; a lookup takes the
/// first member of a given name.
#[derive(Debug, PartialEq, Eq)]
pub enum Json {
    Null,
    Bool(bool),
    Number,
    Text(String),
    Array(Vec<Json>),
    Object(Vec<Member>),
}

/// One member of a JSON object.
#[derive(Debug, PartialEq, Eq)]
pub struct Member {
    pub name: String,
    pub value: Json,
}

/// A JSON document as mathematics.
pub enum JsonView {
    Null,
    Bool(bool),
    Number,
    Text(Seq<char>),
    Array(Seq<JsonView>),
    Object(Seq<MemberView>),
}

/// One member of a JSON object as mathematics.
pub struct MemberView {
    pub name: Seq<char>,
    pub value: JsonView,
}

/// The value of the first member named `key` among `members[from..]`.
pub open spec fn first_named(members: Seq<MemberView>, key: Seq<char>, from: int) -> Option<
    JsonView,
>
    decreases members.len() - from,
{
    if from < 0 || from >= members.len() {
        None
    } else if members[from].name == key {
        Some(members[from].value)
    } else {
        first_named(members, key, from + 1)
    }
}

impl JsonView {
    /// The member `key` of an object; `None` for a missing member and for
    /// anything that is not an object.
    pub open spec fn member(self, key: Seq<char>) -> Option<JsonView> {
        match self {
            JsonView::Object(members) => first_named(members, key, 0),
            _ => None,
        }
    }

    /// The element at `index` of an array; `None` past its end and for
    /// anything that is not an array.
    pub open spec fn element(self, index: int) -> Option<JsonView> {
        match self {
            JsonView::Array(items) => if 0 <= index < items.len() {
                Some(items[index])
            } else {
                None
            },
            _ => None,
        }
    }

    /// The characters of a string value; `None` for any other value.
    pub open spec fn text(self) -> Option<Seq<char>> {
        match self {
            JsonView::Text(s) => Some(s),
            _ => None,
        }
    }
}

impl View for Json {
    type V = JsonView;

    open spec fn view(&self) -> JsonView
        decreases self,
    {
        match self {
            Json::Null => JsonView::Null,
            Json::Bool(b) => JsonView::Bool(*b),
            Json::Number => JsonView::Number,
            Json::Text(s) => JsonView::Text(s@),
            Json::Array(items) => JsonView::Array(
                Seq::new(
                    items@.len(),
                    |i: int|
                        if 0 <= i < items@.len() {
                            items@[i]@
                        } else {
                            JsonView::Null
                        },
                ),
            ),
            Json::Object(members) => JsonView::Object(
                Seq::new(
                    members@.len(),
                    |i: int|
                        if 0 <= i < members@.len() {
                            MemberView { name: members@[i].name@, value: members@[i].value@ }
                        } else {
                            MemberView { name: Seq::empty(), value: JsonView::Null }
                        },
                ),
            ),
        }
    }
}

/// The document that an optional `Json` is, as mathematics.
pub open spec fn optional_json(document: Option<Json>) -> Option<JsonView> {
    match document {
        Some(d) => Some(d@),
        None => None,
    }
}

impl Json {
    /// Looks up a member of an object by name.
    pub fn member(&self, key: &str) -> (found: Option<&Json>)
        ensures
            match found {
                Some(value) => self@.member(key@) == Some(value@),
                None => self@.member(key@) is None,
            },
    {
        match self {
            Json::Object(members) => {
                let ghost listed = self@->Object_0;
                let mut i: usize = 0;
                while i < members.len()
                    invariant
                        i <= members.len(),
                        listed.len() == members.len(),
                        forall|j: int|
                            0 <= j < members.len() ==> listed[j].name == members@[j].name@
                                && listed[j].value == members@[j].value@,
                        self@.member(key@) == first_named(listed, key@, i as int),
                    decreases members.len() - i,
                {
                    if same_text(members[i].name.as_str(), key) {
                        return Some(&members[i].value);
                    }
                    i += 1;
                }
                None
            },
            _ => None,
        }
    }

    /// Looks up an element of an array by position.
    pub fn element(&self, index: usize) -> (found: Option<&Json>)
        ensures
            match found {
                Some(value) => self@.element(index as int) == Some(value@),
                None => self@.element(index as int) is None,
            },
    {
        match self {
            Json::Array(items) => if index < items.len() {
                Some(&items[index])
            } else {
                None
            },
            _ => None,
        }
    }

    /// The string that this value is, if it is one.
    pub fn text(&self) -> (found: Option<&str>)
        ensures
            match found {
                Some(s) => self@.text() == Some(s@),
                None => self@.text() is None,
            },
    {
        match self {
            Json::Text(s) => Some(s.as_str()),
            _ => None,
        }
    }

    /// Whether this value is `null`.
    pub fn is_null(&self) -> (null: bool)
        ensures
            null == (self@ is Null),
    {
        match self {
            Json::Null => true,
            _ => false,
        }
    }
}

/// Makes `serde_json::Value` known as a type whose inside is not looked at.
#[verifier::external_type_specification]
#[verifier::external_body]
pub struct ExValue(Value);

/// The document that `serde_json` reads from `text`, or `None` where it
/// rejects the text.
pub uninterp spec fn json_document(text: Seq<char>) -> Option<JsonView>;

/// Copies a `serde_json::Value` into a `Json`, variant by variant; object
/// members come in the order in which `serde_json::Map` hands them out.
/// Nothing is claimed of it here: `parse` is its only caller.
#[verifier::external_body]
fn json_from_value(value: Value) -> Json {
    match value {
        Value::Null => Json::Null,
        Value::Bool(b) => Json::Bool(b),
        Value::Number(_) => Json::Number,
        Value::String(s) => Json::Text(s),
        Value::Array(items) => Json::Array(items.into_iter().map(json_from_value).collect()),
        Value::Object(members) => Json::Object(
            members.into_iter().map(|(name, v)| Member { name, value: json_from_value(v) }).collect(),
        ),
    }
}

/// Calls `serde_json::from_str::<serde_json::Value>`. The contract claims
/// only that the outcome is a function of the characters of `text`: the same
/// text is always rejected, or always read as the same document. What the
/// document is for a given text is left to `serde_json`.
#[verifier::external_body]
pub(crate) fn parse(text: &str) -> (document: Option<Json>)
    ensures
        optional_json(document) == json_document(text@),
{
    match serde_json::from_str::<Value>(text) {
        Ok(value) => Some(json_from_value(value)),
        Err(_) => None,
    }
}

} // verus!
