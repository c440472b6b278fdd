//! JSON documents as trees of plain values.
//!
//! Reading a document out of its text is the work of `serde_json`; everything
//! that looks into a document afterwards is verified here.

use serde_json::Value;
use vstd::prelude::*;

verus! {

/// A JSON number, kept in the three forms in which `serde_json` holds one.
#[derive(Debug, Clone, Copy, PartialEq, Eq, Structural)]
pub enum JsonNumber {
    /// A whole number that is not negative.
    PosInt(u64),
    /// A whole number below zero.
    NegInt(i64),
    /// Any other number, as the bit pattern of its IEEE 754 double.
    Float(u64),
}

/// A JSON document.
#[derive(Debug, PartialEq, Eq)]
pub enum Json {
    Null,
    Bool(bool),
    Number(JsonNumber),
    String(String),
    Array(Vec<Json>),
    /// The members of an object, each name with its value.
    Object(Vec<(String, Json)>),
}

/// Mathematical value of a [`Json`] document.
pub enum JsonView {
    Null,
    Bool(bool),
    Number(JsonNumber),
    String(Seq<char>),
    Array(Seq<JsonView>),
    Object(Seq<(Seq<char>, JsonView)>),
}

impl Json {
    /// The document as a mathematical value. A list and an object are taken
    /// item by item; the branches for positions outside them are never asked
    /// for, and are there so that the definition is seen to end.
    pub open spec fn model(self) -> JsonView
        decreases self,
    {
        match self {
            Json::Null => JsonView::Null,
            Json::Bool(b) => JsonView::Bool(b),
            Json::Number(n) => JsonView::Number(n),
            Json::String(s) => JsonView::String(s@),
            Json::Array(items) => JsonView::Array(
                Seq::new(
                    items.len() as nat,
                    |i: int|
                        if 0 <= i < items.len() {
                            items[i].model()
                        } else {
                            JsonView::Null
                        },
                ),
            ),
            Json::Object(members) => JsonView::Object(
                Seq::new(
                    members.len() as nat,
                    |i: int|
                        if 0 <= i < members.len() {
                            (members[i].0@, members[i].1.model())
                        } else {
                            (Seq::empty(), JsonView::Null)
                        },
                ),
            ),
        }
    }
}

impl View for Json {
    type V = JsonView;

    open spec fn view(&self) -> JsonView {
        self.model()
    }
}

/// Mathematical value of a document that may be absent.
pub open spec fn optional_document(document: Option<Json>) -> Option<JsonView> {
    match document {
        Some(json) => Some(json@),
        None => None,
    }
}

impl JsonView {
    /// The value of the first member called `name`, where `self` is an object
    /// that has one.
    pub open spec fn get(self, name: Seq<char>) -> Option<JsonView> {
        match self {
            JsonView::Object(members) => member_named(members, name),
            _ => None,
        }
    }

    /// The text of a string document.
    pub open spec fn as_str(self) -> Option<Seq<char>> {
        match self {
            JsonView::String(s) => Some(s),
            _ => None,
        }
    }

    /// The value of a document that is a whole number from 0 to 2^64 - 1.
    pub open spec fn as_u64(self) -> Option<u64> {
        match self {
            JsonView::Number(JsonNumber::PosInt(n)) => Some(n),
            _ => None,
        }
    }
}

/// The value of the first of `members` whose name is `name`.
pub open spec fn member_named(members: Seq<(Seq<char>, JsonView)>, name: Seq<char>) -> Option<
    JsonView,
>
    decreases members.len(),
{
    if members.len() == 0 {
        None
    } else if members[0].0 == name {
        Some(members[0].1)
    } else {
        member_named(members.drop_first(), name)
    }
}

impl Json {
    /// The value of the first member called `name`, where `self` is an object
    /// that has one.
    pub fn get(&self, name: &str) -> (found: Option<&Json>)
        ensures
            match found {
                Some(value) => self@.get(name@) == Some(value@),
                None => self@.get(name@) is None,
            },
    {
        match self {
            Json::Object(members) => {
                let wanted = String::from_str(name);
                let ghost all = self@->Object_0;
                assert(all.skip(0) == all);
                let mut i: usize = 0;
                while i < members.len()
                    invariant
                        i <= members.len(),
                        wanted@ == name@,
                        self@ == JsonView::Object(all),
                        all.len() == members.len(),
                        forall|k: int|
                            0 <= k < members.len() ==> all[k] == (
                                #[trigger] members[k].0@,
                                members[k].1@,
                            ),
                        member_named(all, name@) == member_named(all.skip(i as int), name@),
                    decreases members.len() - i,
                {
                    assert(all.skip(i as int).drop_first() == all.skip(i + 1));
                    assert(all.skip(i as int)[0] == all[i as int]);
                    if members[i].0 == wanted {
                        return Some(&members[i].1);
                    }
                    i += 1;
                }
                None
            },
            _ => None,
        }
    }
}

impl Json {
    /// The text of a string document.
    pub fn as_str(&self) -> (text: Option<&str>)
        ensures
            match text {
                Some(s) => self@.as_str() == Some(s@),
                None => self@.as_str() is None,
            },
    {
        match self {
            Json::String(s) => Some(s.as_str()),
            _ => None,
        }
    }

    /// The value of a document that is a whole number from 0 to 2^64 - 1.
    pub fn as_u64(&self) -> (n: Option<u64>)
        ensures
            n == self@.as_u64(),
    {
        match self {
            Json::Number(JsonNumber::PosInt(n)) => Some(*n),
            _ => None,
        }
    }
}

impl Clone for Json {
    /// A deep copy of the document.
    fn clone(&self) -> (copy: Self)
        ensures
            copy@ == self@,
        decreases self,
    {
        match self {
            Json::Null => Json::Null,
            Json::Bool(b) => Json::Bool(*b),
            Json::Number(n) => Json::Number(*n),
            Json::String(s) => Json::String(s.clone()),
            Json::Array(items) => {
                let mut copies: Vec<Json> = Vec::new();
                let mut i: usize = 0;
                while i < items.len()
                    invariant
                        i <= items.len(),
                        *self == Json::Array(*items),
                        copies.len() == i,
                        forall|k: int| 0 <= k < i ==> (#[trigger] copies[k])@ == items[k]@,
                    decreases items.len() - i,
                {
                    assert(*self is Array && self->Array_0 == *items);
                    assert(decreases_to!(*self => self->Array_0[i as int]));
                    let copy = items[i].clone();
                    copies.push(copy);
                    i += 1;
                }
                let copied = Json::Array(copies);
                assert(copied@->Array_0 =~= self@->Array_0);
                copied
            },
            Json::Object(members) => {
                let mut copies: Vec<(String, Json)> = Vec::new();
                let mut i: usize = 0;
                while i < members.len()
                    invariant
                        i <= members.len(),
                        *self == Json::Object(*members),
                        copies.len() == i,
                        forall|k: int|
                            0 <= k < i ==> (#[trigger] copies[k]).0@ == members[k].0@
                                && copies[k].1@ == members[k].1@,
                    decreases members.len() - i,
                {
                    let name = members[i].0.clone();
                    assert(*self is Object && self->Object_0 == *members);
                    assert(decreases_to!(*self => self->Object_0[i as int].1));
                    let value = members[i].1.clone();
                    copies.push((name, value));
                    i += 1;
                }
                let copied = Json::Object(copies);
                assert(copied@->Object_0 =~= self@->Object_0);
                copied
            },
        }
    }
}

/// `serde_json::Value`, the tree that `serde_json` reads a document into.
#[verifier::external_type_specification]
#[verifier::external_body]
pub struct ExValue(serde_json::Value);

/// The document that `serde_json` reads out of `bytes`; `None` where it
/// rejects them.
pub uninterp spec fn json_document(bytes: Seq<u8>) -> Option<JsonView>;

/// The document that a tree of `serde_json` holds.
pub uninterp spec fn value_tree(value: Value) -> JsonView;

/// `serde_json::from_slice`, reading one `Value`. A rejected input gives
/// `None`; an accepted one gives the tree that holds the document which
/// `json_document` names for `bytes`.
#[verifier::external_body]
fn value_from_slice(bytes: &[u8]) -> (parsed: Option<Value>)
    ensures
        match parsed {
            Some(value) => json_document(bytes@) == Some(value_tree(value)),
            None => json_document(bytes@) is None,
        },
{
    serde_json::from_slice::<Value>(bytes).ok()
}

/// Moves the content of a `serde_json::Value` into a [`Json`], variant by
/// variant and item by item. A number comes with whichever of
/// `Number::as_u64`, `Number::as_i64` and `Number::as_f64` first has a value
/// for it, the last as its bits. The result holds the document that
/// `value_tree` names for the value taken.
#[verifier::external_body]
fn json_of_value(value: Value) -> (json: Json)
    ensures
        json@ == value_tree(value),
{
    match value {
        Value::Null => Json::Null,
        Value::Bool(b) => Json::Bool(b),
        Value::Number(n) => Json::Number(
            n.as_u64().map(JsonNumber::PosInt).or(n.as_i64().map(JsonNumber::NegInt)).unwrap_or(
                JsonNumber::Float(n.as_f64().map_or(0, |x| x.to_bits())),
            ),
        ),
        Value::String(s) => Json::String(s),
        Value::Array(a) => Json::Array(a.into_iter().map(json_of_value).collect()),
        Value::Object(m) => Json::Object(m.into_iter().map(|(k, v)| (k, json_of_value(v))).collect()),
    }
}

/// Reads a JSON document; `None` where `bytes` are not one.
pub fn parse_json(bytes: &[u8]) -> (parsed: Option<Json>)
    ensures
        optional_document(parsed) == json_document(bytes@),
{
    match value_from_slice(bytes) {
        Some(value) => Some(json_of_value(value)),
        None => None,
    }
}

} // verus!
