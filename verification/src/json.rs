//! JSON documents as values of this crate, and the reading of a document
//! from text.

use vstd::prelude::*;
use crate::text::same_text;

verus! {

/// The kinds of JSON values that the decoders tell apart. A number is an
/// `Integer` when it holds an integer value, and a `Fraction` when it holds
/// none.
#[derive(Debug, Clone, Copy, PartialEq, Eq, Structural)]
pub enum JsonKind {
    Null,
    Bool,
    Integer,
    Fraction,
    Text,
    Array,
    Object,
}

/// A JSON value. A number holds its integer value, or `None` when it is not an
/// integer: when it is written with a fraction or an exponent, is a negative
/// zero, or does not fit in 64 bits, signed or unsigned. The members of an
/// object are kept as a list of pairs.
#[derive(Debug, PartialEq, Eq)]
pub enum JsonValue {
    Null,
    Bool(bool),
    Number(Option<i128>),
    Text(String),
    Array(Vec<JsonValue>),
    Object(Vec<(String, JsonValue)>),
}

/// The mathematical value of a [`JsonValue`].
pub ghost enum JsonModel {
    Null,
    Bool(bool),
    Number(Option<int>),
    Text(Seq<char>),
    Array(Seq<JsonModel>),
    Object(Seq<(Seq<char>, JsonModel)>),
}

/// The mathematical value of a JSON value.
pub open spec fn model_of(value: JsonValue) -> JsonModel
    decreases value,
{
    match value {
        JsonValue::Null => JsonModel::Null,
        JsonValue::Bool(b) => JsonModel::Bool(b),
        JsonValue::Number(n) => JsonModel::Number(
            match n {
                Some(i) => Some(i as int),
                None => None,
            },
        ),
        JsonValue::Text(s) => JsonModel::Text(s@),
        JsonValue::Array(items) => JsonModel::Array(
            Seq::new(
                items@.len(),
                |i: int|
                    if 0 <= i < items@.len() {
                        model_of(items@[i])
                    } else {
                        JsonModel::Null
                    },
            ),
        ),
        JsonValue::Object(members) => JsonModel::Object(
            Seq::new(
                members@.len(),
                |i: int|
                    if 0 <= i < members@.len() {
                        (members@[i].0@, model_of(members@[i].1))
                    } else {
                        (Seq::empty(), JsonModel::Null)
                    },
            ),
        ),
    }
}

impl View for JsonValue {
    type V = JsonModel;

    open spec fn view(&self) -> JsonModel {
        model_of(*self)
    }
}

/// The value of the first member of `members` whose key is `key`.
pub open spec fn first_member(members: Seq<(Seq<char>, JsonModel)>, key: Seq<char>) -> Option<
    JsonModel,
>
    decreases members.len(),
{
    if members.len() == 0 {
        None
    } else if members[0].0 == key {
        Some(members[0].1)
    } else {
        first_member(members.skip(1), key)
    }
}

impl JsonModel {
    /// The kind of a value.
    pub open spec fn kind(self) -> JsonKind {
        match self {
            JsonModel::Null => JsonKind::Null,
            JsonModel::Bool(_) => JsonKind::Bool,
            JsonModel::Number(Some(_)) => JsonKind::Integer,
            JsonModel::Number(None) => JsonKind::Fraction,
            JsonModel::Text(_) => JsonKind::Text,
            JsonModel::Array(_) => JsonKind::Array,
            JsonModel::Object(_) => JsonKind::Object,
        }
    }

    /// The member of an object under `key`: the first one, should the key
    /// occur more than once. Anything but an object has no members.
    pub open spec fn member(self, key: Seq<char>) -> Option<JsonModel> {
        match self {
            JsonModel::Object(members) => first_member(members, key),
            _ => None,
        }
    }
}

impl JsonValue {
    /// The kind of the value.
    pub fn kind(&self) -> (k: JsonKind)
        ensures
            k == self@.kind(),
    {
        match self {
            JsonValue::Null => JsonKind::Null,
            JsonValue::Bool(_) => JsonKind::Bool,
            JsonValue::Number(Some(_)) => JsonKind::Integer,
            JsonValue::Number(None) => JsonKind::Fraction,
            JsonValue::Text(_) => JsonKind::Text,
            JsonValue::Array(_) => JsonKind::Array,
            JsonValue::Object(_) => JsonKind::Object,
        }
    }

    /// Looks up the member of an object under `key`.
    pub fn member<'a>(&'a self, key: &str) -> (r: Option<&'a JsonValue>)
        ensures
            match r {
                Some(v) => self@.member(key@) == Some(v@),
                None => self@.member(key@) is None,
            },
    {
        match self {
            JsonValue::Object(members) => {
                let ghost all = self@->Object_0;
                proof {
                    assert(all.skip(0) == all);
                }
                let mut i: usize = 0;
                while i < members.len()
                    invariant
                        i <= members.len(),
                        self@ == JsonModel::Object(all),
                        all.len() == members@.len(),
                        forall|k: int|
                            0 <= k < members@.len() ==> all[k] == (
                                members@[k].0@,
                                members@[k].1@,
                            ),
                        first_member(all, key@) == first_member(all.skip(i as int), key@),
                    decreases members.len() - i,
                {
                    proof {
                        assert(all.skip(i as int)[0] == all[i as int]);
                        assert(all.skip(i as int).skip(1) == all.skip(i + 1));
                    }
                    if same_text(members[i].0.as_str(), key) {
                        return Some(&members[i].1);
                    }
                    i += 1;
                }
                None
            },
            _ => None,
        }
    }
}

/// Copies a JSON value, member by member.
fn duplicate(value: &JsonValue) -> (r: JsonValue)
    ensures
        r@ == value@,
    decreases value,
{
    match value {
        JsonValue::Null => JsonValue::Null,
        JsonValue::Bool(b) => JsonValue::Bool(*b),
        JsonValue::Number(n) => JsonValue::Number(*n),
        JsonValue::Text(s) => JsonValue::Text(s.clone()),
        JsonValue::Array(items) => {
            let mut copies: Vec<JsonValue> = Vec::new();
            let mut i: usize = 0;
            while i < items.len()
                invariant
                    i <= items.len(),
                    decreases_to!(value => items@),
                    copies@.len() == i,
                    forall|k: int| 0 <= k < i ==> copies@[k]@ == items@[k]@,
                decreases items.len() - i,
            {
                copies.push(duplicate(&items[i]));
                i += 1;
            }
            let r = JsonValue::Array(copies);
            proof {
                assert(r@->Array_0 =~= value@->Array_0);
            }
            r
        },
        JsonValue::Object(members) => {
            let mut copies: Vec<(String, JsonValue)> = Vec::new();
            let mut i: usize = 0;
            while i < members.len()
                invariant
                    i <= members.len(),
                    decreases_to!(value => members@),
                    copies@.len() == i,
                    forall|k: int|
                        0 <= k < i ==> copies@[k].0@ == members@[k].0@ && copies@[k].1@
                            == members@[k].1@,
                decreases members.len() - i,
            {
                copies.push((members[i].0.clone(), duplicate(&members[i].1)));
                i += 1;
            }
            let r = JsonValue::Object(copies);
            proof {
                assert(r@->Object_0 =~= value@->Object_0);
            }
            r
        },
    }
}

impl Clone for JsonValue {
    fn clone(&self) -> (r: Self)
        ensures
            r@ == self@,
    {
        duplicate(self)
    }
}

/// Where a text stops being a JSON document; line and column are one-based.
#[derive(Debug, Clone, Copy, PartialEq, Eq, Structural)]
pub struct SyntaxError {
    pub line: usize,
    pub column: usize,
}

/// `serde_json::Value`, declared so that it can stand in a signature.
/// Nothing is known of what such a value holds.
#[verifier::external_type_specification]
#[verifier::external_body]
pub struct ExSerdeJsonValue(serde_json::Value);

/// What `serde_json::from_str` makes of a text when asked for a
/// `serde_json::Value`: the document the text holds, or the place where it
/// stops being one.
pub uninterp spec fn json_document(text: Seq<char>) -> Result<JsonModel, SyntaxError>;

/// Moves a `serde_json::Value` into a [`JsonValue`], variant by variant. A
/// number passes through `serde_json::Number::as_i128`, which gives the value
/// of an integer and `None` for any other number; the members of an object
/// come in the order in which `serde_json::Map` hands them out.
#[verifier::external_body]
fn from_serde(value: serde_json::Value) -> JsonValue {
    match value {
        serde_json::Value::Null => JsonValue::Null,
        serde_json::Value::Bool(b) => JsonValue::Bool(b),
        serde_json::Value::Number(n) => JsonValue::Number(n.as_i128()),
        serde_json::Value::String(s) => JsonValue::Text(s),
        serde_json::Value::Array(a) => JsonValue::Array(a.into_iter().map(from_serde).collect()),
        serde_json::Value::Object(m) => JsonValue::Object(
            m.into_iter().map(|(k, v)| (k, from_serde(v))).collect(),
        ),
    }
}

/// Calls `serde_json::from_str` for a `serde_json::Value`. The contract gives
/// the outcome a name and claims only that it depends on the text alone; of a
/// failure it keeps the line and column that `serde_json::Error` reports.
#[verifier::external_body]
fn read_document(text: &str) -> (r: Result<JsonValue, SyntaxError>)
    ensures
        match r {
            Ok(v) => json_document(text@) == Ok::<JsonModel, SyntaxError>(v@),
            Err(e) => json_document(text@) == Err::<JsonModel, SyntaxError>(e),
        },
{
    match serde_json::from_str::<serde_json::Value>(text) {
        Ok(value) => Ok(from_serde(value)),
        Err(e) => Err(SyntaxError { line: e.line(), column: e.column() }),
    }
}

/// Reads a JSON document from text.
pub fn parse(text: &str) -> (r: Result<JsonValue, SyntaxError>)
    ensures
        match r {
            Ok(v) => json_document(text@) == Ok::<JsonModel, SyntaxError>(v@),
            Err(e) => json_document(text@) == Err::<JsonModel, SyntaxError>(e),
        },
{
    read_document(text)
}

} // verus!
