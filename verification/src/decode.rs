//! Reading typed fields out of JSON objects, and the trait of the records
//! that are decoded from JSON.
//!
//! Every reader exists twice under one name: as a spec function on
//! [`JsonModel`], which says what the field holds, and as an executable
//! method on [`JsonValue`], whose contract is that function.

use vstd::prelude::*;
use crate::error::outcome;
use crate::error::ParseError;
use crate::error::ParseErrorModel;
use crate::json::json_document;
use crate::json::JsonModel;
use crate::json::JsonValue;
use crate::json::parse;
use crate::text::lemma_views_empty;
use crate::text::lemma_views_push;
use crate::text::views;

verus! {

/// What decoding yields in contracts.
pub type Decoded<T> = Result<T, ParseErrorModel>;

/// A record that is decoded from a JSON value.
pub trait FromJson: View + Sized {
    /// The record that `json` holds. `field` is the name under which the value
    /// stands in its parent, or the name of the record for a whole document; a
    /// value that is no object is reported under it.
    spec fn decoded(json: JsonModel, field: Seq<char>) -> Decoded<Self::V>;

    fn from_json(json: &JsonValue, field: &'static str) -> (r: Result<Self, ParseError>)
        ensures
            outcome(r) == Self::decoded(json@, field@),
    ;
}

/// A closed vocabulary: a type whose values are known by name.
pub trait Vocabulary: Sized {
    /// The value that a name stands for, if it stands for one.
    spec fn named_value(name: Seq<char>) -> Option<Self>;

    fn from_name(name: &str) -> (r: Option<Self>)
        ensures
            r == Self::named_value(name@),
    ;
}

/// The records that the values of `items` hold, in order, or the failure of
/// the first value that holds none.
pub open spec fn decoded_all<T: FromJson>(items: Seq<JsonModel>, field: Seq<char>) -> Decoded<
    Seq<T::V>,
>
    decreases items.len(),
{
    if items.len() == 0 {
        Ok(Seq::empty())
    } else {
        match decoded_all::<T>(items.drop_last(), field) {
            Err(e) => Err(e),
            Ok(front) => match T::decoded(items.last(), field) {
                Err(e) => Err(e),
                Ok(x) => Ok(front.push(x)),
            },
        }
    }
}

/// A failure within a prefix of a list is the failure of the whole list.
pub proof fn lemma_decoded_all_failure<T: FromJson>(items: Seq<JsonModel>, field: Seq<char>, n: int)
    requires
        0 <= n <= items.len(),
        decoded_all::<T>(items.take(n), field) is Err,
    ensures
        decoded_all::<T>(items, field) == decoded_all::<T>(items.take(n), field),
    decreases items.len() - n,
{
    if n == items.len() {
        assert(items.take(n) == items);
    } else {
        assert(items.take(n + 1).drop_last() == items.take(n));
        lemma_decoded_all_failure::<T>(items, field, n + 1);
    }
}

/// A list decodes exactly when each of its values does, and then element by
/// element.
pub proof fn lemma_decoded_all_elements<T: FromJson>(items: Seq<JsonModel>, field: Seq<char>)
    ensures
        decoded_all::<T>(items, field) is Ok <==> forall|i: int|
            0 <= i < items.len() ==> (#[trigger] T::decoded(items[i], field)) is Ok,
        decoded_all::<T>(items, field) matches Ok(records) ==> records.len() == items.len()
            && forall|i: int|
            0 <= i < items.len() ==> (#[trigger] T::decoded(items[i], field)) == Ok::<
                T::V,
                ParseErrorModel,
            >(records[i]),
    decreases items.len(),
{
    if items.len() > 0 {
        let front = items.drop_last();
        lemma_decoded_all_elements::<T>(front, field);
        assert(forall|i: int| 0 <= i < front.len() ==> front[i] == items[i]);
        if decoded_all::<T>(items, field) is Ok {
            assert forall|i: int| 0 <= i < items.len() implies (#[trigger] T::decoded(
                items[i],
                field,
            )) is Ok by {
                if i < front.len() {
                    assert(front[i] == items[i]);
                }
            }
        }
        if forall|i: int| 0 <= i < items.len() ==> (#[trigger] T::decoded(items[i], field)) is Ok {
            assert forall|i: int| 0 <= i < front.len() implies (#[trigger] T::decoded(
                front[i],
                field,
            )) is Ok by {
                assert(front[i] == items[i]);
            }
            assert(T::decoded(items[items.len() - 1], field) is Ok);
        }
    }
}

/// Decodes every value of a list, stopping at the first that fails.
pub fn decode_all<T: FromJson>(items: &Vec<JsonValue>, field: &'static str) -> (r: Result<
    Vec<T>,
    ParseError,
>)
    ensures
        match r {
            Ok(v) => decoded_all::<T>(views(items@), field@) == Ok::<Seq<T::V>, ParseErrorModel>(
                views(v@),
            ),
            Err(e) => decoded_all::<T>(views(items@), field@) == Err::<Seq<T::V>, ParseErrorModel>(
                e@,
            ),
        },
{
    let ghost all = views(items@);
    let mut out: Vec<T> = Vec::new();
    let mut i: usize = 0;
    proof {
        lemma_views_empty::<T>();
        assert(all.take(0) == Seq::<JsonModel>::empty());
    }
    while i < items.len()
        invariant
            i <= items.len(),
            all == views(items@),
            decoded_all::<T>(all.take(i as int), field@) == Ok::<Seq<T::V>, ParseErrorModel>(
                views(out@),
            ),
        decreases items.len() - i,
    {
        proof {
            assert(all.take(i + 1).drop_last() == all.take(i as int));
            assert(all.take(i + 1).last() == items@[i as int]@);
        }
        match T::from_json(&items[i], field) {
            Ok(x) => {
                proof {
                    lemma_views_push(out@, x);
                }
                out.push(x);
            },
            Err(e) => {
                proof {
                    lemma_decoded_all_failure::<T>(all, field@, i + 1);
                }
                return Err(e);
            },
        }
        i += 1;
    }
    proof {
        assert(all.take(i as int) == all);
    }
    Ok(out)
}

impl JsonModel {
    /// The member under `field`, which must be there.
    pub open spec fn required(self, field: Seq<char>) -> Decoded<JsonModel> {
        match self.member(field) {
            Some(v) => Ok(v),
            None => Err(ParseErrorModel::Missing { field }),
        }
    }

    /// The member under `field`, taking an absent member and `null` alike for
    /// "no value".
    pub open spec fn optional(self, field: Seq<char>) -> Option<JsonModel> {
        match self.member(field) {
            Some(v) => if v is Null {
                None
            } else {
                Some(v)
            },
            None => None,
        }
    }

    /// The member under `field`, which must be there and may be `null`.
    pub open spec fn nullable(self, field: Seq<char>) -> Decoded<Option<JsonModel>> {
        match self.member(field) {
            Some(v) => if v is Null {
                Ok(None)
            } else {
                Ok(Some(v))
            },
            None => Err(ParseErrorModel::Missing { field }),
        }
    }

    /// The value itself, which must be a text.
    pub open spec fn as_text(self, field: Seq<char>) -> Decoded<Seq<char>> {
        match self {
            JsonModel::Text(s) => Ok(s),
            _ => Err(ParseErrorModel::Mistyped { field, found: self.kind() }),
        }
    }

    /// The value itself, which must be `true` or `false`.
    pub open spec fn as_bool(self, field: Seq<char>) -> Decoded<bool> {
        match self {
            JsonModel::Bool(b) => Ok(b),
            _ => Err(ParseErrorModel::Mistyped { field, found: self.kind() }),
        }
    }

    /// The value itself, which must be an integer from 0 to 4294967295.
    pub open spec fn as_u32(self, field: Seq<char>) -> Decoded<u32> {
        match self {
            JsonModel::Number(Some(i)) => if 0 <= i <= u32::MAX {
                Ok(i as u32)
            } else {
                Err(ParseErrorModel::OutOfRange { field, number: i })
            },
            _ => Err(ParseErrorModel::Mistyped { field, found: self.kind() }),
        }
    }

    /// The value itself, which must be an integer from -2147483648 to
    /// 2147483647.
    pub open spec fn as_i32(self, field: Seq<char>) -> Decoded<i32> {
        match self {
            JsonModel::Number(Some(i)) => if i32::MIN <= i <= i32::MAX {
                Ok(i as i32)
            } else {
                Err(ParseErrorModel::OutOfRange { field, number: i })
            },
            _ => Err(ParseErrorModel::Mistyped { field, found: self.kind() }),
        }
    }

    /// The elements of the value, which must be an array.
    pub open spec fn as_array(self, field: Seq<char>) -> Decoded<Seq<JsonModel>> {
        match self {
            JsonModel::Array(items) => Ok(items),
            _ => Err(ParseErrorModel::Mistyped { field, found: self.kind() }),
        }
    }

    /// The value itself, which must be an object.
    pub open spec fn as_object(self, field: Seq<char>) -> Decoded<JsonModel> {
        match self {
            JsonModel::Object(_) => Ok(self),
            _ => Err(ParseErrorModel::Mistyped { field, found: self.kind() }),
        }
    }

    /// The text under `field`.
    pub open spec fn text_field(self, field: Seq<char>) -> Decoded<Seq<char>> {
        match self.required(field) {
            Ok(v) => v.as_text(field),
            Err(e) => Err(e),
        }
    }

    /// The truth value under `field`.
    pub open spec fn bool_field(self, field: Seq<char>) -> Decoded<bool> {
        match self.required(field) {
            Ok(v) => v.as_bool(field),
            Err(e) => Err(e),
        }
    }

    /// The unsigned number under `field`.
    pub open spec fn u32_field(self, field: Seq<char>) -> Decoded<u32> {
        match self.required(field) {
            Ok(v) => v.as_u32(field),
            Err(e) => Err(e),
        }
    }

    /// The signed number under `field`.
    pub open spec fn i32_field(self, field: Seq<char>) -> Decoded<i32> {
        match self.required(field) {
            Ok(v) => v.as_i32(field),
            Err(e) => Err(e),
        }
    }

    /// An optional number: absent or `null` is `None`.
    pub open spec fn optional_u32_field(self, field: Seq<char>) -> Decoded<Option<u32>> {
        match self.optional(field) {
            None => Ok(None),
            Some(v) => match v.as_u32(field) {
                Ok(n) => Ok(Some(n)),
                Err(e) => Err(e),
            },
        }
    }

    /// A number that must be mentioned and may be `null`.
    pub open spec fn nullable_u32_field(self, field: Seq<char>) -> Decoded<Option<u32>> {
        match self.nullable(field) {
            Err(e) => Err(e),
            Ok(None) => Ok(None),
            Ok(Some(v)) => match v.as_u32(field) {
                Ok(n) => Ok(Some(n)),
                Err(e) => Err(e),
            },
        }
    }

    /// An optional text: absent or `null` is `None`.
    pub open spec fn optional_text_field(self, field: Seq<char>) -> Decoded<Option<Seq<char>>> {
        match self.optional(field) {
            None => Ok(None),
            Some(v) => match v.as_text(field) {
                Ok(s) => Ok(Some(s)),
                Err(e) => Err(e),
            },
        }
    }

    /// The record under `field`.
    pub open spec fn record_field<T: FromJson>(self, field: Seq<char>) -> Decoded<T::V> {
        match self.required(field) {
            Ok(v) => T::decoded(v, field),
            Err(e) => Err(e),
        }
    }

    /// The record under `field`, which must be mentioned and may be `null`.
    pub open spec fn nullable_record_field<T: FromJson>(self, field: Seq<char>) -> Decoded<
        Option<T::V>,
    > {
        match self.nullable(field) {
            Err(e) => Err(e),
            Ok(None) => Ok(None),
            Ok(Some(v)) => match T::decoded(v, field) {
                Ok(x) => Ok(Some(x)),
                Err(e) => Err(e),
            },
        }
    }

    /// The records of the array under `field`.
    pub open spec fn records_field<T: FromJson>(self, field: Seq<char>) -> Decoded<Seq<T::V>> {
        match self.required(field) {
            Err(e) => Err(e),
            Ok(v) => match v.as_array(field) {
                Err(e) => Err(e),
                Ok(items) => decoded_all::<T>(items, field),
            },
        }
    }
}

/// The readers, executable: each does what the spec function of its name
/// says.
impl JsonValue {
    pub fn required<'a>(&'a self, field: &'static str) -> (r: Result<&'a JsonValue, ParseError>)
        ensures
            outcome(r) == self@.required(field@),
    {
        match self.member(field) {
            Some(v) => Ok(v),
            None => Err(ParseError::Missing { field }),
        }
    }

    pub fn optional<'a>(&'a self, field: &'static str) -> (r: Option<&'a JsonValue>)
        ensures
            match r {
                Some(v) => self@.optional(field@) == Some(v@),
                None => self@.optional(field@) is None,
            },
    {
        match self.member(field) {
            Some(v) => match v {
                JsonValue::Null => None,
                _ => Some(v),
            },
            None => None,
        }
    }

    pub fn nullable<'a>(&'a self, field: &'static str) -> (r: Result<
        Option<&'a JsonValue>,
        ParseError,
    >)
        ensures
            match r {
                Ok(Some(v)) => self@.nullable(field@) == Ok::<Option<JsonModel>, ParseErrorModel>(
                    Some(v@),
                ),
                Ok(None) => self@.nullable(field@) == Ok::<Option<JsonModel>, ParseErrorModel>(
                    None,
                ),
                Err(e) => self@.nullable(field@) == Err::<Option<JsonModel>, ParseErrorModel>(e@),
            },
    {
        match self.member(field) {
            Some(v) => match v {
                JsonValue::Null => Ok(None),
                _ => Ok(Some(v)),
            },
            None => Err(ParseError::Missing { field }),
        }
    }

    pub fn as_text(&self, field: &'static str) -> (r: Result<String, ParseError>)
        ensures
            outcome(r) == self@.as_text(field@),
    {
        match self {
            JsonValue::Text(s) => Ok(s.clone()),
            _ => Err(ParseError::Mistyped { field, found: self.kind() }),
        }
    }

    pub fn as_bool(&self, field: &'static str) -> (r: Result<bool, ParseError>)
        ensures
            outcome(r) == self@.as_bool(field@),
    {
        match self {
            JsonValue::Bool(b) => Ok(*b),
            _ => Err(ParseError::Mistyped { field, found: self.kind() }),
        }
    }

    pub fn as_u32(&self, field: &'static str) -> (r: Result<u32, ParseError>)
        ensures
            outcome(r) == self@.as_u32(field@),
    {
        match self {
            JsonValue::Number(Some(i)) => {
                if 0 <= *i && *i <= 0xffff_ffff {
                    Ok(*i as u32)
                } else {
                    Err(ParseError::OutOfRange { field, number: *i })
                }
            },
            _ => Err(ParseError::Mistyped { field, found: self.kind() }),
        }
    }

    pub fn as_i32(&self, field: &'static str) -> (r: Result<i32, ParseError>)
        ensures
            outcome(r) == self@.as_i32(field@),
    {
        match self {
            JsonValue::Number(Some(i)) => {
                if -0x8000_0000 <= *i && *i <= 0x7fff_ffff {
                    Ok(*i as i32)
                } else {
                    Err(ParseError::OutOfRange { field, number: *i })
                }
            },
            _ => Err(ParseError::Mistyped { field, found: self.kind() }),
        }
    }

    pub fn as_array<'a>(&'a self, field: &'static str) -> (r: Result<
        &'a Vec<JsonValue>,
        ParseError,
    >)
        ensures
            match r {
                Ok(items) => self@.as_array(field@) == Ok::<Seq<JsonModel>, ParseErrorModel>(
                    views(items@),
                ),
                Err(e) => self@.as_array(field@) == Err::<Seq<JsonModel>, ParseErrorModel>(e@),
            },
    {
        match self {
            JsonValue::Array(items) => {
                proof {
                    assert(self@->Array_0 =~= views(items@));
                }
                Ok(items)
            },
            _ => Err(ParseError::Mistyped { field, found: self.kind() }),
        }
    }

    pub fn as_object<'a>(&'a self, field: &'static str) -> (r: Result<&'a JsonValue, ParseError>)
        ensures
            outcome(r) == self@.as_object(field@),
    {
        match self {
            JsonValue::Object(_) => Ok(self),
            _ => Err(ParseError::Mistyped { field, found: self.kind() }),
        }
    }

    pub fn text_field(&self, field: &'static str) -> (r: Result<String, ParseError>)
        ensures
            outcome(r) == self@.text_field(field@),
    {
        self.required(field)?.as_text(field)
    }

    pub fn bool_field(&self, field: &'static str) -> (r: Result<bool, ParseError>)
        ensures
            outcome(r) == self@.bool_field(field@),
    {
        self.required(field)?.as_bool(field)
    }

    pub fn u32_field(&self, field: &'static str) -> (r: Result<u32, ParseError>)
        ensures
            outcome(r) == self@.u32_field(field@),
    {
        self.required(field)?.as_u32(field)
    }

    pub fn i32_field(&self, field: &'static str) -> (r: Result<i32, ParseError>)
        ensures
            outcome(r) == self@.i32_field(field@),
    {
        self.required(field)?.as_i32(field)
    }

    pub fn optional_u32_field(&self, field: &'static str) -> (r: Result<Option<u32>, ParseError>)
        ensures
            outcome(r) == self@.optional_u32_field(field@),
    {
        match self.optional(field) {
            None => Ok(None),
            Some(v) => Ok(Some(v.as_u32(field)?)),
        }
    }

    pub fn nullable_u32_field(&self, field: &'static str) -> (r: Result<Option<u32>, ParseError>)
        ensures
            outcome(r) == self@.nullable_u32_field(field@),
    {
        match self.nullable(field)? {
            None => Ok(None),
            Some(v) => Ok(Some(v.as_u32(field)?)),
        }
    }

    pub fn optional_text_field(&self, field: &'static str) -> (r: Result<
        Option<String>,
        ParseError,
    >)
        ensures
            match r {
                Ok(Some(s)) => self@.optional_text_field(field@) == Ok::<
                    Option<Seq<char>>,
                    ParseErrorModel,
                >(Some(s@)),
                Ok(None) => self@.optional_text_field(field@) == Ok::<
                    Option<Seq<char>>,
                    ParseErrorModel,
                >(None),
                Err(e) => self@.optional_text_field(field@) == Err::<
                    Option<Seq<char>>,
                    ParseErrorModel,
                >(e@),
            },
    {
        match self.optional(field) {
            None => Ok(None),
            Some(v) => Ok(Some(v.as_text(field)?)),
        }
    }

    pub fn record_field<T: FromJson>(&self, field: &'static str) -> (r: Result<T, ParseError>)
        ensures
            outcome(r) == self@.record_field::<T>(field@),
    {
        T::from_json(self.required(field)?, field)
    }

    pub fn nullable_record_field<T: FromJson>(&self, field: &'static str) -> (r: Result<
        Option<T>,
        ParseError,
    >)
        ensures
            match r {
                Ok(Some(x)) => self@.nullable_record_field::<T>(field@) == Ok::<
                    Option<T::V>,
                    ParseErrorModel,
                >(Some(x@)),
                Ok(None) => self@.nullable_record_field::<T>(field@) == Ok::<
                    Option<T::V>,
                    ParseErrorModel,
                >(None),
                Err(e) => self@.nullable_record_field::<T>(field@) == Err::<
                    Option<T::V>,
                    ParseErrorModel,
                >(e@),
            },
    {
        match self.nullable(field)? {
            None => Ok(None),
            Some(v) => Ok(Some(T::from_json(v, field)?)),
        }
    }

    pub fn records_field<T: FromJson>(&self, field: &'static str) -> (r: Result<
        Vec<T>,
        ParseError,
    >)
        ensures
            match r {
                Ok(v) => self@.records_field::<T>(field@) == Ok::<Seq<T::V>, ParseErrorModel>(
                    views(v@),
                ),
                Err(e) => self@.records_field::<T>(field@) == Err::<Seq<T::V>, ParseErrorModel>(
                    e@,
                ),
            },
    {
        let items = self.required(field)?.as_array(field)?;
        decode_all::<T>(items, field)
    }
}

/// The record that a text holds: the record of its JSON document, or the place
/// where the text stops being one.
pub open spec fn decoded_text<T: FromJson>(text: Seq<char>, record: Seq<char>) -> Decoded<T::V> {
    match json_document(text) {
        Ok(json) => T::decoded(json, record),
        Err(e) => Err(ParseErrorModel::Syntax { line: e.line as nat, column: e.column as nat }),
    }
}

/// Decodes a record from the text of a JSON document. `record` names the
/// record in the failure reported for a document that is no object.
pub fn decode<T: FromJson>(text: &str, record: &'static str) -> (r: Result<T, ParseError>)
    ensures
        outcome(r) == decoded_text::<T>(text@, record@),
{
    match parse(text) {
        Ok(json) => T::from_json(&json, record),
        Err(e) => Err(ParseError::Syntax { line: e.line, column: e.column }),
    }
}

} // verus!
