//! How values are written as JSON documents, and read from them.

use crate::json::{Json, JsonModel};
use vstd::prelude::*;

verus! {

/// Why a JSON document is none of the schema.
#[derive(Clone, Copy, Debug, PartialEq, Eq, Structural)]
pub enum SchemaError {
    /// A part of the document is of another JSON type than its place asks
    /// for.
    WrongType,
    /// An object lacks a member that it must have.
    MissingField,
    /// A number does not fit the field it stands for.
    OutOfRange,
    /// A name stands where one of a fixed set is asked for, and is none of
    /// them.
    UnknownVariant,
}

/// A type whose values are written as JSON documents.
pub trait JsonForm: View + Sized {
    /// The value that a document stands for, or why it stands for none.
    spec fn decode(j: JsonModel) -> Result<Self::V, SchemaError>;

    /// The document that stands for a value.
    spec fn encode(v: Self::V) -> JsonModel;

    /// Reads a value from its document.
    fn from_json(j: &Json) -> (r: Result<Self, SchemaError>)
        ensures
            match r {
                Ok(value) => Self::decode(j@) == Ok::<Self::V, SchemaError>(value@),
                Err(e) => Self::decode(j@) == Err::<Self::V, SchemaError>(e),
            },
    ;

    /// Writes a value as its document.
    fn to_json(&self) -> (j: Json)
        ensures
            j@ == Self::encode(self@),
    ;
}

/// Whether `i` is the place of the first document that is no `T`.
pub open spec fn is_first_refused<T: JsonForm>(items: Seq<JsonModel>, i: int) -> bool {
    &&& 0 <= i < items.len()
    &&& T::decode(items[i]) is Err
    &&& forall|k: int| 0 <= k < i ==> T::decode(#[trigger] items[k]) is Ok
}

/// The values that a row of documents stands for: all of them, or the
/// error of the first document that is refused.
pub open spec fn decode_each<T: JsonForm>(items: Seq<JsonModel>) -> Result<Seq<T::V>, SchemaError> {
    if exists|i: int| is_first_refused::<T>(items, i) {
        Err(T::decode(items[choose|i: int| is_first_refused::<T>(items, i)])->Err_0)
    } else {
        Ok(Seq::new(items.len(), |i: int| T::decode(items[i])->Ok_0))
    }
}

/// The first document that is refused decides the error of the row.
pub proof fn lemma_decode_each_refused<T: JsonForm>(items: Seq<JsonModel>, i: int)
    requires
        is_first_refused::<T>(items, i),
    ensures
        decode_each::<T>(items) == Err::<Seq<T::V>, SchemaError>(T::decode(items[i])->Err_0),
{
    let c = choose|c: int| is_first_refused::<T>(items, c);
    assert(c == i) by {
        if c < i {
            assert(T::decode(items[c]) is Ok);
        }
        if i < c {
            assert(T::decode(items[i]) is Ok);
        }
    }
}

/// A row in which every document is accepted stands for the row of their
/// values.
pub proof fn lemma_decode_each_accepted<T: JsonForm>(items: Seq<JsonModel>, values: Seq<T::V>)
    requires
        values.len() == items.len(),
        forall|k: int|
            0 <= k < items.len() ==> T::decode(#[trigger] items[k]) == Ok::<T::V, SchemaError>(
                values[k],
            ),
    ensures
        decode_each::<T>(items) == Ok::<Seq<T::V>, SchemaError>(values),
{
    assert(!exists|i: int| is_first_refused::<T>(items, i));
    assert(Seq::new(items.len(), |i: int| T::decode(items[i])->Ok_0) =~= values);
}

/// The values that a document stands for where it is an array of
/// documents of `T`.
pub open spec fn decode_array<T: JsonForm>(j: JsonModel) -> Result<Seq<T::V>, SchemaError> {
    match j {
        JsonModel::Array(items) => decode_each::<T>(items),
        _ => Err(SchemaError::WrongType),
    }
}

/// The content of a row of values.
pub open spec fn views<T: View>(values: Seq<T>) -> Seq<T::V> {
    values.map_values(|value: T| value@)
}

/// Reads a row of values from an array of their documents.
pub fn array_from_json<T: JsonForm>(j: &Json) -> (r: Result<Vec<T>, SchemaError>)
    ensures
        match r {
            Ok(values) => decode_array::<T>(j@) == Ok::<Seq<T::V>, SchemaError>(views(values@)),
            Err(e) => decode_array::<T>(j@) == Err::<Seq<T::V>, SchemaError>(e),
        },
{
    match j {
        Json::Array(items) => {
            let mut values: Vec<T> = Vec::new();
            for i in 0..items.len()
                invariant
                    *j == Json::Array(*items),
                    values@.len() == i,
                    forall|k: int|
                        0 <= k < i ==> T::decode(#[trigger] j@->Array_0[k]) == Ok::<
                            T::V,
                            SchemaError,
                        >(values@[k]@),
            {
                assert(j@->Array_0[i as int] == items@[i as int]@);
                match T::from_json(&items[i]) {
                    Ok(value) => values.push(value),
                    Err(e) => {
                        proof {
                            lemma_decode_each_refused::<T>(j@->Array_0, i as int);
                        }
                        return Err(e);
                    },
                }
            }
            proof {
                lemma_decode_each_accepted::<T>(j@->Array_0, views(values@));
            }
            Ok(values)
        },
        _ => Err(SchemaError::WrongType),
    }
}

/// The documents that stand for a row of values.
pub open spec fn encode_each<T: JsonForm>(values: Seq<T::V>) -> Seq<JsonModel> {
    values.map_values(|value: T::V| T::encode(value))
}

/// Writes a row of values as the array of their documents.
pub fn array_to_json<T: JsonForm>(values: &Vec<T>) -> (j: Json)
    ensures
        j@ == JsonModel::Array(encode_each::<T>(views(values@))),
{
    let mut items: Vec<Json> = Vec::new();
    for i in 0..values.len()
        invariant
            items@.len() == i,
            forall|k: int| 0 <= k < i ==> (#[trigger] items@[k])@ == T::encode(values@[k]@),
    {
        items.push(values[i].to_json());
    }
    let j = Json::Array(items);
    assert(j@->Array_0 =~= encode_each::<T>(views(values@)));
    j
}

impl JsonForm for String {
    /// A text stands for itself.
    open spec fn decode(j: JsonModel) -> Result<Seq<char>, SchemaError> {
        match j {
            JsonModel::Text(text) => Ok(text),
            _ => Err(SchemaError::WrongType),
        }
    }

    open spec fn encode(v: Seq<char>) -> JsonModel {
        JsonModel::Text(v)
    }

    fn from_json(j: &Json) -> (r: Result<String, SchemaError>) {
        match j {
            Json::Text(text) => Ok(text.clone()),
            _ => Err(SchemaError::WrongType),
        }
    }

    fn to_json(&self) -> (j: Json) {
        Json::Text(self.clone())
    }
}

impl JsonForm for i32 {
    /// An integer of the range of `i32` stands for itself.
    open spec fn decode(j: JsonModel) -> Result<i32, SchemaError> {
        match j {
            JsonModel::Int(i) => if i32::MIN <= i <= i32::MAX {
                Ok(i as i32)
            } else {
                Err(SchemaError::OutOfRange)
            },
            _ => Err(SchemaError::WrongType),
        }
    }

    open spec fn encode(v: i32) -> JsonModel {
        JsonModel::Int(v as int)
    }

    fn from_json(j: &Json) -> (r: Result<i32, SchemaError>) {
        match j {
            Json::Int(i) => if i32::MIN as i128 <= *i && *i <= i32::MAX as i128 {
                Ok(*i as i32)
            } else {
                Err(SchemaError::OutOfRange)
            },
            _ => Err(SchemaError::WrongType),
        }
    }

    fn to_json(&self) -> (j: Json) {
        Json::Int(*self as i128)
    }
}

impl JsonForm for usize {
    /// An integer of the range of `usize` stands for itself.
    open spec fn decode(j: JsonModel) -> Result<usize, SchemaError> {
        match j {
            JsonModel::Int(i) => if 0 <= i <= usize::MAX {
                Ok(i as usize)
            } else {
                Err(SchemaError::OutOfRange)
            },
            _ => Err(SchemaError::WrongType),
        }
    }

    open spec fn encode(v: usize) -> JsonModel {
        JsonModel::Int(v as int)
    }

    fn from_json(j: &Json) -> (r: Result<usize, SchemaError>) {
        match j {
            Json::Int(i) => if 0 <= *i && *i <= usize::MAX as i128 {
                Ok(*i as usize)
            } else {
                Err(SchemaError::OutOfRange)
            },
            _ => Err(SchemaError::WrongType),
        }
    }

    fn to_json(&self) -> (j: Json) {
        Json::Int(*self as i128)
    }
}

/// The value of a member that an object must have.
pub open spec fn required<T: JsonForm>(j: JsonModel, key: Seq<char>) -> Result<T::V, SchemaError> {
    match j.get(key) {
        Some(x) => T::decode(x),
        None => Err(SchemaError::MissingField),
    }
}

/// The values of a member that an object must have, and that is an array.
pub open spec fn required_array<T: JsonForm>(j: JsonModel, key: Seq<char>) -> Result<
    Seq<T::V>,
    SchemaError,
> {
    match j.get(key) {
        Some(x) => decode_array::<T>(x),
        None => Err(SchemaError::MissingField),
    }
}

/// The values of a member that is an array, and that an object may leave
/// out: it then stands for no values.
pub open spec fn array_or_empty<T: JsonForm>(j: JsonModel, key: Seq<char>) -> Result<
    Seq<T::V>,
    SchemaError,
> {
    match j.get(key) {
        Some(x) => decode_array::<T>(x),
        None => Ok(Seq::empty()),
    }
}

/// The value of a member that an object may leave out, or hold as `null`.
pub open spec fn optional<T: JsonForm>(j: JsonModel, key: Seq<char>) -> Result<
    Option<T::V>,
    SchemaError,
> {
    match j.get(key) {
        None => Ok(None),
        Some(JsonModel::Null) => Ok(None),
        Some(x) => match T::decode(x) {
            Ok(value) => Ok(Some(value)),
            Err(e) => Err(e),
        },
    }
}

/// The content of a value that may be missing.
pub open spec fn option_view<T: View>(value: Option<T>) -> Option<T::V> {
    match value {
        Some(v) => Some(v@),
        None => None,
    }
}

/// Reads a member that an object must have.
pub fn field<T: JsonForm>(j: &Json, key: &str) -> (r: Result<T, SchemaError>)
    ensures
        match r {
            Ok(value) => required::<T>(j@, key@) == Ok::<T::V, SchemaError>(value@),
            Err(e) => required::<T>(j@, key@) == Err::<T::V, SchemaError>(e),
        },
{
    match j.get(key) {
        Some(x) => T::from_json(x),
        None => Err(SchemaError::MissingField),
    }
}

/// Reads a member that an object must have, and that is an array.
pub fn array_field<T: JsonForm>(j: &Json, key: &str) -> (r: Result<Vec<T>, SchemaError>)
    ensures
        match r {
            Ok(values) => required_array::<T>(j@, key@) == Ok::<Seq<T::V>, SchemaError>(
                views(values@),
            ),
            Err(e) => required_array::<T>(j@, key@) == Err::<Seq<T::V>, SchemaError>(e),
        },
{
    match j.get(key) {
        Some(x) => array_from_json(x),
        None => Err(SchemaError::MissingField),
    }
}

/// Reads a member that is an array, and that an object may leave out.
pub fn array_field_or_empty<T: JsonForm>(j: &Json, key: &str) -> (r: Result<Vec<T>, SchemaError>)
    ensures
        match r {
            Ok(values) => array_or_empty::<T>(j@, key@) == Ok::<Seq<T::V>, SchemaError>(
                views(values@),
            ),
            Err(e) => array_or_empty::<T>(j@, key@) == Err::<Seq<T::V>, SchemaError>(e),
        },
{
    match j.get(key) {
        Some(x) => array_from_json(x),
        None => {
            let values: Vec<T> = Vec::new();
            assert(views(values@) =~= Seq::empty());
            Ok(values)
        },
    }
}

/// Reads a member that an object may leave out, or hold as `null`.
pub fn optional_field<T: JsonForm>(j: &Json, key: &str) -> (r: Result<Option<T>, SchemaError>)
    ensures
        match r {
            Ok(value) => optional::<T>(j@, key@) == Ok::<Option<T::V>, SchemaError>(
                option_view(value),
            ),
            Err(e) => optional::<T>(j@, key@) == Err::<Option<T::V>, SchemaError>(e),
        },
{
    match j.get(key) {
        None => Ok(None),
        Some(Json::Null) => Ok(None),
        Some(x) => match T::from_json(x) {
            Ok(value) => Ok(Some(value)),
            Err(e) => Err(e),
        },
    }
}

/// Whether a string is the given text.
pub(crate) fn is_text(s: &String, text: &str) -> (r: bool)
    ensures
        r == (s@ == text@),
{
    *s == text.to_owned()
}

} // verus!
