//! The JSON text of a document, read and written by `serde_json`.
//!
//! `serde_json` reads a text into a `Value` and writes a `Value` as text.
//! What it does is taken on trust here, and named: `parsed` is what it
//! reads from given bytes, `printed` what it writes for a given document.
//! The way between a `Value` and a [`Json`] is verified, one level at a
//! time.

use crate::json::{distinct_keys, Json, JsonModel};
use serde_json::{Error, Number, Value};
use vstd::prelude::*;

verus! {

/// `serde_json::Value`, a JSON document as `serde_json` holds it.
#[verifier::external_type_specification]
#[verifier::external_body]
pub struct ExValue(Value);

/// `serde_json::Number`, the number in a `Value`.
#[verifier::external_type_specification]
#[verifier::external_body]
pub struct ExNumber(Number);

/// `serde_json::Map`, the members of an object in a `Value`. Built with
/// `preserve_order`, it keeps them in the order in which they were put
/// in.
#[verifier::external_type_specification]
#[verifier::external_body]
#[verifier::reject_recursive_types(K)]
#[verifier::reject_recursive_types(V)]
pub struct ExMap<K, V>(serde_json::Map<K, V>);

/// `serde_json::Error`, what the reader or the writer reports.
#[verifier::external_type_specification]
#[verifier::external_body]
pub struct ExError(Error);

/// The document that a `serde_json::Value` holds.
pub uninterp spec fn value_model(v: Value) -> JsonModel;

/// The integer that a `serde_json::Number` holds, or `None` where it holds
/// a number that is no integer.
pub uninterp spec fn number_model(n: Number) -> Option<int>;

/// The members that a `serde_json::Map` holds, in its order.
pub uninterp spec fn map_model(m: serde_json::Map<String, Value>) -> Seq<(Seq<char>, JsonModel)>;

/// The document that `serde_json::from_slice` reads from `bytes`, or
/// `None` where it reports an error.
pub uninterp spec fn parsed(bytes: Seq<u8>) -> Option<JsonModel>;

/// The bytes that `serde_json::to_vec_pretty` writes for `doc`, or `None`
/// where it reports an error.
pub uninterp spec fn printed(doc: JsonModel) -> Option<Seq<u8>>;

/// The top level of a `serde_json::Value`, with what lies below it still
/// unopened.
enum Node {
    Null,
    Bool(bool),
    Numeral(Number),
    Text(String),
    Array(Vec<Value>),
    Object(serde_json::Map<String, Value>),
}

impl Node {
    /// The document that the node stands for.
    spec fn model(self) -> JsonModel {
        match self {
            Node::Null => JsonModel::Null,
            Node::Bool(b) => JsonModel::Bool(b),
            Node::Numeral(n) => match number_model(n) {
                Some(i) => JsonModel::Int(i),
                None => JsonModel::Real,
            },
            Node::Text(s) => JsonModel::Text(s@),
            Node::Array(items) => JsonModel::Array(items@.map_values(|v: Value| value_model(v))),
            Node::Object(members) => JsonModel::Object(map_model(members)),
        }
    }
}

/// The members that a row of keys and values stands for.
spec fn entries_model(entries: Seq<(String, Value)>) -> Seq<(Seq<char>, JsonModel)> {
    entries.map_values(|e: (String, Value)| (e.0@, value_model(e.1)))
}

/// `serde_json::from_slice`, reading a `Value`: the result is the one
/// document that the bytes denote, or an error where they denote none.
#[verifier::external_body]
fn read_value(bytes: &[u8]) -> (r: Result<Value, Error>)
    ensures
        match r {
            Ok(v) => parsed(bytes@) == Some(value_model(v)),
            Err(_) => parsed(bytes@) is None,
        },
{
    serde_json::from_slice(bytes)
}

/// `serde_json::to_vec_pretty` on a `Value` that holds no number with a
/// fraction: the result depends on the document alone.
#[verifier::external_body]
fn write_value(v: &Value) -> (r: Result<Vec<u8>, Error>)
    requires
        value_model(*v).printable(),
    ensures
        match r {
            Ok(bytes) => printed(value_model(*v)) == Some(bytes@),
            Err(_) => printed(value_model(*v)) is None,
        },
{
    serde_json::to_vec_pretty(v)
}

/// Takes a `serde_json::Value` apart by its variant: what comes out stands
/// for the same document.
#[verifier::external_body]
fn unpack(v: Value) -> (n: Node)
    ensures
        n.model() == value_model(v),
{
    match v {
        Value::Null => Node::Null,
        Value::Bool(b) => Node::Bool(b),
        Value::Number(n) => Node::Numeral(n),
        Value::String(s) => Node::Text(s),
        Value::Array(items) => Node::Array(items),
        Value::Object(members) => Node::Object(members),
    }
}

/// Builds the `serde_json::Value` of the matching variant: it holds the
/// document that the node stands for.
#[verifier::external_body]
fn pack(n: Node) -> (v: Value)
    ensures
        value_model(v) == n.model(),
{
    match n {
        Node::Null => Value::Null,
        Node::Bool(b) => Value::Bool(b),
        Node::Numeral(n) => Value::Number(n),
        Node::Text(s) => Value::String(s),
        Node::Array(items) => Value::Array(items),
        Node::Object(members) => Value::Object(members),
    }
}

/// `Number::as_i128`: the integer that the number holds, if it holds one.
pub assume_specification[ Number::as_i128 ](n: &Number) -> (r: Option<i128>)
    ensures
        match r {
            Some(i) => number_model(*n) == Some(i as int),
            None => number_model(*n) is None,
        },
;

/// `Number::from_i128`: the number that holds the integer, which there is
/// for the integers from `i64::MIN` to `u64::MAX` and for no other.
pub assume_specification[ Number::from_i128 ](i: i128) -> (r: Option<Number>)
    ensures
        r is Some <==> i64::MIN <= i <= u64::MAX,
        match r {
            Some(n) => number_model(n) == Some(i as int),
            None => true,
        },
;

/// The members of a `serde_json::Map`, handed out in the map's order by
/// its `into_iter`.
#[verifier::external_body]
fn entries_of(m: serde_json::Map<String, Value>) -> (entries: Vec<(String, Value)>)
    ensures
        entries_model(entries@) == map_model(m),
{
    m.into_iter().collect()
}

/// Collects keys and values into a `serde_json::Map`, through its
/// `from_iter`. Built with `preserve_order`, the map holds them in the
/// order given where the keys all differ.
#[verifier::external_body]
fn map_of(entries: Vec<(String, Value)>) -> (m: serde_json::Map<String, Value>)
    ensures
        distinct_keys(entries_model(entries@)) ==> map_model(m) == entries_model(entries@),
{
    entries.into_iter().collect()
}

/// Opens a `Value` all the way down.
fn lift(v: Value) -> (j: Json)
    ensures
        j@ == value_model(v),
    decreases value_model(v),
{
    match unpack(v) {
        Node::Null => Json::Null,
        Node::Bool(b) => Json::Bool(b),
        Node::Numeral(n) => match n.as_i128() {
            Some(i) => Json::Int(i),
            None => Json::Real,
        },
        Node::Text(s) => Json::Text(s),
        Node::Array(items) => {
            let ghost below = items@;
            let mut out: Vec<Json> = Vec::new();
            for item in it: items
                invariant
                    it.seq() == below,
                    value_model(v) == JsonModel::Array(below.map_values(|x: Value| value_model(x))),
                    out@.len() == it.index(),
                    forall|k: int| 0 <= k < out@.len() ==> out@[k]@ == value_model(below[k]),
            {
                assert(value_model(v)->Array_0[it.index() as int] == value_model(item));
                out.push(lift(item));
            }
            assert(out@.len() == below.len());
            let j = Json::Array(out);
            assert(j@->Array_0 =~= value_model(v)->Array_0);
            j
        },
        Node::Object(members) => {
            let entries = entries_of(members);
            let ghost below = entries@;
            let mut out: Vec<(String, Json)> = Vec::new();
            for entry in it: entries
                invariant
                    it.seq() == below,
                    value_model(v) == JsonModel::Object(entries_model(below)),
                    out@.len() == it.index(),
                    forall|k: int|
                        0 <= k < out@.len() ==> out@[k].0@ == below[k].0@ && out@[k].1@
                            == value_model(below[k].1),
            {
                let (key, value) = entry;
                assert(value_model(v)->Object_0[it.index() as int].1 == value_model(value));
                out.push((key, lift(value)));
            }
            assert(out@.len() == below.len());
            let j = Json::Object(out);
            assert(j@->Object_0 =~= value_model(v)->Object_0);
            j
        },
    }
}

/// Whether the keys of `members` all differ.
fn keys_differ(members: &Vec<(String, Json)>) -> (r: bool)
    ensures
        r == (forall|i: int, j: int|
            0 <= i < j < members@.len() ==> (#[trigger] members@[i]).0@ != (
            #[trigger] members@[j]).0@),
{
    for b in 0..members.len()
        invariant
            forall|i: int, j: int|
                0 <= i < j < b ==> (#[trigger] members@[i]).0@ != (#[trigger] members@[j]).0@,
    {
        for a in 0..b
            invariant
                b < members@.len(),
                forall|i: int| 0 <= i < a ==> (#[trigger] members@[i]).0@ != members@[b as int].0@,
        {
            if members[a].0 == members[b].0 {
                return false;
            }
        }
    }
    true
}

/// Builds the `Value` that holds the document of `j`, where there is one.
fn lower(j: &Json) -> (r: Option<Value>)
    ensures
        match r {
            Some(v) => j@.printable() && value_model(v) == j@,
            None => !j@.printable(),
        },
    decreases j,
{
    match j {
        Json::Null => Some(pack(Node::Null)),
        Json::Bool(b) => Some(pack(Node::Bool(*b))),
        Json::Int(i) => match Number::from_i128(*i) {
            Some(n) => Some(pack(Node::Numeral(n))),
            None => None,
        },
        Json::Real => None,
        Json::Text(s) => Some(pack(Node::Text(s.clone()))),
        Json::Array(items) => {
            let mut below: Vec<Value> = Vec::new();
            for k in 0..items.len()
                invariant
                    *j == Json::Array(*items),
                    below@.len() == k,
                    forall|n: int|
                        0 <= n < k ==> (#[trigger] items@[n])@.printable() && value_model(
                            below@[n],
                        ) == items@[n]@,
            {
                assert(j@->Array_0[k as int] == items@[k as int]@);
                match lower(&items[k]) {
                    Some(v) => below.push(v),
                    None => {
                        return None;
                    },
                }
            }
            let node = Node::Array(below);
            assert(node.model()->Array_0 =~= j@->Array_0);
            assert forall|n: int| 0 <= n < j@->Array_0.len() implies (
            #[trigger] j@->Array_0[n]).printable() by {
                assert(items@[n]@.printable());
            }
            Some(pack(node))
        },
        Json::Object(members) => {
            if !keys_differ(members) {
                assert(!distinct_keys(j@->Object_0)) by {
                    if distinct_keys(j@->Object_0) {
                        assert forall|a: int, b: int| 0 <= a < b < members@.len() implies (
                        #[trigger] members@[a]).0@ != (#[trigger] members@[b]).0@ by {
                            assert(j@->Object_0[a].0 == members@[a].0@);
                            assert(j@->Object_0[b].0 == members@[b].0@);
                        }
                    }
                }
                return None;
            }
            let mut below: Vec<(String, Value)> = Vec::new();
            for k in 0..members.len()
                invariant
                    *j == Json::Object(*members),
                    below@.len() == k,
                    forall|n: int|
                        0 <= n < k ==> (#[trigger] members@[n]).1@.printable() && below@[n].0@
                            == members@[n].0@ && value_model(below@[n].1) == members@[n].1@,
            {
                assert(j@->Object_0[k as int].1 == members@[k as int].1@);
                match lower(&members[k].1) {
                    Some(v) => below.push((members[k].0.clone(), v)),
                    None => {
                        return None;
                    },
                }
            }
            assert(entries_model(below@) =~= j@->Object_0);
            assert(distinct_keys(j@->Object_0)) by {
                assert forall|a: int, b: int| 0 <= a < b < j@->Object_0.len() implies (
                #[trigger] j@->Object_0[a]).0 != (#[trigger] j@->Object_0[b]).0 by {
                    assert(j@->Object_0[a].0 == members@[a].0@);
                    assert(j@->Object_0[b].0 == members@[b].0@);
                }
            }
            assert forall|n: int| 0 <= n < j@->Object_0.len() implies (
            #[trigger] j@->Object_0[n]).1.printable() by {
                assert(members@[n].1@.printable());
            }
            Some(pack(Node::Object(map_of(below))))
        },
    }
}

/// Reads a JSON text.
///
/// The result is the document that the text denotes, as `parsed` names
/// it; a text that denotes none gives the reader's error.
pub fn parse(bytes: &[u8]) -> (r: Result<Json, Error>)
    ensures
        match r {
            Ok(j) => parsed(bytes@) == Some(j@),
            Err(_) => parsed(bytes@) is None,
        },
{
    match read_value(bytes) {
        Ok(v) => Ok(lift(v)),
        Err(e) => Err(e),
    }
}

/// Why a document could not be written.
#[derive(Debug)]
pub enum PrintError {
    /// The document holds a number that is no integer of the range that
    /// JSON writers support, or an object that repeats a key.
    Unprintable,
    /// The writer reported an error.
    Encoder(Error),
}

/// Writes a document as indented JSON text.
///
/// A printable document gives the text that `printed` names for it, or
/// the writer's error where it names none; any other document is refused.
pub fn print(j: &Json) -> (r: Result<Vec<u8>, PrintError>)
    ensures
        match r {
            Ok(bytes) => j@.printable() && printed(j@) == Some(bytes@),
            Err(PrintError::Unprintable) => !j@.printable(),
            Err(PrintError::Encoder(_)) => j@.printable() && printed(j@) is None,
        },
{
    match lower(j) {
        Some(v) => match write_value(&v) {
            Ok(bytes) => Ok(bytes),
            Err(e) => Err(PrintError::Encoder(e)),
        },
        None => Err(PrintError::Unprintable),
    }
}

} // verus!
