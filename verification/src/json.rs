//! JSON documents as trees.

use vstd::prelude::*;

verus! {

/// The mathematical content of a JSON document.
///
/// An integer is held exactly. Of any other number only its being one is
/// recorded, as `Real`: the schema has no place for such a number. The
/// members of an object keep the order in which they were written.
pub enum JsonModel {
    Null,
    Bool(bool),
    Int(int),
    Real,
    Text(Seq<char>),
    Array(Seq<JsonModel>),
    Object(Seq<(Seq<char>, JsonModel)>),
}

/// A JSON document held in memory.
#[derive(Debug, PartialEq, Eq)]
pub enum Json {
    Null,
    Bool(bool),
    Int(i128),
    Real,
    Text(String),
    Array(Vec<Json>),
    Object(Vec<(String, Json)>),
}

/// The document that a `Json` value holds.
pub open spec fn model_of(j: Json) -> JsonModel
    decreases j,
{
    match j {
        Json::Null => JsonModel::Null,
        Json::Bool(b) => JsonModel::Bool(b),
        Json::Int(i) => JsonModel::Int(i as int),
        Json::Real => JsonModel::Real,
        Json::Text(s) => JsonModel::Text(s@),
        Json::Array(items) => JsonModel::Array(
            Seq::new(
                items@.len(),
                |i: int|
                    if 0 <= i < items@.len() {
                        model_of(items@[i])
                    } else {
                        JsonModel::Null
                    },
            ),
        ),
        Json::Object(members) => JsonModel::Object(
            Seq::new(
                members@.len(),
                |i: int|
                    if 0 <= i < members@.len() {
                        (members@[i].0@, model_of(members@[i].1))
                    } else {
                        (Seq::empty(), JsonModel::Null)
                    },
            ),
        ),
    }
}

impl View for Json {
    type V = JsonModel;

    open spec fn view(&self) -> JsonModel {
        model_of(*self)
    }
}

/// Whether `i` is the place of the first member with the key `key`.
pub open spec fn is_first_with_key(
    members: Seq<(Seq<char>, JsonModel)>,
    key: Seq<char>,
    i: int,
) -> bool {
    &&& 0 <= i < members.len()
    &&& members[i].0 == key
    &&& forall|j: int| 0 <= j < i ==> (#[trigger] members[j]).0 != key
}

/// The value of the first member with the key `key`, if there is one.
pub open spec fn member(members: Seq<(Seq<char>, JsonModel)>, key: Seq<char>) -> Option<
    JsonModel,
> {
    if exists|i: int| is_first_with_key(members, key, i) {
        Some(members[choose|i: int| is_first_with_key(members, key, i)].1)
    } else {
        None
    }
}

/// The first member with a key is the one that `member` finds.
pub proof fn lemma_member_found(members: Seq<(Seq<char>, JsonModel)>, key: Seq<char>, i: int)
    requires
        is_first_with_key(members, key, i),
    ensures
        member(members, key) == Some(members[i].1),
{
    let c = choose|c: int| is_first_with_key(members, key, c);
    assert(c == i) by {
        if c < i {
            assert(members[c].0 != key);
        }
        if i < c {
            assert(members[i].0 != key);
        }
    }
}

/// Where no member has the key, `member` finds none.
pub proof fn lemma_member_absent(members: Seq<(Seq<char>, JsonModel)>, key: Seq<char>)
    requires
        forall|j: int| 0 <= j < members.len() ==> (#[trigger] members[j]).0 != key,
    ensures
        member(members, key) is None,
{
}

/// Whether no two members of an object share a key.
pub open spec fn distinct_keys(members: Seq<(Seq<char>, JsonModel)>) -> bool {
    forall|i: int, j: int|
        0 <= i < j < members.len() ==> (#[trigger] members[i]).0 != (#[trigger] members[j]).0
}

impl JsonModel {
    /// The value under `key` where the document is an object that has such
    /// a member: of several, the first.
    pub open spec fn get(self, key: Seq<char>) -> Option<JsonModel> {
        match self {
            JsonModel::Object(members) => member(members, key),
            _ => None,
        }
    }

    /// Whether the document can be written down without loss: every number
    /// is an integer in the range that JSON writers support, and no object
    /// repeats a key.
    pub open spec fn printable(self) -> bool
        decreases self,
    {
        match self {
            JsonModel::Int(i) => i64::MIN <= i <= u64::MAX,
            JsonModel::Real => false,
            JsonModel::Array(items) => forall|i: int|
                0 <= i < items.len() ==> (#[trigger] items[i]).printable(),
            JsonModel::Object(members) => {
                &&& distinct_keys(members)
                &&& forall|i: int|
                    0 <= i < members.len() ==> (#[trigger] members[i]).1.printable()
            },
            _ => true,
        }
    }
}

impl Json {
    /// Looks up a member of an object by its key.
    pub fn get(&self, key: &str) -> (r: Option<&Json>)
        ensures
            match r {
                Some(value) => self@.get(key@) == Some(value@),
                None => self@.get(key@) is None,
            },
    {
        match self {
            Json::Object(members) => {
                let wanted = key.to_owned();
                for i in 0..members.len()
                    invariant
                        *self == Json::Object(*members),
                        wanted@ == key@,
                        forall|j: int| 0 <= j < i ==> (#[trigger] members@[j]).0@ != key@,
                {
                    if members[i].0 == wanted {
                        proof {
                            let ms = self@->Object_0;
                            assert forall|j: int| 0 <= j < i implies (#[trigger] ms[j]).0
                                != key@ by {
                                assert(ms[j].0 == members@[j].0@);
                            }
                            lemma_member_found(ms, key@, i as int);
                        }
                        return Some(&members[i].1);
                    }
                }
                proof {
                    let ms = self@->Object_0;
                    assert forall|j: int| 0 <= j < ms.len() implies (#[trigger] ms[j]).0
                        != key@ by {
                        assert(ms[j].0 == members@[j].0@);
                    }
                    lemma_member_absent(ms, key@);
                }
                None
            },
            _ => None,
        }
    }
}

} // verus!
