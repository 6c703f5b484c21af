//! A parsed JSON document, as the status feeds send it, and the lookups
//! that the checks make in it.

use vstd::prelude::*;
use crate::text::str_eq;

verus! {

/// A JSON value. An object keeps its members in the order it is given them
/// (a feed parsed by serde_json hands them over sorted by name, as its map
/// does); a number keeps its text.
pub enum Json {
    Null,
    Bool(bool),
    Number(String),
    Str(String),
    Array(Vec<Json>),
    Object(Vec<(String, Json)>),
}

/// The value of the first member named `key`, if any.
pub open spec fn member(entries: Seq<(String, Json)>, key: Seq<char>) -> Option<Json>
    decreases entries.len(),
{
    if entries.len() == 0 {
        None
    } else if entries[0].0@ == key {
        Some(entries[0].1)
    } else {
        member(entries.drop_first(), key)
    }
}

/// The member `key` of an object; nothing for any other value.
pub open spec fn field(j: Json, key: Seq<char>) -> Option<Json> {
    match j {
        Json::Object(entries) => member(entries@, key),
        _ => None,
    }
}

/// The text of a string value; nothing for any other value.
pub open spec fn text_of(j: Json) -> Option<Seq<char>> {
    match j {
        Json::Str(s) => Some(s@),
        _ => None,
    }
}

/// The text of the member `key` when it is a string.
pub open spec fn str_field(j: Json, key: Seq<char>) -> Option<Seq<char>> {
    match field(j, key) {
        Some(v) => text_of(v),
        None => None,
    }
}

/// The elements of the member `key` when it is an array.
pub open spec fn array_field(j: Json, key: Seq<char>) -> Option<Seq<Json>> {
    match field(j, key) {
        Some(Json::Array(items)) => Some(items@),
        _ => None,
    }
}

/// The members of the member `key` when it is an object.
pub open spec fn object_field(j: Json, key: Seq<char>) -> Option<Seq<(String, Json)>> {
    match field(j, key) {
        Some(Json::Object(entries)) => Some(entries@),
        _ => None,
    }
}

/// A lookup finds the first member of that name, and finds nothing exactly
/// when no member has that name.
pub proof fn lemma_member(entries: Seq<(String, Json)>, key: Seq<char>)
    ensures
        member(entries, key) is None <==> forall|i: int| 0 <= i < entries.len() ==> (#[trigger] entries[i]).0@ != key,
        member(entries, key) matches Some(v) ==> exists|i: int| 0 <= i < entries.len() && (#[trigger] entries[i]).0@ == key
            && entries[i].1 == v && forall|j: int| 0 <= j < i ==> (#[trigger] entries[j]).0@ != key,
    decreases entries.len(),
{
    if entries.len() > 0 {
        let rest = entries.drop_first();
        lemma_member(rest, key);
        if entries[0].0@ == key {
            assert(entries[0].0@ == key && forall|j: int| 0 <= j < 0 ==> (#[trigger] entries[j]).0@ != key);
        } else {
            assert forall|i: int| 1 <= i < entries.len() implies (#[trigger] entries[i]).0@ == rest[i - 1].0@ by {}
            if member(entries, key) is None {
                assert forall|i: int| 0 <= i < entries.len() implies (#[trigger] entries[i]).0@ != key by {
                    if i > 0 {
                        assert(entries[i] == rest[i - 1]);
                    }
                }
            } else {
                let i = choose|i: int| 0 <= i < rest.len() && (#[trigger] rest[i]).0@ == key && rest[i].1 == member(entries, key)->0
                    && forall|j: int| 0 <= j < i ==> (#[trigger] rest[j]).0@ != key;
                assert(entries[i + 1] == rest[i]);
                assert forall|j: int| 0 <= j < i + 1 implies (#[trigger] entries[j]).0@ != key by {
                    if j > 0 {
                        assert(entries[j] == rest[j - 1]);
                    }
                }
            }
            if forall|i: int| 0 <= i < entries.len() ==> (#[trigger] entries[i]).0@ != key {
                assert forall|i: int| 0 <= i < rest.len() implies (#[trigger] rest[i]).0@ != key by {
                    assert(rest[i] == entries[i + 1]);
                }
            }
        }
    }
}

impl Json {
    /// The member `key` of an object (the first one, should the name repeat).
    pub fn get(&self, key: &str) -> (r: Option<&Json>)
        ensures
            r is Some == field(*self, key@) is Some,
            r is Some ==> *r->0 == field(*self, key@)->0,
    {
        match self {
            Json::Object(entries) => {
                let n = entries.len();
                let mut i: usize = 0;
                assert(entries@.skip(0) =~= entries@);
                while i < n
                    invariant
                        n == entries@.len(),
                        i <= n,
                        field(*self, key@) == member(entries@, key@),
                        member(entries@, key@) == member(entries@.skip(i as int), key@),
                    decreases n - i,
                {
                    let ghost rest = entries@.skip(i as int);
                    assert(rest[0] == entries@[i as int]);
                    if str_eq(entries[i].0.as_str(), key) {
                        assert(member(rest, key@) == Some(rest[0].1));
                        return Some(&entries[i].1);
                    }
                    assert(rest.drop_first() =~= entries@.skip(i + 1));
                    i = i + 1;
                }
                None
            },
            _ => None,
        }
    }

    /// The text of a string value.
    pub fn as_str(&self) -> (r: Option<&str>)
        ensures
            r is Some == text_of(*self) is Some,
            r is Some ==> r->0@ == text_of(*self)->0,
    {
        match self {
            Json::Str(s) => Some(s.as_str()),
            _ => None,
        }
    }

    /// The elements of an array value.
    pub fn as_array(&self) -> (r: Option<&Vec<Json>>)
        ensures
            r is Some == (*self is Array),
            r is Some ==> r->0@ == self->Array_0@,
    {
        match self {
            Json::Array(items) => Some(items),
            _ => None,
        }
    }

    /// The members of an object value.
    pub fn as_object(&self) -> (r: Option<&Vec<(String, Json)>>)
        ensures
            r is Some == (*self is Object),
            r is Some ==> r->0@ == self->Object_0@,
    {
        match self {
            Json::Object(entries) => Some(entries),
            _ => None,
        }
    }
}

} // verus!
