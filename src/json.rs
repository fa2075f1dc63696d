use vstd::prelude::*;

use crate::text::str_equals;

verus! {

/// A JSON value as a tree. Objects keep their members in order; a key that
/// occurs twice is read from its first occurrence.
#[derive(Debug, PartialEq)]
pub enum Json {
    Null,
    Bool(bool),
    /// A number, kept as the text it was written with.
    Number(String),
    Str(String),
    Arr(Vec<Json>),
    Obj(Vec<(String, Json)>),
}

/// The value of the first member of `fields` whose key is `key`.
pub open spec fn lookup(fields: Seq<(String, Json)>, key: Seq<char>) -> Option<Json>
    decreases fields.len(),
{
    if fields.len() == 0 {
        None
    } else if fields[0].0@ == key {
        Some(fields[0].1)
    } else {
        lookup(fields.drop_first(), key)
    }
}

/// The members of an object, if `j` is one.
pub open spec fn members(j: Json) -> Option<Seq<(String, Json)>> {
    match j {
        Json::Obj(fs) => Some(fs@),
        _ => None,
    }
}

/// The member `key` of `j`, when `j` is an object that has one.
pub open spec fn member(j: Json, key: Seq<char>) -> Option<Json> {
    match j {
        Json::Obj(fs) => lookup(fs@, key),
        _ => None,
    }
}

/// The characters of `j`, when it is a string.
pub open spec fn string_value(j: Option<Json>) -> Option<Seq<char>> {
    match j {
        Some(Json::Str(s)) => Some(s@),
        _ => None,
    }
}

/// The member `key` of `j` read as a string.
pub open spec fn string_member(j: Json, key: Seq<char>) -> Option<Seq<char>> {
    string_value(member(j, key))
}

/// The keys of an object's members, in order.
pub open spec fn keys(fields: Seq<(String, Json)>) -> Seq<Seq<char>> {
    fields.map_values(|f: (String, Json)| f.0@)
}

/// A member found at `i`, with no earlier member of the same key, is the one
/// that `lookup` gives.
pub proof fn lemma_lookup_at(fields: Seq<(String, Json)>, key: Seq<char>, i: int)
    requires
        0 <= i < fields.len(),
        fields[i].0@ == key,
        forall|j: int| 0 <= j < i ==> fields[j].0@ != key,
    ensures
        lookup(fields, key) == Some(fields[i].1),
    decreases i,
{
    if i > 0 {
        lemma_lookup_at(fields.drop_first(), key, i - 1);
    }
}

/// Finds the first member of `fields` whose key is `key`.
pub fn find_member(fields: &Vec<(String, Json)>, key: &str) -> (r: Option<usize>)
    ensures
        match r {
            Some(i) => i < fields@.len() && lookup(fields@, key@) == Some(fields@[i as int].1),
            None => lookup(fields@, key@) is None,
        },
{
    let mut i: usize = 0;
    assert(fields@.subrange(0, fields@.len() as int) =~= fields@);
    while i < fields.len()
        invariant
            i <= fields@.len(),
            lookup(fields@, key@) == lookup(fields@.subrange(i as int, fields@.len() as int), key@),
        decreases fields@.len() - i,
    {
        let rest = Ghost(fields@.subrange(i as int, fields@.len() as int));
        assert(rest@.drop_first() =~= fields@.subrange(i + 1, fields@.len() as int));
        if str_equals(fields[i].0.as_str(), key) {
            return Some(i);
        }
        i += 1;
    }
    None
}

impl Json {
    /// The member `key` of this value, when it is an object that has one.
    pub fn get(&self, key: &str) -> (r: Option<&Json>)
        ensures
            match r {
                Some(v) => member(*self, key@) == Some(*v),
                None => member(*self, key@) is None,
            },
    {
        match self {
            Json::Obj(fs) => match find_member(fs, key) {
                Some(i) => Some(&fs[i].1),
                None => None,
            },
            _ => None,
        }
    }

    /// A copy of this value's text, when it is a string.
    pub fn as_string(&self) -> (r: Option<String>)
        ensures
            match r {
                Some(s) => string_value(Some(*self)) == Some(s@),
                None => string_value(Some(*self)) is None,
            },
    {
        match self {
            Json::Str(s) => Some(s.clone()),
            _ => None,
        }
    }

    /// A string value holding `s`.
    pub fn string(s: &str) -> (r: Json)
        ensures
            string_value(Some(r)) == Some(s@),
    {
        Json::Str(String::from_str(s))
    }
}

} // verus!
