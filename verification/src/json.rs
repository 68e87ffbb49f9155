//! A JSON document, as a configuration snapshot holds it, and lookups by dotted path.

use vstd::prelude::*;

use crate::text::str_eq;

verus! {

/// A JSON value.
///
/// An object keeps its members in order; a key occurs in it at most once, as in a parsed
/// document. A number keeps the text it was written with.
#[derive(Debug, PartialEq)]
pub enum JsonValue {
    /// `null`
    Null,
    /// `true` or `false`
    Bool(bool),
    /// A number, as written.
    Number(String),
    /// A string.
    String(String),
    /// An array.
    Array(Vec<JsonValue>),
    /// An object: its members' keys and values.
    Object(Vec<(String, JsonValue)>),
}

/// The value of the first member of `fields` whose key is `key`.
pub open spec fn member(fields: Seq<(String, JsonValue)>, key: Seq<char>) -> Option<JsonValue>
    decreases fields.len(),
{
    if fields.len() == 0 {
        None
    } else if fields[0].0@ == key {
        Some(fields[0].1)
    } else {
        member(fields.drop_first(), key)
    }
}

/// The value reached from `v` by following the member keys of `path` in turn; `None` when a key
/// is missing or a value on the way is not an object.
pub open spec fn value_at(v: JsonValue, path: Seq<Seq<char>>) -> Option<JsonValue>
    decreases path.len(),
{
    if path.len() == 0 {
        Some(v)
    } else {
        match v {
            JsonValue::Object(fields) => match member(fields@, path[0]) {
                Some(child) => value_at(child, path.drop_first()),
                None => None,
            },
            _ => None,
        }
    }
}

/// The boolean at `path`, or `default` when there is none there.
pub open spec fn bool_at(v: JsonValue, path: Seq<Seq<char>>, default: bool) -> bool {
    match value_at(v, path) {
        Some(JsonValue::Bool(b)) => b,
        _ => default,
    }
}

/// The views of a path's keys.
pub open spec fn path_view(path: Seq<&str>) -> Seq<Seq<char>> {
    path.map_values(|k: &str| k@)
}

proof fn lemma_member_step(fields: Seq<(String, JsonValue)>, i: int, key: Seq<char>)
    requires
        0 <= i < fields.len(),
        fields[i].0@ != key,
    ensures
        member(fields.skip(i), key) == member(fields.skip(i + 1), key),
{
    assert(fields.skip(i).drop_first() =~= fields.skip(i + 1));
}

/// Returns the value of the first member of `fields` whose key is `key`.
pub fn find_member<'a>(fields: &'a Vec<(String, JsonValue)>, key: &str) -> (r: Option<&'a JsonValue>)
    ensures
        r matches Some(v) ==> member(fields@, key@) == Some(*v),
        r is None ==> member(fields@, key@) is None,
{
    let mut i: usize = 0;
    assert(fields@.skip(0) =~= fields@);
    while i < fields.len()
        invariant
            i <= fields.len(),
            member(fields@, key@) == member(fields@.skip(i as int), key@),
        decreases fields.len() - i,
    {
        if str_eq(fields[i].0.as_str(), key) {
            assert(fields@.skip(i as int)[0] == fields@[i as int]);
            return Some(&fields[i].1);
        }
        proof {
            lemma_member_step(fields@, i as int, key@);
        }
        i = i + 1;
    }
    None
}

proof fn lemma_value_at_step(v: JsonValue, path: Seq<Seq<char>>, i: int, child: JsonValue)
    requires
        0 <= i < path.len(),
        v matches JsonValue::Object(fields) && member(fields@, path[i]) == Some(child),
    ensures
        value_at(v, path.skip(i)) == value_at(child, path.skip(i + 1)),
{
    assert(path.skip(i)[0] == path[i]);
    assert(path.skip(i).drop_first() =~= path.skip(i + 1));
}

/// Returns the value reached from `v` by following the keys of `path` in turn.
pub fn lookup<'a>(v: &'a JsonValue, path: &Vec<&str>) -> (r: Option<&'a JsonValue>)
    ensures
        r matches Some(x) ==> value_at(*v, path_view(path@)) == Some(*x),
        r is None ==> value_at(*v, path_view(path@)) is None,
{
    let ghost keys = path_view(path@);
    let mut cur: &JsonValue = v;
    let mut i: usize = 0;
    assert(keys.skip(0) =~= keys);
    while i < path.len()
        invariant
            i <= path.len(),
            keys == path_view(path@),
            value_at(*v, keys) == value_at(*cur, keys.skip(i as int)),
        decreases path.len() - i,
    {
        match cur {
            JsonValue::Object(fields) => {
                match find_member(fields, path[i]) {
                    Some(child) => {
                        proof {
                            lemma_value_at_step(*cur, keys, i as int, *child);
                        }
                        cur = child;
                    },
                    None => {
                        assert(keys.skip(i as int)[0] == keys[i as int]);
                        return None;
                    },
                }
            },
            _ => {
                return None;
            },
        }
        i = i + 1;
    }
    assert(keys.skip(i as int) =~= Seq::<Seq<char>>::empty());
    Some(cur)
}

/// Returns the boolean at `path` in `v`, or `default` when there is none there.
pub fn read_bool(v: &JsonValue, path: &Vec<&str>, default: bool) -> (r: bool)
    ensures
        r == bool_at(*v, path_view(path@), default),
{
    match lookup(v, path) {
        Some(JsonValue::Bool(b)) => *b,
        _ => default,
    }
}

} // verus!
