//! A JSON document as plain data, and lookups of object members by key.

use vstd::prelude::*;

verus! {

/// A JSON value. Integers are kept exactly; any other number is kept as
/// its decimal text and passed through uninterpreted.
#[derive(Debug)]
pub enum Json {
    Null,
    Bool(bool),
    Int(i128),
    Decimal(String),
    Str(String),
    Array(Vec<Json>),
    Object(Vec<(String, Json)>),
}

/// The value of the first member of `fields` whose key is `key`.
pub open spec fn lookup(fields: Seq<(String, Json)>, key: Seq<char>) -> Option<Json>
    decreases fields.len(),
{
    if fields.len() == 0 {
        None
    } else if fields[0].0@ == key {
        Some(fields[0].1)
    } else {
        lookup(fields.drop_first(), key)
    }
}

/// The keys of `fields`, in order.
pub open spec fn keys(fields: Seq<(String, Json)>) -> Seq<Seq<char>> {
    fields.map_values(|p: (String, Json)| p.0@)
}

/// `fields` holds a member with key `key` and value `value`.
pub open spec fn has_member(fields: Seq<(String, Json)>, key: Seq<char>, value: Json) -> bool {
    exists|i: int| 0 <= i < fields.len() && fields[i].0@ == key && fields[i].1 == value
}

/// `j` is an array of strings whose contents are `items`.
pub open spec fn is_string_array(j: Json, items: Seq<String>) -> bool {
    match j {
        Json::Array(v) => v@.len() == items.len() && forall|i: int|
            0 <= i < items.len() ==> v@[i] == Json::Str(items[i]),
        _ => false,
    }
}

/// Members whose keys differ from `key` can be inserted anywhere without
/// changing what a lookup of `key` finds.
pub proof fn lemma_lookup_skips(
    a: Seq<(String, Json)>,
    extra: Seq<(String, Json)>,
    b: Seq<(String, Json)>,
    key: Seq<char>,
)
    requires
        forall|i: int| 0 <= i < extra.len() ==> extra[i].0@ != key,
    ensures
        lookup(a + extra + b, key) == lookup(a + b, key),
    decreases a.len() + extra.len(),
{
    if a.len() > 0 {
        assert((a + extra + b).drop_first() =~= a.drop_first() + extra + b);
        assert((a + b).drop_first() =~= a.drop_first() + b);
        lemma_lookup_skips(a.drop_first(), extra, b, key);
    } else if extra.len() > 0 {
        assert(a + extra + b =~= extra + b);
        assert((extra + b).drop_first() =~= a + extra.drop_first() + b);
        lemma_lookup_skips(a, extra.drop_first(), b, key);
    } else {
        assert(a + extra + b =~= a + b);
    }
}

/// Where in `fields` the member that a lookup of `key` finds stands.
pub fn member_index(fields: &Vec<(String, Json)>, key: &str) -> (r: Option<usize>)
    ensures
        match r {
            Some(i) => i < fields@.len() && fields@[i as int].0@ == key@
                && lookup(fields@, key@) == Some(fields@[i as int].1),
            None => lookup(fields@, key@) is None,
        },
{
    let wanted = String::from_str(key);
    let mut i: usize = 0;
    assert(fields@.subrange(0, fields@.len() as int) =~= fields@);
    while i < fields.len()
        invariant
            i <= fields@.len(),
            wanted@ == key@,
            lookup(fields@, key@) == lookup(fields@.subrange(i as int, fields@.len() as int), key@),
        decreases fields.len() - i,
    {
        assert(fields@.subrange(i as int + 1, fields@.len() as int) =~= fields@.subrange(
            i as int,
            fields@.len() as int,
        ).drop_first());
        if fields[i].0 == wanted {
            return Some(i);
        }
        i = i + 1;
    }
    None
}

/// The member of `fields` that a lookup of `key` finds.
pub fn get_member<'a>(fields: &'a Vec<(String, Json)>, key: &str) -> (r: Option<&'a Json>)
    ensures
        match r {
            Some(v) => lookup(fields@, key@) == Some(*v),
            None => lookup(fields@, key@) is None,
        },
{
    match member_index(fields, key) {
        Some(i) => Some(&fields[i].1),
        None => None,
    }
}

/// Takes out the member that a lookup of `key` finds.
pub fn take_member(fields: Vec<(String, Json)>, key: &str) -> (r: Option<Json>)
    ensures
        r == lookup(fields@, key@),
{
    let mut fields = fields;
    match member_index(&fields, key) {
        Some(i) => Some(fields.remove(i).1),
        None => None,
    }
}

/// The key list that an optional member adds: the key when it is set.
pub open spec fn key_if(set: bool, key: Seq<char>) -> Seq<Seq<char>> {
    if set {
        seq![key]
    } else {
        seq![]
    }
}

/// Appends the member `key: value` when a value is given and nothing
/// otherwise: the one place where unset request fields are left out.
pub fn push_present(fields: &mut Vec<(String, Json)>, key: &str, value: Option<Json>)
    ensures
        keys(final(fields)@) == keys(old(fields)@) + key_if(value is Some, key@),
        forall|k: Seq<char>, x: Json|
            #[trigger] has_member(old(fields)@, k, x) ==> has_member(final(fields)@, k, x),
        value matches Some(v) ==> has_member(final(fields)@, key@, v),
{
    match value {
        Some(v) => {
            let ghost before = fields@;
            let ghost x = v;
            fields.push((String::from_str(key), v));
            assert(keys(fields@) =~= keys(before) + key_if(true, key@));
            assert(fields@[before.len() as int].0@ == key@);
            assert(has_member(fields@, key@, x));
            assert forall|k: Seq<char>, y: Json| #[trigger] has_member(before, k, y) implies has_member(
                fields@,
                k,
                y,
            ) by {
                let i = choose|i: int| 0 <= i < before.len() && before[i].0@ == k && before[i].1 == y;
                assert(fields@[i] == before[i]);
            }
        },
        None => {
            assert(keys(fields@) =~= keys(fields@) + key_if(false, key@));
        },
    }
}

/// `fields` holds a member with key `key` whose value is an array of the
/// strings `items`.
pub open spec fn has_strings(fields: Seq<(String, Json)>, key: Seq<char>, items: Seq<String>) -> bool {
    exists|v: Json| has_member(fields, key, v) && is_string_array(v, items)
}

/// A JSON array holding the given strings, in order.
pub fn string_array(items: &Vec<String>) -> (r: Json)
    ensures
        is_string_array(r, items@),
{
    let mut out: Vec<Json> = Vec::new();
    let mut i: usize = 0;
    while i < items.len()
        invariant
            i <= items@.len(),
            out@.len() == i,
            forall|k: int| 0 <= k < i ==> out@[k] == Json::Str(items@[k]),
        decreases items.len() - i,
    {
        out.push(Json::Str(items[i].clone()));
        i = i + 1;
    }
    Json::Array(out)
}

} // verus!
