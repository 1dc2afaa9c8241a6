//! A JSON tree held as plain values, and the lookups that the response parser makes.
use vstd::prelude::*;

verus! {

/// A JSON value. An object keeps its members in order, each key at most once.
pub enum Json {
    Null,
    Bool(bool),
    /// A number, in its textual form.
    Number(String),
    Str(String),
    Array(Vec<Json>),
    Object(Vec<(String, Json)>),
}

/// The value of the first member named `key` at or after position `i`.
pub open spec fn member_from(fields: Seq<(String, Json)>, key: Seq<char>, i: int) -> Option<Json>
    decreases fields.len() - i,
{
    if i < 0 || i >= fields.len() {
        None
    } else if fields[i].0@ == key {
        Some(fields[i].1)
    } else {
        member_from(fields, key, i + 1)
    }
}

/// The value of the first member named `key`.
pub open spec fn member(fields: Seq<(String, Json)>, key: Seq<char>) -> Option<Json> {
    member_from(fields, key, 0)
}

/// The member `key` of `j`, where `j` is an object that has it.
pub open spec fn field(j: Json, key: Seq<char>) -> Option<Json> {
    match j {
        Json::Object(fields) => member(fields@, key),
        _ => None,
    }
}

/// The text of the member `key` of `j`, where it is a string.
pub open spec fn text_field(j: Json, key: Seq<char>) -> Option<Seq<char>> {
    match field(j, key) {
        Some(Json::Str(s)) => Some(s@),
        _ => None,
    }
}

/// The elements of the member `key` of `j`, where it is an array.
pub open spec fn array_field(j: Json, key: Seq<char>) -> Option<Seq<Json>> {
    match field(j, key) {
        Some(Json::Array(items)) => Some(items@),
        _ => None,
    }
}

/// The texts of `items`, where every one of them is a string.
pub open spec fn texts_of(items: Seq<Json>) -> Option<Seq<Seq<char>>>
    decreases items.len(),
{
    if items.len() == 0 {
        Some(Seq::empty())
    } else {
        match (texts_of(items.drop_last()), items.last()) {
            (Some(init), Json::Str(s)) => Some(init.push(s@)),
            _ => None,
        }
    }
}

/// Whether two texts hold the same characters.
pub fn same_text(a: &str, b: &str) -> (r: bool)
    ensures
        r == (a@ == b@),
{
    let n = a.unicode_len();
    if n != b.unicode_len() {
        return false;
    }
    let mut i: usize = 0;
    while i < n
        invariant
            n == a@.len(),
            n == b@.len(),
            i <= n,
            a@.subrange(0, i as int) == b@.subrange(0, i as int),
        decreases n - i,
    {
        if a.get_char(i) != b.get_char(i) {
            return false;
        }
        assert(a@.subrange(0, i + 1) == a@.subrange(0, i as int).push(a@[i as int]));
        assert(b@.subrange(0, i + 1) == b@.subrange(0, i as int).push(b@[i as int]));
        i += 1;
    }
    assert(a@ == a@.subrange(0, n as int));
    assert(b@ == b@.subrange(0, n as int));
    true
}

/// The value of the first member of `fields` named `key`.
pub fn get_member<'a>(fields: &'a Vec<(String, Json)>, key: &str) -> (r: Option<&'a Json>)
    ensures
        r is Some <==> member(fields@, key@) is Some,
        r matches Some(v) ==> member(fields@, key@) == Some(*v),
{
    let mut i: usize = 0;
    while i < fields.len()
        invariant
            i <= fields@.len(),
            member(fields@, key@) == member_from(fields@, key@, i as int),
        decreases fields@.len() - i,
    {
        if same_text(fields[i].0.as_str(), key) {
            return Some(&fields[i].1);
        }
        i += 1;
    }
    None
}

/// The member `key` of `j`, where `j` is an object that has it.
pub fn get_field<'a>(j: &'a Json, key: &str) -> (r: Option<&'a Json>)
    ensures
        r is Some <==> field(*j, key@) is Some,
        r matches Some(v) ==> field(*j, key@) == Some(*v),
{
    match j {
        Json::Object(fields) => get_member(fields, key),
        _ => None,
    }
}

/// The text of the member `key` of `j`, where it is a string.
pub fn get_text_field<'a>(j: &'a Json, key: &str) -> (r: Option<&'a String>)
    ensures
        r is Some <==> text_field(*j, key@) is Some,
        r matches Some(s) ==> text_field(*j, key@) == Some(s@),
{
    match get_field(j, key) {
        Some(Json::Str(s)) => Some(s),
        _ => None,
    }
}

/// The elements of the member `key` of `j`, where it is an array.
pub fn get_array_field<'a>(j: &'a Json, key: &str) -> (r: Option<&'a Vec<Json>>)
    ensures
        r is Some <==> array_field(*j, key@) is Some,
        r matches Some(items) ==> array_field(*j, key@) == Some(items@),
{
    match get_field(j, key) {
        Some(Json::Array(items)) => Some(items),
        _ => None,
    }
}

} // verus!
