//! The JSON tree carried by requests and responses, as `strason::Json` holds it.
use vstd::prelude::*;
use crate::number::int_text;

verus! {

/// What a `strason::Json` value holds: numbers stay in their textual form.
pub enum JsonTree {
    Null,
    Bool(bool),
    Number(Seq<char>),
    Str(Seq<char>),
    Array(Seq<JsonTree>),
    Object(Seq<(Seq<char>, JsonTree)>),
}

#[verifier::external_type_specification]
#[verifier::external_body]
pub struct ExJson(strason::Json);

/// The tree that a `strason::Json` value holds.
pub uninterp spec fn json_tree(j: strason::Json) -> JsonTree;

/// The members of an object, as `strason` stores them: key and value, in order.
pub open spec fn members_of(v: Seq<(String, strason::Json)>) -> Seq<(Seq<char>, JsonTree)> {
    v.map_values(|p: (String, strason::Json)| (p.0@, json_tree(p.1)))
}

/// The value under the first member named `key`, as `Json::get` finds it.
pub open spec fn first_member(m: Seq<(Seq<char>, JsonTree)>, key: Seq<char>) -> Option<JsonTree>
    decreases m.len(),
{
    if m.len() == 0 {
        None
    } else if m[0].0 == key {
        Some(m[0].1)
    } else {
        first_member(m.skip(1), key)
    }
}

/// The value under `key`, where `t` is an object that has such a member.
pub open spec fn lookup(t: JsonTree, key: Seq<char>) -> Option<JsonTree> {
    match t {
        JsonTree::Object(m) => first_member(m, key),
        _ => None,
    }
}

/// Relies on `impl From<String> for strason::Json`: a string node with those characters.
#[verifier::external_body]
pub(crate) fn json_string(s: String) -> (r: strason::Json)
    ensures
        json_tree(r) == JsonTree::Str(s@),
{
    strason::Json::from(s)
}

/// Relies on `impl From<i64> for strason::Json`: a number node holding the decimal text
/// that `format!("{}", n)` gives.
#[verifier::external_body]
pub(crate) fn json_i64(n: i64) -> (r: strason::Json)
    ensures
        json_tree(r) == JsonTree::Number(int_text(n as int)),
{
    strason::Json::from(n)
}

/// Relies on `impl From<Vec<(String, Json)>> for strason::Json`: an object with these
/// members, in this order.
#[verifier::external_body]
pub(crate) fn json_object(v: Vec<(String, strason::Json)>) -> (r: strason::Json)
    ensures
        json_tree(r) == JsonTree::Object(members_of(v@)),
{
    strason::Json::from(v)
}

/// Relies on the derived `Clone` of `strason::Json`: the copy holds the same tree.
pub assume_specification[ <strason::Json as Clone>::clone ](j: &strason::Json) -> (r: strason::Json)
    ensures
        json_tree(r) == json_tree(*j),
;

/// Relies on `strason::Json::null`: `Some` exactly on a null.
#[verifier::external_body]
pub(crate) fn json_as_null(j: &strason::Json) -> (r: Option<()>)
    ensures
        r is Some <==> json_tree(*j) == JsonTree::Null,
{
    j.null()
}

/// Relies on `strason::Json::string`: the characters of a string node, `None` on any other.
#[verifier::external_body]
pub(crate) fn json_as_str(j: &strason::Json) -> (r: Option<&str>)
    ensures
        match json_tree(*j) {
            JsonTree::Str(s) => r is Some && r->0@ == s,
            _ => r is None,
        },
{
    j.string()
}

/// Relies on `strason::Json::num`: the text of a number node, `None` on any other.
#[verifier::external_body]
pub(crate) fn json_as_num(j: &strason::Json) -> (r: Option<&str>)
    ensures
        match json_tree(*j) {
            JsonTree::Number(s) => r is Some && r->0@ == s,
            _ => r is None,
        },
{
    j.num()
}

/// Relies on `strason::Json::array`: the elements of an array node, `None` on any other.
#[verifier::external_body]
pub(crate) fn json_as_array(j: &strason::Json) -> (r: Option<&[strason::Json]>)
    ensures
        match json_tree(*j) {
            JsonTree::Array(items) => r is Some && r->0@.map_values(|e: strason::Json| json_tree(e))
                == items,
            _ => r is None,
        },
{
    j.array()
}

/// Relies on `strason::Json::object`: the members of an object node, `None` on any other.
#[verifier::external_body]
pub(crate) fn json_as_object(j: &strason::Json) -> (r: Option<&[(String, strason::Json)]>)
    ensures
        match json_tree(*j) {
            JsonTree::Object(m) => r is Some && members_of(r->0@) == m,
            _ => r is None,
        },
{
    j.object()
}

/// Relies on `strason::Json::get`: the value of the first member named `key`.
#[verifier::external_body]
pub(crate) fn json_get<'a>(j: &'a strason::Json, key: &str) -> (r: Option<&'a strason::Json>)
    ensures
        match lookup(json_tree(*j), key@) {
            Some(t) => r is Some && json_tree(*r->0) == t,
            None => r is None,
        },
{
    j.get(key)
}

} // verus!
