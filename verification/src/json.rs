//! The JSON tree that the parser walks, and the trusted accessors to it.
//!
//! The raw payload is parsed by serde_json; this library never looks inside
//! a `serde_json::Value` except through the few trusted functions below,
//! each of which states over `value_view` what the accessor it calls
//! plainly does. Everything built on top of them is verified.

use vstd::prelude::*;

verus! {

/// Declared so that values of serde_json's tree type can pass through
/// signatures and fields. The tree is opaque; the accessors below are the
/// only way this library reads it.
#[verifier::external_type_specification]
#[verifier::external_body]
pub struct ExValue(serde_json::Value);

/// Declared so that serde_json's error can be returned by the parse
/// wrapper; the library only maps it to its own error kind.
#[verifier::external_type_specification]
#[verifier::external_body]
pub struct ExError(serde_json::Error);

/// What a JSON tree holds, as a mathematical value. Numbers are collapsed
/// to a bare marker: the lookup logic never reads one.
pub enum JsonView {
    Null,
    Bool(bool),
    Num,
    Str(Seq<char>),
    Arr(Seq<JsonView>),
    Obj(Map<Seq<char>, JsonView>),
}

/// The object entries of a tree, when it is an object.
pub open spec fn as_obj(j: JsonView) -> Option<Map<Seq<char>, JsonView>> {
    match j {
        JsonView::Obj(m) => Some(m),
        _ => None,
    }
}

/// The elements of a tree, when it is an array.
pub open spec fn as_arr(j: JsonView) -> Option<Seq<JsonView>> {
    match j {
        JsonView::Arr(els) => Some(els),
        _ => None,
    }
}

/// The characters of a tree that is a string; empty otherwise.
pub open spec fn str_of(j: JsonView) -> Seq<char> {
    match j {
        JsonView::Str(s) => s,
        _ => Seq::empty(),
    }
}

/// What a `serde_json::Value` holds.
pub uninterp spec fn value_view(v: serde_json::Value) -> JsonView;

/// What parsing a text as JSON yields: a tree for well-formed JSON,
/// nothing for ill-formed text. The result depends on the text alone.
pub uninterp spec fn json_of(s: Seq<char>) -> Option<JsonView>;

/// Relies on `serde_json::from_str`: parses the text as JSON and returns
/// the tree, or an error for ill-formed text.
#[verifier::external_body]
pub fn json_parse(s: &str) -> (r: Result<serde_json::Value, serde_json::Error>)
    ensures
        match r {
            Ok(v) => json_of(s@) == Some(value_view(v)),
            Err(_) => json_of(s@) is None,
        },
{
    serde_json::from_str::<serde_json::Value>(s)
}

/// Relies on `serde_json::Value::is_object`: true exactly for an object.
#[verifier::external_body]
pub fn json_is_object(v: &serde_json::Value) -> (r: bool)
    ensures
        r == (value_view(*v) is Obj),
{
    v.is_object()
}

/// Relies on `serde_json::Value::is_null`: true exactly for null.
#[verifier::external_body]
pub fn json_is_null(v: &serde_json::Value) -> (r: bool)
    ensures
        r == (value_view(*v) is Null),
{
    v.is_null()
}

/// Relies on `serde_json::Value::get` with a string index: on an object it
/// looks the key up, on anything else it returns nothing.
#[verifier::external_body]
pub fn json_get<'a>(v: &'a serde_json::Value, key: &str) -> (r: Option<
    &'a serde_json::Value,
>)
    ensures
        match r {
            Some(f) => match as_obj(value_view(*v)) {
                Some(m) => m.contains_key(key@) && value_view(*f) == m[key@],
                None => false,
            },
            None => match as_obj(value_view(*v)) {
                Some(m) => !m.contains_key(key@),
                None => true,
            },
        },
{
    v.get(key)
}

/// Relies on `serde_json::Value::as_str`: the characters of a string,
/// nothing for any other value.
#[verifier::external_body]
pub fn json_as_str<'a>(v: &'a serde_json::Value) -> (r: Option<&'a str>)
    ensures
        match r {
            Some(s) => value_view(*v) == JsonView::Str(s@),
            None => !(value_view(*v) is Str),
        },
{
    v.as_str()
}

/// Relies on `serde_json::Value::as_array`: the elements of an array in
/// order, nothing for any other value.
#[verifier::external_body]
pub fn json_as_array<'a>(v: &'a serde_json::Value) -> (r: Option<&'a Vec<serde_json::Value>>)
    ensures
        match r {
            Some(a) => match as_arr(value_view(*v)) {
                Some(els) => a@.len() == els.len() && (forall|i: int|
                    0 <= i < els.len() ==> value_view(a@[i]) == els[i]),
                None => false,
            },
            None => !(value_view(*v) is Arr),
        },
{
    v.as_array()
}

/// Whether some pair of the list carries the key.
pub open spec fn key_present(ps: Seq<(String, serde_json::Value)>, k: Seq<char>) -> bool {
    exists|i: int| 0 <= i < ps.len() && ps[i].0@ == k
}

/// How a pair list returned by `json_object_entries` reflects the entries
/// of an object: each key once, each pair an entry of the object, and
/// every key of the object present.
pub open spec fn entries_match(
    ps: Seq<(String, serde_json::Value)>,
    m: Map<Seq<char>, JsonView>,
) -> bool {
    &&& forall|i: int, j: int| 0 <= i < j < ps.len() ==> ps[i].0@ != ps[j].0@
    &&& forall|i: int|
        0 <= i < ps.len() ==> m.contains_key(#[trigger] ps[i].0@) && value_view(ps[i].1)
            == m[ps[i].0@]
    &&& forall|k: Seq<char>| #[trigger] m.contains_key(k) ==> key_present(ps, k)
}

/// Relies on `serde_json::Value::as_object` and the map's iteration: the
/// entries of an object, each key exactly once, nothing for any other
/// value.
#[verifier::external_body]
pub fn json_object_entries(v: &serde_json::Value) -> (r: Option<
    Vec<(String, serde_json::Value)>,
>)
    ensures
        match r {
            Some(ps) => match as_obj(value_view(*v)) {
                Some(m) => entries_match(ps@, m),
                None => false,
            },
            None => !(value_view(*v) is Obj),
        },
{
    v.as_object().map(|m| m.iter().map(|(k, w)| (k.clone(), w.clone())).collect())
}

} // verus!
