//! Building `serde_json` values. What each constructor returns is named here
//! and not described further: the library only needs that the same arguments
//! give the same value.

use vstd::prelude::*;
use serde_json::Value;

verus! {

#[verifier::external_type_specification]
#[verifier::external_body]
pub struct ExValue(Value);

/// The JSON string `s`.
pub uninterp spec fn json_text(s: Seq<char>) -> Value;

/// The JSON boolean `b`.
pub uninterp spec fn json_flag(b: bool) -> Value;

/// The JSON array of `items`, in order.
pub uninterp spec fn json_list(items: Seq<Value>) -> Value;

/// The JSON object with `entries` (a later entry replaces an earlier one with the same key).
pub uninterp spec fn json_map(entries: Seq<(Seq<char>, Value)>) -> Value;

/// The member `key` of `v`, if `v` is an object that has one.
pub uninterp spec fn member_of(v: Value, key: Seq<char>) -> Option<Value>;

/// The text of `v`, if `v` is a JSON string.
pub uninterp spec fn str_of(v: Value) -> Option<Seq<char>>;

/// The value of `v`, if `v` is a number that is an `i64`.
pub uninterp spec fn i64_of(v: Value) -> Option<int>;

/// The elements of `v`, if `v` is a JSON array.
pub uninterp spec fn array_of(v: Value) -> Option<Seq<Value>>;

/// No key occurs twice among `entries`.
pub open spec fn keys_distinct(entries: Seq<(Seq<char>, Value)>) -> bool {
    forall|i: int, j: int| 0 <= i < j < entries.len() ==> entries[i].0 != entries[j].0
}

/// The value that `entries` give `key`, if any (the last one with that key).
pub open spec fn lookup(entries: Seq<(Seq<char>, Value)>, key: Seq<char>) -> Option<Value>
    decreases entries.len(),
{
    if entries.len() == 0 {
        None
    } else if entries.last().0 == key {
        Some(entries.last().1)
    } else {
        lookup(entries.drop_last(), key)
    }
}

/// The keys and values of `entries`, keys by their text.
pub open spec fn entries_view(entries: Seq<(String, Value)>) -> Seq<(Seq<char>, Value)> {
    entries.map_values(|e: (String, Value)| (e.0@, e.1))
}

/// `Value::String`: the JSON string holding `s`.
#[verifier::external_body]
pub(crate) fn json_string(s: &str) -> (v: Value)
    ensures
        v == json_text(s@),
{
    Value::String(s.to_string())
}

/// `Value::Bool`: the JSON boolean `b`.
#[verifier::external_body]
pub(crate) fn json_bool(b: bool) -> (v: Value)
    ensures
        v == json_flag(b),
{
    Value::Bool(b)
}

/// `Value::Array`: the JSON array of `items`.
#[verifier::external_body]
pub(crate) fn json_array(items: Vec<Value>) -> (v: Value)
    ensures
        v == json_list(items@),
{
    Value::Array(items)
}

/// `Value::from_iter` over key-value pairs: the JSON object of `entries`.
#[verifier::external_body]
pub(crate) fn json_object(entries: Vec<(String, Value)>) -> (v: Value)
    ensures
        v == json_map(entries_view(entries@)),
{
    entries.into_iter().collect()
}

/// A JSON object with one entry.
pub fn object1(k0: &str, v0: Value) -> (v: Value)
    ensures
        v == json_map(seq![(k0@, v0)]),
{
    let mut entries: Vec<(String, Value)> = Vec::new();
    entries.push((String::from_str(k0), v0));
    let v = json_object(entries);
    proof {
        assert(entries_view(entries@) =~= seq![(k0@, v0)]);
    }
    v
}

/// A JSON object with two entries.
pub fn object2(k0: &str, v0: Value, k1: &str, v1: Value) -> (v: Value)
    ensures
        v == json_map(seq![(k0@, v0), (k1@, v1)]),
{
    let mut entries: Vec<(String, Value)> = Vec::new();
    entries.push((String::from_str(k0), v0));
    entries.push((String::from_str(k1), v1));
    let v = json_object(entries);
    proof {
        assert(entries_view(entries@) =~= seq![(k0@, v0), (k1@, v1)]);
    }
    v
}

/// A JSON object with three entries.
pub fn object3(k0: &str, v0: Value, k1: &str, v1: Value, k2: &str, v2: Value) -> (v: Value)
    ensures
        v == json_map(seq![(k0@, v0), (k1@, v1), (k2@, v2)]),
{
    let mut entries: Vec<(String, Value)> = Vec::new();
    entries.push((String::from_str(k0), v0));
    entries.push((String::from_str(k1), v1));
    entries.push((String::from_str(k2), v2));
    let v = json_object(entries);
    proof {
        assert(entries_view(entries@) =~= seq![(k0@, v0), (k1@, v1), (k2@, v2)]);
    }
    v
}

/// A JSON object with four entries.
pub fn object4(k0: &str, v0: Value, k1: &str, v1: Value, k2: &str, v2: Value, k3: &str, v3: Value) -> (v: Value)
    ensures
        v == json_map(seq![(k0@, v0), (k1@, v1), (k2@, v2), (k3@, v3)]),
{
    let mut entries: Vec<(String, Value)> = Vec::new();
    entries.push((String::from_str(k0), v0));
    entries.push((String::from_str(k1), v1));
    entries.push((String::from_str(k2), v2));
    entries.push((String::from_str(k3), v3));
    let v = json_object(entries);
    proof {
        assert(entries_view(entries@) =~= seq![(k0@, v0), (k1@, v1), (k2@, v2), (k3@, v3)]);
    }
    v
}

/// The empty JSON object.
pub fn object0() -> (v: Value)
    ensures
        v == json_map(seq![]),
{
    let entries: Vec<(String, Value)> = Vec::new();
    let v = json_object(entries);
    proof {
        assert(entries_view(entries@) =~= Seq::<(Seq<char>, Value)>::empty());
    }
    v
}

/// A JSON array with two elements.
pub fn array2(v0: Value, v1: Value) -> (v: Value)
    ensures
        v == json_list(seq![v0, v1]),
{
    let mut items: Vec<Value> = Vec::new();
    items.push(v0);
    items.push(v1);
    let v = json_array(items);
    proof {
        assert(items@ =~= seq![v0, v1]);
    }
    v
}

/// A JSON array with one element.
pub fn array1(v0: Value) -> (v: Value)
    ensures
        v == json_list(seq![v0]),
{
    let mut items: Vec<Value> = Vec::new();
    items.push(v0);
    let v = json_array(items);
    proof {
        assert(items@ =~= seq![v0]);
    }
    v
}

/// `Value::get` with a string key: the member `key` of an object; of an
/// object built from entries with distinct keys, the value of that key.
#[verifier::external_body]
pub(crate) fn json_get(v: &Value, key: &str) -> (r: Option<Value>)
    ensures
        r == member_of(*v, key@),
        forall|entries: Seq<(Seq<char>, Value)>| #[trigger] json_map(entries) == *v && keys_distinct(entries)
            ==> r == lookup(entries, key@),
{
    v.get(key).cloned()
}

/// `Value::as_str`: the text of a JSON string (of `Value::String(t)`, `t`).
#[verifier::external_body]
pub(crate) fn json_as_str(v: &Value) -> (r: Option<String>)
    ensures
        r matches Some(s) ==> str_of(*v) == Some(s@),
        r is None ==> str_of(*v) is None,
        forall|t: Seq<char>| #[trigger] json_text(t) == *v ==> r is Some && r->0@ == t,
{
    v.as_str().map(|s| s.to_string())
}

/// `Value::as_i64`: the value of a number that fits an `i64`.
#[verifier::external_body]
pub(crate) fn json_as_i64(v: &Value) -> (r: Option<i64>)
    ensures
        r matches Some(n) ==> i64_of(*v) == Some(n as int),
        r is None ==> i64_of(*v) is None,
{
    v.as_i64()
}

/// `Value::as_array`: the elements of a JSON array (of `Value::Array(items)`,
/// `items`).
#[verifier::external_body]
pub(crate) fn json_as_array(v: &Value) -> (r: Option<Vec<Value>>)
    ensures
        r matches Some(items) ==> array_of(*v) == Some(items@),
        r is None ==> array_of(*v) is None,
        forall|items: Seq<Value>| #[trigger] json_list(items) == *v ==> r is Some && r->0@ == items,
{
    v.as_array().cloned()
}

} // verus!
