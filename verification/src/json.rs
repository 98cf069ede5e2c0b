//! Reading fields out of a node's JSON replies, through `serde_json`.

use vstd::prelude::*;

verus! {

#[verifier::external_type_specification]
#[verifier::external_body]
pub struct ExJsonValue(serde_json::Value);

/// `v[key].as_str()`: the string under `key` of the object `v`, if any.
pub uninterp spec fn json_str_at(v: serde_json::Value, key: Seq<char>) -> Option<Seq<char>>;

/// `v[key].as_u64()`: the unsigned integer under `key` of the object `v`,
/// if any.
pub uninterp spec fn json_u64_at(v: serde_json::Value, key: Seq<char>) -> Option<u64>;

/// `v[key].as_bool()`: the boolean under `key` of the object `v`, if any.
pub uninterp spec fn json_bool_at(v: serde_json::Value, key: Seq<char>) -> Option<bool>;

/// `v[key].as_array()`: the array under `key` of the object `v`, if any.
pub uninterp spec fn json_array_at(v: serde_json::Value, key: Seq<char>) -> Option<Seq<serde_json::Value>>;

/// `v[key].as_str()`, copied. The result is named, as what the value holds.
#[verifier::external_body]
pub(crate) fn json_str(v: &serde_json::Value, key: &str) -> (res: Option<String>)
    ensures
        res.deep_view() == json_str_at(*v, key@),
{
    match v[key].as_str() {
        Some(s) => Some(s.to_string()),
        None => None,
    }
}

/// `v[key].as_u64()`. The result is named, as what the value holds.
#[verifier::external_body]
pub(crate) fn json_u64(v: &serde_json::Value, key: &str) -> (res: Option<u64>)
    ensures
        res == json_u64_at(*v, key@),
{
    v[key].as_u64()
}

/// `v[key].as_bool()`. The result is named, as what the value holds.
#[verifier::external_body]
pub(crate) fn json_bool(v: &serde_json::Value, key: &str) -> (res: Option<bool>)
    ensures
        res == json_bool_at(*v, key@),
{
    v[key].as_bool()
}

/// `v[key].as_array()`, copied. The result is named, as what the value
/// holds.
#[verifier::external_body]
pub(crate) fn json_array(v: &serde_json::Value, key: &str) -> (res: Option<Vec<serde_json::Value>>)
    ensures
        match res {
            Some(a) => json_array_at(*v, key@) == Some(a@),
            None => json_array_at(*v, key@) is None,
        },
{
    match v[key].as_array() {
        Some(a) => Some(a.clone()),
        None => None,
    }
}

} // verus!
