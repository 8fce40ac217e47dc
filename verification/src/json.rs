//! Reading tool arguments out of a `serde_json::Value`.
//!
//! A JSON value is opaque to the verifier. What the library reads from one is
//! given three names, and each accessor is tied to its name by a trusted
//! contract; everything built on top of them is proved.

use serde_json::Value;
use vstd::prelude::*;

verus! {

/// `serde_json::Value`, any JSON value. Nothing inside it is visible to the
/// verifier; it is read through the accessors below.
#[verifier::external_type_specification]
#[verifier::external_body]
pub struct ExValue(serde_json::Value);

/// The members of a JSON object, by key. A value that is not an object has no
/// members.
pub uninterp spec fn members(v: Value) -> Map<Seq<char>, Value>;

/// The text of a JSON string; `None` for every other kind of value.
pub uninterp spec fn text_of(v: Value) -> Option<Seq<char>>;

/// The number held by a JSON value when it is a non-negative integer that fits
/// in 64 bits; `None` for every other value.
pub uninterp spec fn unsigned_of(v: Value) -> Option<u64>;

/// Looks up `key` in `v`. Trusted: `serde_json::Value::get` with a string index
/// returns the member of an object stored under that key, and `None` when the
/// key is absent or `v` is not an object.
#[verifier::external_body]
pub(crate) fn member<'a>(v: &'a Value, key: &str) -> (r: Option<&'a Value>)
    ensures
        r is Some <==> members(*v).contains_key(key@),
        r is Some ==> *r->0 == members(*v)[key@],
{
    v.get(key)
}

/// Trusted: `serde_json::Value::as_str` returns the text of a string value and
/// `None` for anything else.
pub assume_specification<'a>[ Value::as_str ](v: &'a Value) -> (r: Option<&'a str>)
    ensures
        match r {
            Some(s) => text_of(*v) == Some(s@),
            None => text_of(*v) is None,
        },
;

/// Trusted: `serde_json::Value::as_u64` returns the number when the value is a
/// non-negative integer, and `None` for anything else.
pub assume_specification[ Value::as_u64 ](v: &Value) -> (r: Option<u64>)
    ensures
        r == unsigned_of(*v),
;

/// The members of an object, as the contracts of this library speak of them.
pub type Members = Map<Seq<char>, Value>;

/// The text stored under `key`, if a string is stored there.
pub open spec fn text_member(m: Members, key: Seq<char>) -> Option<Seq<char>> {
    if m.contains_key(key) {
        text_of(m[key])
    } else {
        None
    }
}

/// The non-negative integer stored under `key`, if one is stored there.
pub open spec fn unsigned_member(m: Members, key: Seq<char>) -> Option<u64> {
    if m.contains_key(key) {
        unsigned_of(m[key])
    } else {
        None
    }
}

/// No members at all.
pub open spec fn no_members() -> Members {
    Map::empty()
}

/// A value without members. Trusted: `serde_json::Value::default` is the JSON
/// null, in which `get` finds nothing.
#[verifier::external_body]
pub(crate) fn null_value() -> (r: Value)
    ensures
        members(r) == no_members(),
{
    Value::default()
}

/// Reads the string argument `key`.
pub fn get_text<'a>(args: &'a Value, key: &str) -> (r: Option<&'a str>)
    ensures
        match r {
            Some(s) => text_member(members(*args), key@) == Some(s@),
            None => text_member(members(*args), key@) is None,
        },
{
    match member(args, key) {
        Some(v) => v.as_str(),
        None => None,
    }
}

/// Reads the non-negative integer argument `key`.
pub fn get_unsigned(args: &Value, key: &str) -> (r: Option<u64>)
    ensures
        r == unsigned_member(members(*args), key@),
{
    match member(args, key) {
        Some(v) => v.as_u64(),
        None => None,
    }
}

} // verus!
