//! Reading of JSON values, as far as the router looks into them.

use serde_json::Value;
use vstd::prelude::*;

verus! {

/// `serde_json::Value`, a JSON document. Proofs see it through `json_content`.
#[verifier::external_type_specification]
#[verifier::external_body]
pub struct ExValue(Value);

/// What a JSON document is at its top level, as far as the router cares.
pub enum JsonContent {
    /// An object, with its members by their names.
    Object(Map<Seq<char>, Value>),
    /// A number held as an integer, not as a floating-point number.
    Integer(int),
    /// Anything else.
    Other,
}

/// The content of a `serde_json::Value`.
pub uninterp spec fn json_content(value: Value) -> JsonContent;

impl JsonContent {
    /// The member `key`, where this is an object that has one.
    pub open spec fn member(self, key: Seq<char>) -> Option<Value> {
        match self {
            JsonContent::Object(members) if members.contains_key(key) => Some(members[key]),
            _ => None,
        }
    }

    /// The number, where this is an integer that fits a `u64`.
    pub open spec fn unsigned(self) -> Option<u64> {
        match self {
            JsonContent::Integer(n) if 0 <= n <= u64::MAX => Some(n as u64),
            _ => None,
        }
    }
}

/// Calls `serde_json::Value::get` with a string index. It gives the member of that
/// name of an object, and nothing for a missing name or any other kind of value.
#[verifier::external_body]
pub(crate) fn get_member<'a>(value: &'a Value, key: &str) -> (member: Option<&'a Value>)
    ensures
        match member {
            Some(found) => json_content(*value).member(key@) == Some(*found),
            None => json_content(*value).member(key@) is None,
        },
{
    value.get(key)
}

/// `serde_json::Value::as_u64` gives the number that an integer value is, where that
/// fits a `u64`, and nothing for a negative number, a number with a fraction, or any
/// other kind of value.
pub assume_specification[ Value::as_u64 ](value: &Value) -> (number: Option<u64>)
    ensures
        number == json_content(*value).unsigned(),
;

} // verus!
