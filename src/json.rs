use serde_json::Value;
use vstd::prelude::*;

verus! {

#[verifier::external_type_specification]
#[verifier::external_body]
pub struct ExJsonValue(serde_json::Value);

#[verifier::external_type_specification]
#[verifier::external_body]
#[verifier::reject_recursive_types(K)]
#[verifier::reject_recursive_types(V)]
pub struct ExJsonMap<K, V>(serde_json::Map<K, V>);

#[verifier::external_type_specification]
#[verifier::external_body]
pub struct ExJsonError(serde_json::Error);

/// The byte strings on which `serde_json::from_slice` into a `Value` succeeds.
pub uninterp spec fn is_json(b: Seq<u8>) -> bool;

/// The value that `serde_json::from_slice` reads from `b`, where it succeeds.
pub uninterp spec fn json_of(b: Seq<u8>) -> Value;

/// The top level of a JSON value, as `node_of` reads it.
pub uninterp spec fn node_view(v: Value) -> Node;

/// The member of a JSON object under the key `k`, where there is one.
pub uninterp spec fn member_of(m: serde_json::Map<String, Value>, k: Seq<char>) -> Option<Value>;

/// The top level of a JSON value, as far as the decoding of replies reads it.
pub enum Node {
    Object(serde_json::Map<String, Value>),
    Text(String),
    Other,
}

/// Relies on `serde_json::from_slice` into a `Value`: whether it succeeds,
/// and the value it reads, depend on the bytes alone.
#[verifier::external_body]
pub(crate) fn parse_json(b: &[u8]) -> (r: Result<Value, serde_json::Error>)
    ensures
        r is Ok == is_json(b@),
        r matches Ok(v) ==> v == json_of(b@),
{
    serde_json::from_slice(b)
}

/// Relies on the variants of `serde_json::Value`, to tell an object and a
/// string from the other kinds of value; the outcome depends on `v` alone.
#[verifier::external_body]
pub(crate) fn node_of(v: Value) -> (r: Node)
    ensures
        r == node_view(v),
{
    match v {
        Value::Object(m) => Node::Object(m),
        Value::String(s) => Node::Text(s),
        Value::Null | Value::Bool(_) | Value::Number(_) | Value::Array(_) => Node::Other,
    }
}

/// Relies on `serde_json::Map::remove`: the member under `key` comes out where
/// there is one, and the members under other keys stay as they were.
#[verifier::external_body]
pub(crate) fn take_member(m: &mut serde_json::Map<String, Value>, key: &str) -> (r: Option<Value>)
    ensures
        r == member_of(*old(m), key@),
        forall|k: Seq<char>| k != key@ ==> #[trigger] member_of(*final(m), k) == member_of(*old(m), k),
{
    m.remove(key)
}

} // verus!
