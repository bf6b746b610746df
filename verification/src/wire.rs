//! The wire format: JSON values as `serde_json` holds them, and the
//! mathematical model that the contracts of this crate speak of.

use serde_json::Value;
use vstd::prelude::*;

verus! {

/// Mathematical model of a JSON value.
pub enum Json {
    /// JSON `null`. On the argument list it is the omission sentinel: the
    /// caller supplied no value at this position.
    Null,
    Bool(bool),
    /// An integer number.
    Int(int),
    /// A floating-point number, identified by the bits of its IEEE 754 encoding.
    Float(u64),
    Str(Seq<char>),
    Array(Seq<Json>),
    Object(Map<Seq<char>, Json>),
}

/// `serde_json::Value`. The verifier does not look into it: what it holds is
/// named by `json_of`.
#[verifier::external_type_specification]
#[verifier::external_body]
pub struct ExValue(serde_json::Value);

/// The JSON document that a `serde_json::Value` holds.
pub uninterp spec fn json_of(v: serde_json::Value) -> Json;

/// The documents held by a list of values, position by position.
pub open spec fn wire(values: Seq<Value>) -> Seq<Json> {
    values.map_values(|v: Value| json_of(v))
}

/// `Value::is_null` is true exactly for the `Value::Null` variant.
pub assume_specification[ serde_json::Value::is_null ](v: &serde_json::Value) -> (b: bool)
    ensures
        b == (json_of(*v) is Null),
;

/// `Value` derives `Clone`: the copy holds the same document.
pub assume_specification[ <serde_json::Value as Clone>::clone ](
    v: &serde_json::Value,
) -> (c: serde_json::Value)
    ensures
        json_of(c) == json_of(*v),
;

/// The variant `Value::Null`, which holds JSON `null`.
#[verifier::external_body]
pub(crate) fn null() -> (v: Value)
    ensures
        json_of(v) == Json::Null,
{
    Value::Null
}

/// `Value::from(bool)` builds `Value::Bool` of the same boolean.
#[verifier::external_body]
pub(crate) fn from_bool(b: bool) -> (v: Value)
    ensures
        json_of(v) == Json::Bool(b),
{
    Value::from(b)
}

/// `Value::from(u64)` builds `Value::Number` of the same integer.
#[verifier::external_body]
pub(crate) fn from_u64(n: u64) -> (v: Value)
    ensures
        json_of(v) == Json::Int(n as int),
{
    Value::from(n)
}

/// `Value::from(i64)` builds `Value::Number` of the same integer.
#[verifier::external_body]
pub(crate) fn from_i64(n: i64) -> (v: Value)
    ensures
        json_of(v) == Json::Int(n as int),
{
    Value::from(n)
}

/// `Value::from(&str)` builds `Value::String` of a copy of the text.
#[verifier::external_body]
pub(crate) fn from_str(s: &str) -> (v: Value)
    ensures
        json_of(v) == Json::Str(s@),
{
    Value::from(s)
}

/// `Value::from(Vec<Value>)` builds `Value::Array` of the same values in the
/// same order.
#[verifier::external_body]
pub(crate) fn from_vec(items: Vec<Value>) -> (v: Value)
    ensures
        json_of(v) == Json::Array(wire(items@)),
{
    Value::from(items)
}

/// `serde_json::Map`. The verifier does not look into it: what it holds is
/// named by `members_of`.
#[verifier::external_type_specification]
#[verifier::external_body]
#[verifier::reject_recursive_types(K)]
#[verifier::reject_recursive_types(V)]
pub struct ExObject<K, V>(serde_json::Map<K, V>);

/// A JSON object as `serde_json` holds it.
pub type Object = serde_json::Map<String, Value>;

/// The members that a `serde_json::Map` holds, each key with its document.
pub uninterp spec fn members_of(m: Object) -> Map<Seq<char>, Json>;

/// The members of an empty object.
pub open spec fn no_members() -> Map<Seq<char>, Json> {
    Map::empty()
}

/// `Map::new` makes a map without members.
#[verifier::external_body]
pub(crate) fn new_object() -> (m: Object)
    ensures
        members_of(m) == no_members(),
{
    serde_json::Map::new()
}

/// `Map::insert` adds the member, replacing the one that had the same key.
#[verifier::external_body]
pub(crate) fn object_insert(m: &mut Object, key: &str, value: Value)
    ensures
        members_of(*final(m)) == members_of(*old(m)).insert(key@, json_of(value)),
{
    m.insert(key.to_owned(), value);
}

/// `Value::from(Map)` builds `Value::Object` of the same members.
#[verifier::external_body]
pub(crate) fn from_object(m: Object) -> (v: Value)
    ensures
        json_of(v) == Json::Object(members_of(m)),
{
    Value::from(m)
}

/// `bitcoin::Txid`: carried through, and written out by `txid_to_string`.
#[verifier::external_type_specification]
#[verifier::external_body]
pub struct ExTxid(bitcoin::Txid);

/// `bitcoin::BlockHash`: carried through, and written out by
/// `block_hash_to_string`.
#[verifier::external_type_specification]
#[verifier::external_body]
pub struct ExBlockHash(bitcoin::BlockHash);

/// `Txid` is `Copy`: its clone is the same id.
pub assume_specification[ <bitcoin::Txid as Clone>::clone ](
    id: &bitcoin::Txid,
) -> (copy: bitcoin::Txid)
    ensures
        copy == *id,
;

/// The text that a transaction id displays as: a function of the id alone.
pub uninterp spec fn txid_text(id: bitcoin::Txid) -> Seq<char>;

/// The text that a block hash displays as: a function of the hash alone.
pub uninterp spec fn block_hash_text(hash: bitcoin::BlockHash) -> Seq<char>;

/// `Txid`'s `Display`, through `to_string`. Nothing is claimed of the text
/// but that it is the one the id displays as.
#[verifier::external_body]
pub(crate) fn txid_to_string(id: &bitcoin::Txid) -> (s: String)
    ensures
        s@ == txid_text(*id),
{
    id.to_string()
}

/// `BlockHash`'s `Display`, through `to_string`. Nothing is claimed of the
/// text but that it is the one the hash displays as.
#[verifier::external_body]
pub(crate) fn block_hash_to_string(hash: &bitcoin::BlockHash) -> (s: String)
    ensures
        s@ == block_hash_text(*hash),
{
    hash.to_string()
}

} // verus!
