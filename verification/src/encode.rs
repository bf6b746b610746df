//! The argument encoder: typed parameters to wire values.
//!
//! A parameter that is present becomes the JSON value that stands for it; an
//! optional parameter that the caller left out becomes `null`.

use crate::wire::{
    block_hash_text, block_hash_to_string, from_bool, from_i64, from_str, from_u64, from_vec,
    json_of, null, txid_text, txid_to_string, wire, Json,
};
use serde_json::Value;
use vstd::prelude::*;

verus! {

/// A parameter type with a wire representation.
pub trait ToJson {
    /// The JSON document that stands for this value.
    spec fn json(&self) -> Json;

    /// Builds the wire value that holds that document.
    fn to_json(&self) -> (v: Value)
        ensures
            json_of(v) == self.json(),
    ;
}

impl ToJson for bool {
    open spec fn json(&self) -> Json {
        Json::Bool(*self)
    }

    fn to_json(&self) -> (v: Value) {
        from_bool(*self)
    }
}

impl ToJson for u8 {
    open spec fn json(&self) -> Json {
        Json::Int(*self as int)
    }

    fn to_json(&self) -> (v: Value) {
        from_u64(*self as u64)
    }
}

impl ToJson for u16 {
    open spec fn json(&self) -> Json {
        Json::Int(*self as int)
    }

    fn to_json(&self) -> (v: Value) {
        from_u64(*self as u64)
    }
}

impl ToJson for u32 {
    open spec fn json(&self) -> Json {
        Json::Int(*self as int)
    }

    fn to_json(&self) -> (v: Value) {
        from_u64(*self as u64)
    }
}

impl ToJson for u64 {
    open spec fn json(&self) -> Json {
        Json::Int(*self as int)
    }

    fn to_json(&self) -> (v: Value) {
        from_u64(*self)
    }
}

impl ToJson for usize {
    open spec fn json(&self) -> Json {
        Json::Int(*self as int)
    }

    fn to_json(&self) -> (v: Value) {
        from_u64(*self as u64)
    }
}

impl ToJson for i64 {
    open spec fn json(&self) -> Json {
        Json::Int(*self as int)
    }

    fn to_json(&self) -> (v: Value) {
        from_i64(*self)
    }
}

impl<'a> ToJson for &'a str {
    open spec fn json(&self) -> Json {
        Json::Str(self@)
    }

    fn to_json(&self) -> (v: Value) {
        from_str(*self)
    }
}

impl ToJson for String {
    open spec fn json(&self) -> Json {
        Json::Str(self@)
    }

    fn to_json(&self) -> (v: Value) {
        from_str(self.as_str())
    }
}

/// A transaction id travels as the text it displays as.
impl ToJson for bitcoin::Txid {
    open spec fn json(&self) -> Json {
        Json::Str(txid_text(*self))
    }

    fn to_json(&self) -> (v: Value) {
        let text = txid_to_string(self);
        from_str(text.as_str())
    }
}

/// A block hash travels as the text it displays as.
impl ToJson for bitcoin::BlockHash {
    open spec fn json(&self) -> Json {
        Json::Str(block_hash_text(*self))
    }

    fn to_json(&self) -> (v: Value) {
        let text = block_hash_to_string(self);
        from_str(text.as_str())
    }
}

/// A borrowed value travels as the value itself.
impl<'a, T: ToJson> ToJson for &'a T {
    open spec fn json(&self) -> Json {
        (**self).json()
    }

    fn to_json(&self) -> (v: Value) {
        (**self).to_json()
    }
}

/// The documents of a list of parameters, position by position.
pub open spec fn json_list<T: ToJson>(items: Seq<T>) -> Seq<Json> {
    Seq::new(items.len(), |i: int| items[i].json())
}

/// A list travels as the array of its items.
impl<T: ToJson> ToJson for Vec<T> {
    open spec fn json(&self) -> Json {
        Json::Array(json_list(self@))
    }

    fn to_json(&self) -> (v: Value) {
        let mut values: Vec<Value> = Vec::new();
        let mut i: usize = 0;
        while i < self.len()
            invariant
                i <= self.len(),
                values.len() == i,
                forall|j: int| 0 <= j < i ==> json_of(#[trigger] values[j]) == self[j].json(),
            decreases self.len() - i,
        {
            values.push(self[i].to_json());
            i += 1;
        }
        assert(wire(values@) =~= json_list(self@));
        from_vec(values)
    }
}

/// The document of an optional parameter: `null` where it was left out.
pub open spec fn opt_json<T: ToJson>(opt: Option<T>) -> Json {
    match opt {
        Some(val) => val.json(),
        None => Json::Null,
    }
}

/// Encodes a parameter that is present.
pub fn into_json<T: ToJson>(val: T) -> (v: Value)
    ensures
        json_of(v) == val.json(),
{
    val.to_json()
}

/// Encodes an optional parameter, as `null` where the caller left it out.
pub fn opt_into_json<T: ToJson>(opt: Option<T>) -> (v: Value)
    ensures
        json_of(v) == opt_json(opt),
{
    match opt {
        Some(val) => into_json(val),
        None => null(),
    }
}

} // verus!
