//! Parameters of the calls that are more than a number or a text.

use crate::encode::ToJson;
use crate::wire::{
    from_object, from_str, from_u64, json_of, members_of, new_object, no_members, object_insert,
    txid_text, txid_to_string, Json,
};
use bitcoin::Txid;
use serde_json::Value;
use vstd::prelude::*;

verus! {

/// The two kinds of address that the wallet knows.
#[derive(Clone, Copy, Debug, PartialEq, Eq, Structural)]
pub enum AddressType {
    Transparent,
    Shielded,
}

/// An address: its kind, and the text it is written as.
#[derive(Clone, Debug)]
pub struct Address {
    pub addr_type: AddressType,
    pub text: String,
}

/// An address travels as its text.
impl ToJson for Address {
    open spec fn json(&self) -> Json {
        Json::Str(self.text@)
    }

    fn to_json(&self) -> (v: Value) {
        from_str(self.text.as_str())
    }
}

/// A signer of a multi-signature address: an address of the wallet, or a
/// public key in hexadecimal notation.
#[derive(Clone, Debug)]
pub enum PubkeyOrAddress<'a> {
    Address(&'a Address),
    Pubkey(&'a str),
}

/// Either kind of signer travels as its text.
impl<'a> ToJson for PubkeyOrAddress<'a> {
    open spec fn json(&self) -> Json {
        match *self {
            PubkeyOrAddress::Address(a) => Json::Str(a.text@),
            PubkeyOrAddress::Pubkey(p) => Json::Str(p@),
        }
    }

    fn to_json(&self) -> (v: Value) {
        match *self {
            PubkeyOrAddress::Address(a) => a.to_json(),
            PubkeyOrAddress::Pubkey(p) => from_str(p),
        }
    }
}

/// An output of an earlier transaction that a new transaction spends.
#[derive(Clone, PartialEq, Eq, Debug)]
pub struct CreateRawTransactionInput {
    pub txid: Txid,
    pub vout: u32,
    pub sequence: Option<u32>,
}

/// The members `txid` and `vout` that name an output.
pub open spec fn outpoint_members(txid: Txid, vout: u32) -> Map<Seq<char>, Json> {
    no_members().insert("txid"@, Json::Str(txid_text(txid))).insert(
        "vout"@,
        Json::Int(vout as int),
    )
}

/// An input travels as an object with the members `txid` and `vout`, and
/// with the member `sequence` where a sequence number is given.
impl ToJson for CreateRawTransactionInput {
    open spec fn json(&self) -> Json {
        Json::Object(
            match self.sequence {
                Some(sequence) => outpoint_members(self.txid, self.vout).insert(
                    "sequence"@,
                    Json::Int(sequence as int),
                ),
                None => outpoint_members(self.txid, self.vout),
            },
        )
    }

    fn to_json(&self) -> (v: Value) {
        let mut object = new_object();
        let txid = txid_to_string(&self.txid);
        object_insert(&mut object, "txid", from_str(txid.as_str()));
        object_insert(&mut object, "vout", from_u64(self.vout as u64));
        match self.sequence {
            Some(sequence) => {
                object_insert(&mut object, "sequence", from_u64(sequence as u64));
            },
            None => {},
        }
        from_object(object)
    }
}

/// An output of a transaction, named by the transaction and the output's
/// position in it.
#[derive(Clone, Debug)]
pub struct JsonOutPoint {
    pub txid: Txid,
    pub vout: u32,
}

/// An output travels as an object with the members `txid` and `vout`.
impl ToJson for JsonOutPoint {
    open spec fn json(&self) -> Json {
        Json::Object(outpoint_members(self.txid, self.vout))
    }

    fn to_json(&self) -> (v: Value) {
        let mut object = new_object();
        let txid = txid_to_string(&self.txid);
        object_insert(&mut object, "txid", from_str(txid.as_str()));
        object_insert(&mut object, "vout", from_u64(self.vout as u64));
        from_object(object)
    }
}

/// The members of the object that is built from `pairs`, one after the
/// other: of two pairs with the same key the later one stays.
pub open spec fn members(pairs: Seq<(String, Value)>) -> Map<Seq<char>, Json>
    decreases pairs.len(),
{
    if pairs.len() == 0 {
        no_members()
    } else {
        members(pairs.drop_last()).insert(pairs.last().0@, json_of(pairs.last().1))
    }
}

/// Builds the object that holds each pair as a member.
pub fn object_from(pairs: &Vec<(String, Value)>) -> (v: Value)
    ensures
        json_of(v) == Json::Object(members(pairs@)),
{
    let mut object = new_object();
    let mut i: usize = 0;
    while i < pairs.len()
        invariant
            i <= pairs.len(),
            members_of(object) == members(pairs@.take(i as int)),
        decreases pairs.len() - i,
    {
        assert(pairs@.take(i + 1).drop_last() =~= pairs@.take(i as int));
        let value = pairs[i].1.clone();
        object_insert(&mut object, pairs[i].0.as_str(), value);
        i += 1;
    }
    assert(pairs@.take(pairs.len() as int) =~= pairs@);
    from_object(object)
}

} // verus!
