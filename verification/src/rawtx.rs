//! Calls on raw transactions.

use crate::defaults::{lemma_defaults_suffice, with_defaults};
use crate::encode::{into_json, json_list, opt_into_json, opt_json};
use crate::request::{call, Request};
use crate::types::{members, object_from, CreateRawTransactionInput};
use crate::wire::{null, txid_text, wire, Json};
use bitcoin::Txid;
use serde_json::Value;
use vstd::prelude::*;

verus! {

/// A new transaction that spends `inputs` and pays each address of
/// `outputs` its amount. `outputs` holds each address with its amount as it
/// travels; where an address occurs twice the later amount counts.
///
/// By default the transaction is not locked; the expiry height has no
/// default and is only sent where it is given.
pub fn createrawtransaction(
    inputs: &Vec<CreateRawTransactionInput>,
    outputs: &Vec<(String, Value)>,
    locktime: Option<i64>,
    expiryheight: Option<u64>,
) -> (req: Request)
    ensures
        req@ == call(
            "createrawtransaction"@,
            with_defaults(
                seq![
                    Json::Array(json_list(inputs@)),
                    Json::Object(members(outputs@)),
                    opt_json(locktime),
                    opt_json(expiryheight),
                ],
                seq![Json::Int(0), Json::Null],
            ),
        ),
{
    let args = vec![
        into_json(inputs),
        object_from(outputs),
        opt_into_json(locktime),
        opt_into_json(expiryheight),
    ];
    let defaults = vec![into_json(0i64), null()];
    proof {
        assert(wire(args@) =~= seq![
            Json::Array(json_list(inputs@)),
            Json::Object(members(outputs@)),
            opt_json(locktime),
            opt_json(expiryheight),
        ]);
        assert(wire(defaults@) =~= seq![Json::Int(0), Json::Null]);
        lemma_defaults_suffice(wire(args@), wire(defaults@));
    }
    Request::with_defaults("createrawtransaction", args, defaults)
}

/// The transaction `txid`, field by field.
pub fn get_raw_transaction_verbose(txid: &Txid) -> (req: Request)
    ensures
        req@ == call("getrawtransaction"@, seq![Json::Str(txid_text(*txid)), Json::Int(1)]),
{
    let args = vec![into_json(txid), into_json(1u8)];
    assert(wire(args@) =~= seq![Json::Str(txid_text(*txid)), Json::Int(1)]);
    Request::new("getrawtransaction", args)
}

/// The transaction `txid`, as hexadecimal text.
pub fn get_raw_transaction(txid: &Txid) -> (req: Request)
    ensures
        req@ == call("getrawtransaction"@, seq![Json::Str(txid_text(*txid)), Json::Int(0)]),
{
    let args = vec![into_json(txid), into_json(0u8)];
    assert(wire(args@) =~= seq![Json::Str(txid_text(*txid)), Json::Int(0)]);
    Request::new("getrawtransaction", args)
}

/// Asks whether the daemon answers.
pub fn ping() -> (req: Request)
    ensures
        req@ == call("ping"@, seq![]),
{
    let args = Vec::new();
    assert(wire(args@) =~= seq![]);
    Request::new("ping", args)
}

} // verus!
