//! Calls on the wallet.

use crate::defaults::{lemma_defaults_suffice, with_defaults};
use crate::encode::{into_json, json_list, opt_into_json, opt_json};
use crate::error::Error;
use crate::request::{call, Request};
use crate::types::{
    members, object_from, Address, AddressType, JsonOutPoint, PubkeyOrAddress,
};
use crate::wire::{block_hash_text, from_vec, json_of, null, txid_text, wire, Json};
use crate::MAX_MULTISIG_SIGNERS;
use bitcoin::{BlockHash, Txid};
use serde_json::Value;
use vstd::prelude::*;

verus! {

/// What the daemon is told where more signers are asked for than a
/// multi-signature address can have.
pub open spec fn too_many_signers() -> Seq<char> {
    "No more than 15 signers in a msig allowed"@
}

/// What the daemon is told where the private key of a shielded address is
/// asked for.
pub open spec fn shielded_not_supported() -> Seq<char> {
    "no support for shielded addresses for this call"@
}

/// Adds to the wallet a multi-signature address that `n_required` of `keys`
/// must sign for. More than 15 signers are refused here, and nothing is to
/// be sent.
pub fn add_multi_sig_address(
    n_required: u8,
    keys: &Vec<PubkeyOrAddress>,
) -> (res: Result<Request, Error>)
    ensures
        n_required > MAX_MULTISIG_SIGNERS ==> (res matches Err(Error::KMDError(message))
            && message@ == too_many_signers()),
        n_required <= MAX_MULTISIG_SIGNERS ==> (res matches Ok(req) && req@ == call(
            "addmultisigaddress"@,
            seq![Json::Int(n_required as int), Json::Array(json_list(keys@))],
        )),
{
    if n_required > MAX_MULTISIG_SIGNERS {
        return Err(Error::KMDError("No more than 15 signers in a msig allowed".to_owned()));
    }
    let args = vec![into_json(n_required), into_json(keys)];
    assert(wire(args@) =~= seq![Json::Int(n_required as int), Json::Array(json_list(keys@))]);
    Ok(Request::new("addmultisigaddress", args))
}

/// Copies the wallet to `destination`.
pub fn backup_wallet(destination: &str) -> (req: Request)
    ensures
        req@ == call("backupwallet"@, seq![Json::Str(destination@)]),
{
    let args = vec![into_json(destination)];
    assert(wire(args@) =~= seq![Json::Str(destination@)]);
    Request::new("backupwallet", args)
}

/// Removes from the wallet the transactions that are no longer needed.
pub fn clean_wallet_transactions() -> (req: Request)
    ensures
        req@ == call("cleanwallettransactions"@, seq![]),
{
    let args = Vec::new();
    assert(wire(args@) =~= seq![]);
    Request::new("cleanwallettransactions", args)
}

/// The keys and the address that `passphrase` stands for.
pub fn convert_passphrase(passphrase: &str) -> (req: Request)
    ensures
        req@ == call("convertpassphrase"@, seq![Json::Str(passphrase@)]),
{
    let args = vec![into_json(passphrase)];
    assert(wire(args@) =~= seq![Json::Str(passphrase@)]);
    Request::new("convertpassphrase", args)
}

/// The private key of `address`. A shielded address is refused here, and
/// nothing is to be sent.
pub fn dump_privkey(address: Address) -> (res: Result<Request, Error>)
    ensures
        address.addr_type is Shielded ==> (res matches Err(Error::KMDError(message))
            && message@ == shielded_not_supported()),
        !(address.addr_type is Shielded) ==> (res matches Ok(req) && req@ == call(
            "dumpprivkey"@,
            seq![Json::Str(address.text@)],
        )),
{
    match address.addr_type {
        AddressType::Shielded => {
            return Err(
                Error::KMDError("no support for shielded addresses for this call".to_owned()),
            );
        },
        _ => {},
    }
    let args = vec![into_json(&address)];
    assert(wire(args@) =~= seq![Json::Str(address.text@)]);
    Ok(Request::new("dumpprivkey", args))
}

/// Balance of the whole wallet: by default of the transactions with any
/// number of confirmations. Whether watch-only addresses count has no
/// default and is only sent where it is given.
pub fn get_balance(minconf: Option<usize>, include_watchonly: Option<bool>) -> (req: Request)
    ensures
        req@ == call(
            "getbalance"@,
            with_defaults(
                seq![Json::Str("*"@), opt_json(minconf), opt_json(include_watchonly)],
                seq![Json::Int(0), Json::Null],
            ),
        ),
{
    let args = vec![into_json("*"), opt_into_json(minconf), opt_into_json(include_watchonly)];
    let defaults = vec![into_json(0u8), null()];
    proof {
        assert(wire(args@) =~= seq![
            Json::Str("*"@),
            opt_json(minconf),
            opt_json(include_watchonly),
        ]);
        assert(wire(defaults@) =~= seq![Json::Int(0), Json::Null]);
        lemma_defaults_suffice(wire(args@), wire(defaults@));
    }
    Request::with_defaults("getbalance", args, defaults)
}

/// A new address of the wallet.
pub fn get_new_address() -> (req: Request)
    ensures
        req@ == call("getnewaddress"@, seq![]),
{
    let args = Vec::new();
    assert(wire(args@) =~= seq![]);
    Request::new("getnewaddress", args)
}

/// A new address of the wallet for change.
pub fn get_raw_change_address() -> (req: Request)
    ensures
        req@ == call("getrawchangeaddress"@, seq![]),
{
    let args = Vec::new();
    assert(wire(args@) =~= seq![]);
    Request::new("getrawchangeaddress", args)
}

/// What `address` has received: by default in transactions with at least
/// one confirmation.
pub fn get_received_by_address(address: &Address, minconf: Option<usize>) -> (req: Request)
    ensures
        req@ == call(
            "getreceivedbyaddress"@,
            with_defaults(seq![Json::Str(address.text@), opt_json(minconf)], seq![Json::Int(1)]),
        ),
{
    let args = vec![into_json(address), opt_into_json(minconf)];
    let defaults = vec![into_json(1u8)];
    proof {
        assert(wire(args@) =~= seq![Json::Str(address.text@), opt_json(minconf)]);
        assert(wire(defaults@) =~= seq![Json::Int(1)]);
        lemma_defaults_suffice(wire(args@), wire(defaults@));
    }
    Request::with_defaults("getreceivedbyaddress", args, defaults)
}

/// The transaction `txid` as the wallet knows it.
pub fn get_transaction(txid: &Txid, include_watch_only: Option<bool>) -> (req: Request)
    ensures
        req@ == call(
            "gettransaction"@,
            with_defaults(
                seq![Json::Str(txid_text(*txid)), opt_json(include_watch_only)],
                seq![Json::Null],
            ),
        ),
{
    let args = vec![into_json(txid), opt_into_json(include_watch_only)];
    let defaults = vec![null()];
    proof {
        assert(wire(args@) =~= seq![Json::Str(txid_text(*txid)), opt_json(include_watch_only)]);
        assert(wire(defaults@) =~= seq![Json::Null]);
        lemma_defaults_suffice(wire(args@), wire(defaults@));
    }
    Request::with_defaults("gettransaction", args, defaults)
}

/// Lets the wallet watch `address`: by default without a label.
pub fn import_address(
    address: &Address,
    label: Option<&str>,
    rescan: Option<bool>,
) -> (req: Request)
    ensures
        req@ == call(
            "importaddress"@,
            with_defaults(
                seq![Json::Str(address.text@), opt_json(label), opt_json(rescan)],
                seq![Json::Str(""@), Json::Null],
            ),
        ),
{
    let args = vec![into_json(address), opt_into_json(label), opt_into_json(rescan)];
    let defaults = vec![into_json(""), null()];
    proof {
        assert(wire(args@) =~= seq![Json::Str(address.text@), opt_json(label), opt_json(rescan)]);
        assert(wire(defaults@) =~= seq![Json::Str(""@), Json::Null]);
        lemma_defaults_suffice(wire(args@), wire(defaults@));
    }
    Request::with_defaults("importaddress", args, defaults)
}

/// Adds the private key `privkey`, written as the wallet exports it, to the
/// wallet: by default without a label.
pub fn import_private_key(
    privkey: &str,
    label: Option<&str>,
    rescan: Option<bool>,
) -> (req: Request)
    ensures
        req@ == call(
            "importprivkey"@,
            with_defaults(
                seq![Json::Str(privkey@), opt_json(label), opt_json(rescan)],
                seq![Json::Str(""@), Json::Null],
            ),
        ),
{
    let args = vec![into_json(privkey), opt_into_json(label), opt_into_json(rescan)];
    let defaults = vec![into_json(""), null()];
    proof {
        assert(wire(args@) =~= seq![Json::Str(privkey@), opt_json(label), opt_json(rescan)]);
        assert(wire(defaults@) =~= seq![Json::Str(""@), Json::Null]);
        lemma_defaults_suffice(wire(args@), wire(defaults@));
    }
    Request::with_defaults("importprivkey", args, defaults)
}

/// Fills the pool of keys, up to `newsize` where it is given.
pub fn keypool_refill(newsize: Option<usize>) -> (req: Request)
    ensures
        req@ == call("keypoolrefill"@, with_defaults(seq![opt_json(newsize)], seq![Json::Null])),
{
    let args = vec![opt_into_json(newsize)];
    let defaults = vec![null()];
    proof {
        assert(wire(args@) =~= seq![opt_json(newsize)]);
        assert(wire(defaults@) =~= seq![Json::Null]);
        lemma_defaults_suffice(wire(args@), wire(defaults@));
    }
    Request::with_defaults("keypoolrefill", args, defaults)
}

/// The outputs that are locked against spending.
pub fn list_lock_unspent() -> (req: Request)
    ensures
        req@ == call("listlockunspent"@, seq![]),
{
    let args = Vec::new();
    assert(wire(args@) =~= seq![]);
    Request::new("listlockunspent", args)
}

/// What each address has received: by default in transactions with at least
/// one confirmation.
///
/// Whether empty addresses are listed has no default that could be sent in
/// its place, so a caller that gives `include_watch_only` gives
/// `include_empty` too.
pub fn list_received_by_address(
    minconf: Option<usize>,
    include_empty: Option<bool>,
    include_watch_only: Option<bool>,
) -> (req: Request)
    requires
        include_watch_only is Some ==> include_empty is Some,
    ensures
        req@ == call(
            "listreceivedbyaddress"@,
            with_defaults(
                seq![opt_json(minconf), opt_json(include_empty), opt_json(include_watch_only)],
                seq![Json::Int(1), Json::Null, Json::Null],
            ),
        ),
{
    let args = vec![
        opt_into_json(minconf),
        opt_into_json(include_empty),
        opt_into_json(include_watch_only),
    ];
    let defaults = vec![into_json(1u8), null(), null()];
    proof {
        assert(wire(args@) =~= seq![
            opt_json(minconf),
            opt_json(include_empty),
            opt_json(include_watch_only),
        ]);
        assert(wire(defaults@) =~= seq![Json::Int(1), Json::Null, Json::Null]);
        lemma_defaults_suffice(wire(args@), wire(defaults@));
    }
    Request::with_defaults("listreceivedbyaddress", args, defaults)
}

/// The transactions since the block `blockhash`: by default those that the
/// first confirmation suffices for.
///
/// The block has no default that could be sent in its place, so a caller
/// that gives one of the other parameters gives `blockhash` too.
pub fn list_since_block(
    blockhash: Option<&BlockHash>,
    target_confirmations: Option<usize>,
    include_watch_only: Option<bool>,
) -> (req: Request)
    requires
        target_confirmations is Some || include_watch_only is Some ==> blockhash is Some,
    ensures
        req@ == call(
            "listsinceblock"@,
            with_defaults(
                seq![
                    opt_json(blockhash),
                    opt_json(target_confirmations),
                    opt_json(include_watch_only),
                ],
                seq![Json::Null, Json::Int(1), Json::Null],
            ),
        ),
{
    let args = vec![
        opt_into_json(blockhash),
        opt_into_json(target_confirmations),
        opt_into_json(include_watch_only),
    ];
    let defaults = vec![null(), into_json(1u8), null()];
    proof {
        assert(wire(args@) =~= seq![
            opt_json(blockhash),
            opt_json(target_confirmations),
            opt_json(include_watch_only),
        ]);
        assert(wire(defaults@) =~= seq![Json::Null, Json::Int(1), Json::Null]);
        lemma_defaults_suffice(wire(args@), wire(defaults@));
    }
    Request::with_defaults("listsinceblock", args, defaults)
}

/// The latest transactions of the wallet: by default ten of them, starting
/// with the newest.
pub fn list_transactions(
    count: Option<u32>,
    from: Option<u32>,
    include_watch_only: Option<bool>,
) -> (req: Request)
    ensures
        req@ == call(
            "listtransactions"@,
            with_defaults(
                seq![opt_json(count), opt_json(from), opt_json(include_watch_only)],
                seq![Json::Int(10), Json::Int(0), Json::Null],
            ),
        ),
{
    let args = vec![opt_into_json(count), opt_into_json(from), opt_into_json(include_watch_only)];
    let defaults = vec![into_json(10u8), into_json(0u8), null()];
    proof {
        assert(wire(args@) =~= seq![
            opt_json(count),
            opt_json(from),
            opt_json(include_watch_only),
        ]);
        assert(wire(defaults@) =~= seq![Json::Int(10), Json::Int(0), Json::Null]);
        lemma_defaults_suffice(wire(args@), wire(defaults@));
    }
    Request::with_defaults("listtransactions", args, defaults)
}

/// The unspent outputs of the wallet: by default those with up to 9999999
/// confirmations, of all addresses.
pub fn list_unspent(
    minconf: Option<usize>,
    maxconf: Option<usize>,
    addresses: Option<&Vec<Address>>,
) -> (req: Request)
    ensures
        req@ == call(
            "listunspent"@,
            with_defaults(
                seq![opt_json(minconf), opt_json(maxconf), opt_json(addresses)],
                seq![Json::Int(0), Json::Int(9999999), Json::Array(seq![])],
            ),
        ),
{
    let args = vec![opt_into_json(minconf), opt_into_json(maxconf), opt_into_json(addresses)];
    let defaults = vec![into_json(0u8), into_json(9999999u32), empty_arr()];
    proof {
        assert(wire(args@) =~= seq![opt_json(minconf), opt_json(maxconf), opt_json(addresses)]);
        assert(wire(defaults@) =~= seq![Json::Int(0), Json::Int(9999999), Json::Array(seq![])]);
        lemma_defaults_suffice(wire(args@), wire(defaults@));
    }
    Request::with_defaults("listunspent", args, defaults)
}

/// An array without items.
pub fn empty_arr() -> (v: Value)
    ensures
        json_of(v) == Json::Array(seq![]),
{
    let items: Vec<Value> = Vec::new();
    assert(wire(items@) =~= seq![]);
    from_vec(items)
}

/// Locks `outputs` against spending.
pub fn lock_unspent(outputs: &Vec<JsonOutPoint>) -> (req: Request)
    ensures
        req@ == call("lockunspent"@, seq![Json::Bool(false), Json::Array(json_list(outputs@))]),
{
    let args = vec![into_json(false), into_json(outputs)];
    assert(wire(args@) =~= seq![Json::Bool(false), Json::Array(json_list(outputs@))]);
    Request::new("lockunspent", args)
}

/// Frees `outputs` for spending again.
pub fn unlock_unspent(outputs: &Vec<JsonOutPoint>) -> (req: Request)
    ensures
        req@ == call("lockunspent"@, seq![Json::Bool(true), Json::Array(json_list(outputs@))]),
{
    let args = vec![into_json(true), into_json(outputs)];
    assert(wire(args@) =~= seq![Json::Bool(true), Json::Array(json_list(outputs@))]);
    Request::new("lockunspent", args)
}

/// Sends the wallet's transactions again that are in no block yet.
pub fn resend_wallet_transactions() -> (req: Request)
    ensures
        req@ == call("resendwallettransactions"@, seq![]),
{
    let args = Vec::new();
    assert(wire(args@) =~= seq![]);
    Request::new("resendwallettransactions", args)
}

/// Pays several addresses at once. `amounts` holds each address with its
/// amount as it travels; where an address occurs twice the later amount
/// counts.
///
/// By default the coins spent have one confirmation, the comment is empty,
/// and no address has the fee taken from its amount.
pub fn send_many(
    amounts: &Vec<(String, Value)>,
    minconf: Option<u16>,
    comment: Option<&str>,
    subtract_fee_from_amount: Option<&Vec<Address>>,
) -> (req: Request)
    ensures
        req@ == call(
            "sendmany"@,
            with_defaults(
                seq![
                    Json::Str(""@),
                    Json::Object(members(amounts@)),
                    opt_json(minconf),
                    opt_json(comment),
                    opt_json(subtract_fee_from_amount),
                ],
                seq![Json::Int(1), Json::Str(""@), Json::Array(seq![])],
            ),
        ),
{
    let args = vec![
        into_json(""),
        object_from(amounts),
        opt_into_json(minconf),
        opt_into_json(comment),
        opt_into_json(subtract_fee_from_amount),
    ];
    let defaults = vec![into_json(1u8), into_json(""), empty_arr()];
    proof {
        assert(wire(args@) =~= seq![
            Json::Str(""@),
            Json::Object(members(amounts@)),
            opt_json(minconf),
            opt_json(comment),
            opt_json(subtract_fee_from_amount),
        ]);
        assert(wire(defaults@) =~= seq![Json::Int(1), Json::Str(""@), Json::Array(seq![])]);
        lemma_defaults_suffice(wire(args@), wire(defaults@));
    }
    Request::with_defaults("sendmany", args, defaults)
}

/// Pays `amount`, as it travels, to `address`.
///
/// By default the coins spent have one confirmation, both comments are
/// empty, and the fee is not taken from the amount.
pub fn send_to_address(
    address: &Address,
    amount: Value,
    minconf: Option<u32>,
    comment: Option<&str>,
    comment_to: Option<&str>,
    subtract_fee_from_amount: Option<bool>,
) -> (req: Request)
    ensures
        req@ == call(
            "sendtoaddress"@,
            with_defaults(
                seq![
                    Json::Str(address.text@),
                    json_of(amount),
                    opt_json(minconf),
                    opt_json(comment),
                    opt_json(comment_to),
                    opt_json(subtract_fee_from_amount),
                ],
                seq![Json::Int(1), Json::Str(""@), Json::Str(""@), Json::Bool(false)],
            ),
        ),
{
    let ghost sum = json_of(amount);
    let args = vec![
        into_json(address),
        amount,
        opt_into_json(minconf),
        opt_into_json(comment),
        opt_into_json(comment_to),
        opt_into_json(subtract_fee_from_amount),
    ];
    let defaults = vec![into_json(1u8), into_json(""), into_json(""), into_json(false)];
    proof {
        assert(wire(args@) =~= seq![
            Json::Str(address.text@),
            sum,
            opt_json(minconf),
            opt_json(comment),
            opt_json(comment_to),
            opt_json(subtract_fee_from_amount),
        ]);
        assert(wire(defaults@) =~= seq![
            Json::Int(1),
            Json::Str(""@),
            Json::Str(""@),
            Json::Bool(false),
        ]);
        lemma_defaults_suffice(wire(args@), wire(defaults@));
    }
    Request::with_defaults("sendtoaddress", args, defaults)
}

/// Signs `message` with the private key of `address`.
pub fn sign_message(address: &Address, message: &str) -> (req: Request)
    ensures
        req@ == call("signmessage"@, seq![Json::Str(address.text@), Json::Str(message@)]),
{
    let args = vec![into_json(address), into_json(message)];
    assert(wire(args@) =~= seq![Json::Str(address.text@), Json::Str(message@)]);
    Request::new("signmessage", args)
}

/// Balance of the wallet in transactions without confirmation.
pub fn get_unconfirmed_balance() -> (req: Request)
    ensures
        req@ == call("getunconfirmedbalance"@, seq![]),
{
    let args = Vec::new();
    assert(wire(args@) =~= seq![]);
    Request::new("getunconfirmedbalance", args)
}

/// State of the wallet.
pub fn get_wallet_info() -> (req: Request)
    ensures
        req@ == call("getwalletinfo"@, seq![]),
{
    let args = Vec::new();
    assert(wire(args@) =~= seq![]);
    Request::new("getwalletinfo", args)
}

/// The addresses with the largest balance, `top` of them where it is given.
pub fn get_snapshot(top: Option<String>) -> (req: Request)
    ensures
        req@ == call("getsnapshot"@, with_defaults(seq![opt_json(top)], seq![Json::Null])),
{
    let ghost wanted = opt_json(top);
    let args = vec![opt_into_json(top)];
    let defaults = vec![null()];
    proof {
        assert(wire(args@) =~= seq![wanted]);
        assert(wire(defaults@) =~= seq![Json::Null]);
        lemma_defaults_suffice(wire(args@), wire(defaults@));
    }
    Request::with_defaults("getsnapshot", args, defaults)
}

/// What is known of the token `token_id`.
pub fn tokenv2info(token_id: &str) -> (req: Request)
    ensures
        req@ == call("tokenv2info"@, seq![Json::Str(token_id@)]),
{
    let args = vec![into_json(token_id)];
    assert(wire(args@) =~= seq![Json::Str(token_id@)]);
    Request::new("tokenv2info", args)
}

} // verus!
