use bitcoin::{BlockHash, Txid};
use komodo_rpc::chain;
use komodo_rpc::encode::{into_json, opt_into_json};
use komodo_rpc::error::Error;
use komodo_rpc::rawtx;
use komodo_rpc::request::Request;
use komodo_rpc::types::{
    object_from, Address, AddressType, CreateRawTransactionInput, JsonOutPoint, PubkeyOrAddress,
};
use komodo_rpc::wallet;
use komodo_rpc::MAX_MULTISIG_SIGNERS;
use serde_json::Value;
use std::str::FromStr;

const TXID: &str = "4a5e1e4baab89f3a32518a88c31bc87f618f76673e2cc77ab2127b7afdeda33b";
const BLOCK: &str = "000000000019d6689c085ae165831e934ff763ae46a2a6c172b3f1b60a8ce26f";

fn txid() -> Txid {
    Txid::from_str(TXID).unwrap()
}

fn block() -> BlockHash {
    BlockHash::from_str(BLOCK).unwrap()
}

fn s(text: &str) -> Value {
    Value::from(text)
}

fn n(number: u64) -> Value {
    Value::from(number)
}

fn address(text: &str) -> Address {
    Address { addr_type: AddressType::Transparent, text: text.to_string() }
}

fn object(members: Vec<(&str, Value)>) -> Value {
    let mut map = serde_json::Map::new();
    for (key, value) in members {
        map.insert(key.to_string(), value);
    }
    Value::Object(map)
}

fn expect(req: Request, method: &str, args: Vec<Value>) {
    assert_eq!(req.method, method);
    assert_eq!(req.args, args);
}

#[test]
fn encoder_gives_each_type_its_json_form() {
    assert_eq!(into_json(true), Value::Bool(true));
    assert_eq!(into_json(false), Value::Bool(false));
    assert_eq!(into_json(7u8), n(7));
    assert_eq!(into_json(65535u16), n(65535));
    assert_eq!(into_json(9999999u32), n(9999999));
    assert_eq!(into_json(u64::MAX), n(u64::MAX));
    assert_eq!(into_json(12usize), n(12));
    assert_eq!(into_json(-5i64), Value::from(-5i64));
    assert_eq!(into_json(5i64), n(5));
    assert_eq!(into_json("text"), s("text"));
    assert_eq!(into_json(String::from("owned")), s("owned"));
    assert_eq!(into_json(txid()), s(TXID));
    assert_eq!(into_json(&block()), s(BLOCK));
    assert_eq!(into_json(vec![1u32, 2, 3]), Value::Array(vec![n(1), n(2), n(3)]));
    assert_eq!(into_json(Vec::<u32>::new()), Value::Array(vec![]));
}

#[test]
fn encoder_agrees_with_serde() {
    assert_eq!(into_json(txid()), serde_json::to_value(txid()).unwrap());
    assert_eq!(into_json(block()), serde_json::to_value(block()).unwrap());
    assert_eq!(into_json(288u32), serde_json::to_value(288).unwrap());
    assert_eq!(into_json(0i64), serde_json::to_value(0i64).unwrap());
    assert_eq!(into_json("x"), serde_json::to_value("x").unwrap());
    assert_eq!(into_json(vec![txid()]), serde_json::to_value(vec![txid()]).unwrap());
}

#[test]
fn omitted_parameter_becomes_null() {
    assert_eq!(opt_into_json(None::<u32>), Value::Null);
    assert_eq!(opt_into_json(Some(4u32)), n(4));
    assert_eq!(opt_into_json(None::<&str>), Value::Null);
    assert_eq!(opt_into_json(Some("")), s(""));
    assert_eq!(opt_into_json(Some(false)), Value::Bool(false));
}

#[test]
fn calls_without_optional_parameters() {
    expect(chain::coin_supply("100"), "coinsupply", vec![s("100")]);
    expect(chain::get_best_blockhash(), "getbestblockhash", vec![]);
    expect(chain::get_block(&block()), "getblock", vec![s(BLOCK)]);
    expect(chain::get_blockchain_info(), "getblockchaininfo", vec![]);
    expect(chain::get_block_count(), "getblockcount", vec![]);
    expect(chain::get_block_hash(1234), "getblockhash", vec![n(1234)]);
    expect(
        chain::get_blockheader_verbose(&block()),
        "getblockheader",
        vec![s(BLOCK), Value::Bool(true)],
    );
    expect(chain::get_blockheader(&block()), "getblockheader", vec![s(BLOCK), Value::Bool(false)]);
    expect(chain::get_chaintips(), "getchaintips", vec![]);
    expect(chain::get_difficulty(), "getdifficulty", vec![]);
    expect(chain::get_mempool_info(), "getmempoolinfo", vec![]);
    expect(chain::get_raw_mempool(), "getrawmempool", vec![]);
    expect(chain::get_raw_mempool_verbose(), "getrawmempool", vec![Value::Bool(true)]);
    expect(chain::get_txout_set_info(), "gettxoutsetinfo", vec![]);
    expect(chain::miner_ids(1_000_000), "minerids", vec![s("1000000")]);
    expect(chain::notaries(0), "notaries", vec![s("0")]);
    expect(chain::verify_txout_proof("abcd"), "verifytxoutproof", vec![s("abcd")]);
    expect(
        rawtx::get_raw_transaction_verbose(&txid()),
        "getrawtransaction",
        vec![s(TXID), n(1)],
    );
    expect(rawtx::get_raw_transaction(&txid()), "getrawtransaction", vec![s(TXID), n(0)]);
    expect(rawtx::ping(), "ping", vec![]);
    expect(wallet::backup_wallet("/tmp/w.dat"), "backupwallet", vec![s("/tmp/w.dat")]);
    expect(wallet::clean_wallet_transactions(), "cleanwallettransactions", vec![]);
    expect(wallet::convert_passphrase("secret"), "convertpassphrase", vec![s("secret")]);
    expect(wallet::get_new_address(), "getnewaddress", vec![]);
    expect(wallet::get_raw_change_address(), "getrawchangeaddress", vec![]);
    expect(wallet::list_lock_unspent(), "listlockunspent", vec![]);
    expect(wallet::resend_wallet_transactions(), "resendwallettransactions", vec![]);
    expect(
        wallet::sign_message(&address("RAddr"), "hello"),
        "signmessage",
        vec![s("RAddr"), s("hello")],
    );
    expect(wallet::get_unconfirmed_balance(), "getunconfirmedbalance", vec![]);
    expect(wallet::get_wallet_info(), "getwalletinfo", vec![]);
    expect(wallet::tokenv2info("tok"), "tokenv2info", vec![s("tok")]);
}

#[test]
fn heights_travel_as_decimal_text() {
    expect(chain::miner_ids(u64::MAX), "minerids", vec![s(&u64::MAX.to_string())]);
    expect(chain::notaries(10), "notaries", vec![s("10")]);
    expect(chain::notaries(909), "notaries", vec![s("909")]);
}

#[test]
fn get_chain_tx_stats_sends_what_was_given() {
    expect(chain::get_chain_tx_stats(None, None), "getchaintxstats", vec![]);
    expect(chain::get_chain_tx_stats(Some(10), None), "getchaintxstats", vec![n(10)]);
    expect(
        chain::get_chain_tx_stats(Some(10), Some(block())),
        "getchaintxstats",
        vec![n(10), s(BLOCK)],
    );
}

#[test]
fn get_txout_and_proof() {
    expect(chain::get_txout(txid(), 1, None), "gettxout", vec![s(TXID), n(1)]);
    expect(
        chain::get_txout(txid(), 0, Some(true)),
        "gettxout",
        vec![s(TXID), n(0), Value::Bool(true)],
    );
    expect(
        chain::get_txout_proof(vec![txid()], None),
        "gettxoutproof",
        vec![Value::Array(vec![s(TXID)])],
    );
    expect(
        chain::get_txout_proof(vec![txid(), txid()], Some(block())),
        "gettxoutproof",
        vec![Value::Array(vec![s(TXID), s(TXID)]), s(BLOCK)],
    );
}

#[test]
fn verify_chain_fills_the_level_when_only_the_count_is_given() {
    expect(chain::verify_chain(None, None), "verifychain", vec![]);
    expect(chain::verify_chain(Some(4), None), "verifychain", vec![n(4)]);
    expect(chain::verify_chain(None, Some(100)), "verifychain", vec![n(3), n(100)]);
    expect(chain::verify_chain(Some(1), Some(2)), "verifychain", vec![n(1), n(2)]);
}

#[test]
fn createrawtransaction_builds_inputs_and_outputs() {
    let inputs = vec![
        CreateRawTransactionInput { txid: txid(), vout: 1, sequence: None },
        CreateRawTransactionInput { txid: txid(), vout: 2, sequence: Some(99) },
    ];
    let outputs = vec![
        ("RAddr1".to_string(), Value::from(1.5)),
        ("RAddr2".to_string(), Value::from(0.25)),
        ("RAddr1".to_string(), Value::from(3.0)),
    ];
    let wire_inputs = Value::Array(vec![
        object(vec![("txid", s(TXID)), ("vout", n(1))]),
        object(vec![("txid", s(TXID)), ("vout", n(2)), ("sequence", n(99))]),
    ]);
    let wire_outputs =
        object(vec![("RAddr1", Value::from(3.0)), ("RAddr2", Value::from(0.25))]);
    expect(
        rawtx::createrawtransaction(&inputs, &outputs, None, None),
        "createrawtransaction",
        vec![wire_inputs.clone(), wire_outputs.clone()],
    );
    expect(
        rawtx::createrawtransaction(&inputs, &outputs, Some(-1), None),
        "createrawtransaction",
        vec![wire_inputs.clone(), wire_outputs.clone(), Value::from(-1i64)],
    );
    expect(
        rawtx::createrawtransaction(&inputs, &outputs, None, Some(500)),
        "createrawtransaction",
        vec![wire_inputs, wire_outputs, n(0), n(500)],
    );
}

#[test]
fn objects_hold_the_later_of_two_equal_keys() {
    assert_eq!(object_from(&vec![]), object(vec![]));
    assert_eq!(
        object_from(&vec![("a".to_string(), n(1)), ("b".to_string(), n(2)), ("a".to_string(), n(3))]),
        object(vec![("a", n(3)), ("b", n(2))])
    );
}

#[test]
fn sixteen_signers_are_rejected() {
    let keys = vec![PubkeyOrAddress::Pubkey("02abcd")];
    match wallet::add_multi_sig_address(16, &keys) {
        Err(Error::KMDError(message)) => {
            assert_eq!(message, "No more than 15 signers in a msig allowed")
        }
        _ => panic!("sixteen signers must be rejected"),
    }
    assert!(matches!(wallet::add_multi_sig_address(255, &keys), Err(Error::KMDError(_))));
    assert_eq!(MAX_MULTISIG_SIGNERS, 15);
}

#[test]
fn up_to_fifteen_signers_are_sent() {
    let owner = address("RAddr");
    let keys = vec![PubkeyOrAddress::Pubkey("02abcd"), PubkeyOrAddress::Address(&owner)];
    expect(
        wallet::add_multi_sig_address(15, &keys).unwrap(),
        "addmultisigaddress",
        vec![n(15), Value::Array(vec![s("02abcd"), s("RAddr")])],
    );
    expect(
        wallet::add_multi_sig_address(0, &vec![]).unwrap(),
        "addmultisigaddress",
        vec![n(0), Value::Array(vec![])],
    );
}

#[test]
fn dump_privkey_refuses_shielded_addresses() {
    let shielded = Address { addr_type: AddressType::Shielded, text: "zs1abc".to_string() };
    match wallet::dump_privkey(shielded) {
        Err(Error::KMDError(message)) => {
            assert_eq!(message, "no support for shielded addresses for this call")
        }
        _ => panic!("a shielded address must be rejected"),
    }
    expect(wallet::dump_privkey(address("RAddr")).unwrap(), "dumpprivkey", vec![s("RAddr")]);
}

#[test]
fn get_balance_counts_everything_by_default() {
    expect(wallet::get_balance(None, None), "getbalance", vec![s("*")]);
    expect(wallet::get_balance(Some(6), None), "getbalance", vec![s("*"), n(6)]);
    expect(
        wallet::get_balance(None, Some(true)),
        "getbalance",
        vec![s("*"), n(0), Value::Bool(true)],
    );
}

#[test]
fn wallet_calls_with_one_optional_parameter() {
    let owner = address("RAddr");
    expect(wallet::get_received_by_address(&owner, None), "getreceivedbyaddress", vec![s("RAddr")]);
    expect(
        wallet::get_received_by_address(&owner, Some(0)),
        "getreceivedbyaddress",
        vec![s("RAddr"), n(0)],
    );
    expect(wallet::get_transaction(&txid(), None), "gettransaction", vec![s(TXID)]);
    expect(
        wallet::get_transaction(&txid(), Some(false)),
        "gettransaction",
        vec![s(TXID), Value::Bool(false)],
    );
    expect(wallet::keypool_refill(None), "keypoolrefill", vec![]);
    expect(wallet::keypool_refill(Some(100)), "keypoolrefill", vec![n(100)]);
    expect(wallet::get_snapshot(None), "getsnapshot", vec![]);
    expect(wallet::get_snapshot(Some("10".to_string())), "getsnapshot", vec![s("10")]);
}

#[test]
fn imports_fill_the_label_when_only_rescan_is_given() {
    let owner = address("RAddr");
    expect(wallet::import_address(&owner, None, None), "importaddress", vec![s("RAddr")]);
    expect(
        wallet::import_address(&owner, Some("mine"), None),
        "importaddress",
        vec![s("RAddr"), s("mine")],
    );
    expect(
        wallet::import_address(&owner, None, Some(false)),
        "importaddress",
        vec![s("RAddr"), s(""), Value::Bool(false)],
    );
    expect(
        wallet::import_private_key("Uxyz", None, Some(true)),
        "importprivkey",
        vec![s("Uxyz"), s(""), Value::Bool(true)],
    );
    expect(wallet::import_private_key("Uxyz", None, None), "importprivkey", vec![s("Uxyz")]);
}

#[test]
fn listings() {
    expect(wallet::list_received_by_address(None, None, None), "listreceivedbyaddress", vec![]);
    expect(
        wallet::list_received_by_address(None, Some(true), None),
        "listreceivedbyaddress",
        vec![n(1), Value::Bool(true)],
    );
    expect(
        wallet::list_received_by_address(Some(2), Some(true), Some(false)),
        "listreceivedbyaddress",
        vec![n(2), Value::Bool(true), Value::Bool(false)],
    );
    expect(wallet::list_since_block(None, None, None), "listsinceblock", vec![]);
    expect(
        wallet::list_since_block(Some(&block()), None, Some(true)),
        "listsinceblock",
        vec![s(BLOCK), n(1), Value::Bool(true)],
    );
    expect(wallet::list_transactions(None, None, None), "listtransactions", vec![]);
    expect(
        wallet::list_transactions(None, Some(5), None),
        "listtransactions",
        vec![n(10), n(5)],
    );
    expect(
        wallet::list_transactions(None, None, Some(true)),
        "listtransactions",
        vec![n(10), n(0), Value::Bool(true)],
    );
    let watched = vec![address("RAddr1"), address("RAddr2")];
    expect(wallet::list_unspent(None, None, None), "listunspent", vec![]);
    expect(
        wallet::list_unspent(None, Some(5), None),
        "listunspent",
        vec![n(0), n(5)],
    );
    expect(
        wallet::list_unspent(None, None, Some(&watched)),
        "listunspent",
        vec![n(0), n(9999999), Value::Array(vec![s("RAddr1"), s("RAddr2")])],
    );
    assert_eq!(wallet::empty_arr(), Value::Array(vec![]));
}

#[test]
fn locking_and_unlocking() {
    let outputs = vec![JsonOutPoint { txid: txid(), vout: 3 }];
    let wire_outputs = Value::Array(vec![object(vec![("txid", s(TXID)), ("vout", n(3))])]);
    expect(
        wallet::lock_unspent(&outputs),
        "lockunspent",
        vec![Value::Bool(false), wire_outputs.clone()],
    );
    expect(wallet::unlock_unspent(&outputs), "lockunspent", vec![Value::Bool(true), wire_outputs]);
}

#[test]
fn sending() {
    let owner = address("RAddr");
    let amounts = vec![("RAddr1".to_string(), Value::from(1.0))];
    let wire_amounts = object(vec![("RAddr1", Value::from(1.0))]);
    expect(
        wallet::send_many(&amounts, None, None, None),
        "sendmany",
        vec![s(""), wire_amounts.clone()],
    );
    expect(
        wallet::send_many(&amounts, None, None, Some(&vec![address("RAddr1")])),
        "sendmany",
        vec![s(""), wire_amounts.clone(), n(1), s(""), Value::Array(vec![s("RAddr1")])],
    );
    expect(
        wallet::send_many(&amounts, Some(3), Some("rent"), None),
        "sendmany",
        vec![s(""), wire_amounts, n(3), s("rent")],
    );
    expect(
        wallet::send_to_address(&owner, Value::from(0.5), None, None, None, None),
        "sendtoaddress",
        vec![s("RAddr"), Value::from(0.5)],
    );
    expect(
        wallet::send_to_address(&owner, Value::from(0.5), None, None, None, Some(true)),
        "sendtoaddress",
        vec![s("RAddr"), Value::from(0.5), n(1), s(""), s(""), Value::Bool(true)],
    );
    expect(
        wallet::send_to_address(&owner, Value::from(0.5), None, Some("a"), Some("b"), None),
        "sendtoaddress",
        vec![s("RAddr"), Value::from(0.5), n(1), s("a"), s("b")],
    );
}

#[test]
fn requests_are_built_by_hand_too() {
    expect(Request::new("ping", vec![]), "ping", vec![]);
    expect(
        Request::with_defaults("x", vec![s("a"), Value::Null, n(2)], vec![n(7), n(8)]),
        "x",
        vec![s("a"), n(7), n(2)],
    );
}
