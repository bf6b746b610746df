//! Calls that ask about the block chain.

use crate::decimal::{decimal, to_decimal};
use crate::defaults::{lemma_defaults_suffice, with_defaults};
use crate::encode::{into_json, json_list, opt_into_json, opt_json};
use crate::request::{call, Request};
use crate::wire::{block_hash_text, null, txid_text, wire, Json};
use bitcoin::{BlockHash, Txid};
use vstd::prelude::*;

verus! {

/// Supply of coins at `height`.
pub fn coin_supply(height: &str) -> (req: Request)
    ensures
        req@ == call("coinsupply"@, seq![Json::Str(height@)]),
{
    let args = vec![into_json(height)];
    assert(wire(args@) =~= seq![Json::Str(height@)]);
    Request::new("coinsupply", args)
}

/// Hash of the best block.
pub fn get_best_blockhash() -> (req: Request)
    ensures
        req@ == call("getbestblockhash"@, seq![]),
{
    let args = Vec::new();
    assert(wire(args@) =~= seq![]);
    Request::new("getbestblockhash", args)
}

/// The block with the hash `hash`.
pub fn get_block(hash: &BlockHash) -> (req: Request)
    ensures
        req@ == call("getblock"@, seq![Json::Str(block_hash_text(*hash))]),
{
    let args = vec![into_json(hash)];
    assert(wire(args@) =~= seq![Json::Str(block_hash_text(*hash))]);
    Request::new("getblock", args)
}

/// State of the chain.
pub fn get_blockchain_info() -> (req: Request)
    ensures
        req@ == call("getblockchaininfo"@, seq![]),
{
    let args = Vec::new();
    assert(wire(args@) =~= seq![]);
    Request::new("getblockchaininfo", args)
}

/// Number of blocks in the best chain.
pub fn get_block_count() -> (req: Request)
    ensures
        req@ == call("getblockcount"@, seq![]),
{
    let args = Vec::new();
    assert(wire(args@) =~= seq![]);
    Request::new("getblockcount", args)
}

/// Hash of the block at `height`.
pub fn get_block_hash(height: u64) -> (req: Request)
    ensures
        req@ == call("getblockhash"@, seq![Json::Int(height as int)]),
{
    let args = vec![into_json(height)];
    assert(wire(args@) =~= seq![Json::Int(height as int)]);
    Request::new("getblockhash", args)
}

/// Header of the block `hash`, field by field.
pub fn get_blockheader_verbose(hash: &BlockHash) -> (req: Request)
    ensures
        req@ == call(
            "getblockheader"@,
            seq![Json::Str(block_hash_text(*hash)), Json::Bool(true)],
        ),
{
    let args = vec![into_json(hash), into_json(true)];
    assert(wire(args@) =~= seq![Json::Str(block_hash_text(*hash)), Json::Bool(true)]);
    Request::new("getblockheader", args)
}

/// Header of the block `hash`, as hexadecimal text.
pub fn get_blockheader(hash: &BlockHash) -> (req: Request)
    ensures
        req@ == call(
            "getblockheader"@,
            seq![Json::Str(block_hash_text(*hash)), Json::Bool(false)],
        ),
{
    let args = vec![into_json(hash), into_json(false)];
    assert(wire(args@) =~= seq![Json::Str(block_hash_text(*hash)), Json::Bool(false)]);
    Request::new("getblockheader", args)
}

/// Tips of all branches that the daemon knows.
pub fn get_chaintips() -> (req: Request)
    ensures
        req@ == call("getchaintips"@, seq![]),
{
    let args = Vec::new();
    assert(wire(args@) =~= seq![]);
    Request::new("getchaintips", args)
}

/// Statistics on the transactions of the chain: over the last `n` blocks,
/// up to the block `blockhash`.
///
/// Neither parameter has a default that could be sent in its place, so a
/// caller that gives `blockhash` gives `n` too.
pub fn get_chain_tx_stats(n: Option<u32>, blockhash: Option<BlockHash>) -> (req: Request)
    requires
        blockhash is Some ==> n is Some,
    ensures
        req@ == call(
            "getchaintxstats"@,
            with_defaults(seq![opt_json(n), opt_json(blockhash)], seq![Json::Null, Json::Null]),
        ),
{
    let args = vec![opt_into_json(n), opt_into_json(blockhash)];
    let defaults = vec![null(), null()];
    proof {
        assert(wire(args@) =~= seq![opt_json(n), opt_json(blockhash)]);
        assert(wire(defaults@) =~= seq![Json::Null, Json::Null]);
        lemma_defaults_suffice(wire(args@), wire(defaults@));
    }
    Request::with_defaults("getchaintxstats", args, defaults)
}

/// Difficulty of the proof of work.
pub fn get_difficulty() -> (req: Request)
    ensures
        req@ == call("getdifficulty"@, seq![]),
{
    let args = Vec::new();
    assert(wire(args@) =~= seq![]);
    Request::new("getdifficulty", args)
}

/// State of the memory pool.
pub fn get_mempool_info() -> (req: Request)
    ensures
        req@ == call("getmempoolinfo"@, seq![]),
{
    let args = Vec::new();
    assert(wire(args@) =~= seq![]);
    Request::new("getmempoolinfo", args)
}

/// Ids of the transactions in the memory pool.
pub fn get_raw_mempool() -> (req: Request)
    ensures
        req@ == call("getrawmempool"@, seq![]),
{
    let args = Vec::new();
    assert(wire(args@) =~= seq![]);
    Request::new("getrawmempool", args)
}

/// The transactions in the memory pool, each with what the pool knows of it.
pub fn get_raw_mempool_verbose() -> (req: Request)
    ensures
        req@ == call("getrawmempool"@, seq![Json::Bool(true)]),
{
    let args = vec![into_json(true)];
    assert(wire(args@) =~= seq![Json::Bool(true)]);
    Request::new("getrawmempool", args)
}

/// The unspent output `n_vout` of transaction `txid`; by default the memory
/// pool is not looked at.
pub fn get_txout(txid: Txid, n_vout: u32, include_mempool: Option<bool>) -> (req: Request)
    ensures
        req@ == call(
            "gettxout"@,
            with_defaults(
                seq![
                    Json::Str(txid_text(txid)),
                    Json::Int(n_vout as int),
                    opt_json(include_mempool),
                ],
                seq![Json::Bool(false)],
            ),
        ),
{
    let args = vec![into_json(txid), into_json(n_vout), opt_into_json(include_mempool)];
    let defaults = vec![into_json(false)];
    proof {
        assert(wire(args@) =~= seq![
            Json::Str(txid_text(txid)),
            Json::Int(n_vout as int),
            opt_json(include_mempool),
        ]);
        assert(wire(defaults@) =~= seq![Json::Bool(false)]);
        lemma_defaults_suffice(wire(args@), wire(defaults@));
    }
    Request::with_defaults("gettxout", args, defaults)
}

/// Proof that the transactions `txids` are in a block: in `blockhash`, or in
/// the block that the daemon finds them in.
pub fn get_txout_proof(txids: Vec<Txid>, blockhash: Option<BlockHash>) -> (req: Request)
    ensures
        req@ == call(
            "gettxoutproof"@,
            with_defaults(
                seq![Json::Array(json_list(txids@)), opt_json(blockhash)],
                seq![Json::Null],
            ),
        ),
{
    let args = vec![into_json(txids), opt_into_json(blockhash)];
    let defaults = vec![null()];
    proof {
        assert(wire(args@) =~= seq![Json::Array(json_list(txids@)), opt_json(blockhash)]);
        assert(wire(defaults@) =~= seq![Json::Null]);
        lemma_defaults_suffice(wire(args@), wire(defaults@));
    }
    Request::with_defaults("gettxoutproof", args, defaults)
}

/// Statistics on the set of unspent outputs.
pub fn get_txout_set_info() -> (req: Request)
    ensures
        req@ == call("gettxoutsetinfo"@, seq![]),
{
    let args = Vec::new();
    assert(wire(args@) =~= seq![]);
    Request::new("gettxoutsetinfo", args)
}

/// Who mined the blocks before `height`. The height travels as decimal text.
pub fn miner_ids(height: u64) -> (req: Request)
    ensures
        req@ == call("minerids"@, seq![Json::Str(decimal(height as nat))]),
{
    let args = vec![into_json(to_decimal(height))];
    assert(wire(args@) =~= seq![Json::Str(decimal(height as nat))]);
    Request::new("minerids", args)
}

/// The notaries at `height`. The height travels as decimal text.
pub fn notaries(height: u64) -> (req: Request)
    ensures
        req@ == call("notaries"@, seq![Json::Str(decimal(height as nat))]),
{
    let args = vec![into_json(to_decimal(height))];
    assert(wire(args@) =~= seq![Json::Str(decimal(height as nat))]);
    Request::new("notaries", args)
}

/// Checks the stored chain: by default at level 3, over the last 288 blocks.
pub fn verify_chain(checklevel: Option<u8>, numblocks: Option<u32>) -> (req: Request)
    ensures
        req@ == call(
            "verifychain"@,
            with_defaults(
                seq![opt_json(checklevel), opt_json(numblocks)],
                seq![Json::Int(3), Json::Int(288)],
            ),
        ),
{
    let args = vec![opt_into_json(checklevel), opt_into_json(numblocks)];
    let defaults = vec![into_json(3u8), into_json(288u32)];
    proof {
        assert(wire(args@) =~= seq![opt_json(checklevel), opt_json(numblocks)]);
        assert(wire(defaults@) =~= seq![Json::Int(3), Json::Int(288)]);
        lemma_defaults_suffice(wire(args@), wire(defaults@));
    }
    Request::with_defaults("verifychain", args, defaults)
}

/// The transactions that `proof` commits to.
pub fn verify_txout_proof(proof: &str) -> (req: Request)
    ensures
        req@ == call("verifytxoutproof"@, seq![Json::Str(proof@)]),
{
    let args = vec![into_json(proof)];
    assert(wire(args@) =~= seq![Json::Str(proof@)]);
    Request::new("verifytxoutproof", args)
}

} // verus!
