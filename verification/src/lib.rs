//! The calls of a Komodo daemon's JSON-RPC interface, built and proved.
//!
//! Each call is a function that takes typed parameters, some of them
//! optional, and returns the request to send: the name of the remote
//! procedure and its positional arguments, with omitted optional arguments
//! cut off at the end or filled from the call's defaults. Sending the
//! request and reading the answer is left to the caller.

use vstd::prelude::*;

pub mod chain;
pub mod config;
pub mod decimal;
pub mod defaults;
pub mod encode;
pub mod error;
pub mod rawtx;
pub mod request;
pub mod text;
pub mod types;
pub mod wallet;
pub mod wire;

verus! {

/// Largest number of signers that a multi-signature address can have.
pub const MAX_MULTISIG_SIGNERS: u8 = 15;

} // verus!
