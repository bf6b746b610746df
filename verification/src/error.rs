//! The one error type that every failure is mapped to.

use jsonrpc::Error as RpcFailure;
use serde_json::Error as JsonFailure;
use vstd::prelude::*;
use vstd::std_specs::convert::FromSpecImpl;

verus! {

/// `jsonrpc::Error`, imported here as `RpcFailure`: carried through, never
/// looked into.
#[verifier::external_type_specification]
#[verifier::external_body]
pub struct ExRpcFailure(RpcFailure);

/// `std::io::Error`: carried through, never looked into.
#[verifier::external_type_specification]
#[verifier::external_body]
pub struct ExIoError(std::io::Error);

/// `serde_json::Error`, imported here as `JsonFailure`: carried through,
/// never looked into.
#[verifier::external_type_specification]
#[verifier::external_body]
pub struct ExJsonFailure(JsonFailure);

/// Why a text is not a port number.
#[derive(Clone, Copy, Debug, PartialEq, Eq, Structural)]
pub enum ParseIntError {
    /// The text is empty.
    Empty,
    /// The text holds something else than decimal digits behind an optional
    /// `+`, or nothing but the sign.
    InvalidDigit,
    /// The number does not fit in sixteen bits.
    PosOverflow,
}

impl ParseIntError {
    /// What went wrong, in words.
    pub fn message(&self) -> (words: &'static str)
        ensures
            words@ == match *self {
                ParseIntError::Empty => "cannot parse integer from empty string"@,
                ParseIntError::InvalidDigit => "invalid digit found in string"@,
                ParseIntError::PosOverflow => "number too large to fit in target type"@,
            },
    {
        match self {
            ParseIntError::Empty => "cannot parse integer from empty string",
            ParseIntError::InvalidDigit => "invalid digit found in string",
            ParseIntError::PosOverflow => "number too large to fit in target type",
        }
    }
}

/// A failure of this library or of one of its collaborators.
#[derive(Debug)]
pub enum Error {
    /// The transport failed, or the daemon answered with an error.
    JsonRPC(RpcFailure),
    /// The file system could not be read.
    IOError(std::io::Error),
    /// The configuration file holds a port that is no number.
    ParseIntError(ParseIntError),
    /// The configuration file was not found or lacks a required key.
    InvalidConfigFile,
    /// A value could not be encoded for the wire, or an answer did not have
    /// the expected shape.
    Json(JsonFailure),
    /// A call was rejected locally, before anything was sent.
    KMDError(String),
    /// An amount in an answer could not be read; the text says why.
    InvalidAmount(String),
}

impl From<RpcFailure> for Error {
    fn from(e: RpcFailure) -> (err: Error) {
        Error::JsonRPC(e)
    }
}

impl FromSpecImpl<RpcFailure> for Error {
    open spec fn obeys_from_spec() -> bool {
        true
    }

    open spec fn from_spec(e: RpcFailure) -> Error {
        Error::JsonRPC(e)
    }
}

impl From<std::io::Error> for Error {
    fn from(e: std::io::Error) -> (err: Error) {
        Error::IOError(e)
    }
}

impl FromSpecImpl<std::io::Error> for Error {
    open spec fn obeys_from_spec() -> bool {
        true
    }

    open spec fn from_spec(e: std::io::Error) -> Error {
        Error::IOError(e)
    }
}

impl From<ParseIntError> for Error {
    fn from(e: ParseIntError) -> (err: Error) {
        Error::ParseIntError(e)
    }
}

impl FromSpecImpl<ParseIntError> for Error {
    open spec fn obeys_from_spec() -> bool {
        true
    }

    open spec fn from_spec(e: ParseIntError) -> Error {
        Error::ParseIntError(e)
    }
}

impl From<JsonFailure> for Error {
    fn from(e: JsonFailure) -> (err: Error) {
        Error::Json(e)
    }
}

impl FromSpecImpl<JsonFailure> for Error {
    open spec fn obeys_from_spec() -> bool {
        true
    }

    open spec fn from_spec(e: JsonFailure) -> Error {
        Error::Json(e)
    }
}

impl Error {
    /// The words that introduce this kind of failure in a message. For
    /// `InvalidConfigFile` they are the whole message; for the others the
    /// description of what failed follows them.
    pub fn prefix(&self) -> (words: &'static str)
        ensures
            words@ == match *self {
                Error::ParseIntError(_) => "Parse error: "@,
                Error::JsonRPC(_) => "RPC error: "@,
                Error::IOError(_) => "IO error: "@,
                Error::InvalidConfigFile => "Error in config file"@,
                Error::Json(_) => "JSON error: "@,
                Error::KMDError(_) => "KMD daemon error: "@,
                Error::InvalidAmount(_) => "invalid amount: "@,
            },
    {
        match self {
            Error::ParseIntError(_) => "Parse error: ",
            Error::JsonRPC(_) => "RPC error: ",
            Error::IOError(_) => "IO error: ",
            Error::InvalidConfigFile => "Error in config file",
            Error::Json(_) => "JSON error: ",
            Error::KMDError(_) => "KMD daemon error: ",
            Error::InvalidAmount(_) => "invalid amount: ",
        }
    }
}

} // verus!
