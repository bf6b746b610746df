//! A call to the daemon, ready to be sent: the name of the remote procedure
//! and its positional arguments.

use crate::defaults::{defaults_suffice, handle_defaults, with_defaults};
use crate::wire::{wire, Json};
use serde_json::Value;
use vstd::prelude::*;

verus! {

/// One call to the daemon.
#[derive(Debug)]
pub struct Request {
    /// Name of the remote procedure.
    pub method: String,
    /// Its arguments, by position.
    pub args: Vec<Value>,
}

/// What a `Request` says: the procedure's name and the documents of its
/// arguments.
pub struct Call {
    pub method: Seq<char>,
    pub args: Seq<Json>,
}

impl View for Request {
    type V = Call;

    open spec fn view(&self) -> Call {
        Call { method: self.method@, args: wire(self.args@) }
    }
}

/// The call of `method` with `args`.
pub open spec fn call(method: Seq<char>, args: Seq<Json>) -> Call {
    Call { method, args }
}

impl Request {
    /// A call whose arguments are all required: they are sent as they are.
    pub fn new(method: &str, args: Vec<Value>) -> (req: Request)
        ensures
            req@ == call(method@, wire(args@)),
    {
        Request { method: method.to_owned(), args }
    }

    /// A call whose last `defaults.len()` arguments are optional: omitted
    /// ones are cut off or filled as `handle_defaults` does.
    pub fn with_defaults(method: &str, args: Vec<Value>, defaults: Vec<Value>) -> (req: Request)
        requires
            defaults.len() <= args.len(),
            defaults_suffice(wire(args@), wire(defaults@)),
        ensures
            req@ == call(method@, with_defaults(wire(args@), wire(defaults@))),
    {
        let mut args = args;
        let keep = handle_defaults(args.as_mut_slice(), defaults.as_slice()).len();
        args.truncate(keep);
        Request { method: method.to_owned(), args }
    }
}

} // verus!
