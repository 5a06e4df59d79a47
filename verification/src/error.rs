use vstd::prelude::*;

use crate::calls::NativeCall;
use crate::text::{decimal, decimal_string};

verus! {

/// The message of an error reported after a native entry point failed.
pub open spec fn failure_message(call: NativeCall, detail: Seq<char>) -> Seq<char> {
    call.symbol() + " failed: "@ + detail
}

/// The message of the error reported when a string handed to the engine
/// holds a NUL byte at byte offset `position`.
pub open spec fn interior_nul_message(position: nat) -> Seq<char> {
    "string contains interior NUL byte: nul byte found in provided data at position: "@ + decimal(
        position,
    )
}

/// Error returned by this library: a message for the caller.
#[derive(Debug)]
pub struct Error(String);

impl View for Error {
    type V = Seq<char>;

    closed spec fn view(&self) -> Seq<char> {
        self.0@
    }
}

impl Error {
    /// An error that carries `message` as it is.
    pub fn new(message: String) -> (e: Error)
        ensures
            e@ == message@,
    {
        Error(message)
    }

    /// The error reported when the native entry point `call` failed, with
    /// the engine's own description of the failure as `detail`.
    pub fn call_failed(call: NativeCall, detail: &str) -> (e: Error)
        ensures
            e@ == failure_message(call, detail@),
    {
        let s = String::from_str(call.name()).concat(" failed: ").concat(detail);
        Error(s)
    }

    /// The error reported when a string meant for the engine holds a NUL
    /// byte, the first one at byte offset `position`.
    pub fn interior_nul(position: usize) -> (e: Error)
        ensures
            e@ == interior_nul_message(position as nat),
    {
        let s = String::from_str(
            "string contains interior NUL byte: nul byte found in provided data at position: ",
        ).concat(decimal_string(position).as_str());
        Error(s)
    }

    /// The error reported when the engine library lacks the entry point
    /// written `symbol`, with the loader's description as `detail`.
    pub fn missing_symbol(symbol: &str, detail: &str) -> (e: Error)
        ensures
            e@ == "missing symbol "@ + symbol@ + ": "@ + detail@,
    {
        Error(String::from_str("missing symbol ").concat(symbol).concat(": ").concat(detail))
    }

    /// The error reported when the path of the engine library cannot be
    /// resolved, with the system's description as `detail`.
    pub fn unresolved_path(detail: &str) -> (e: Error)
        ensures
            e@ == "cannot resolve library path: "@ + detail@,
    {
        Error(String::from_str("cannot resolve library path: ").concat(detail))
    }

    /// The message carried by the error.
    pub fn message(&self) -> (s: &str)
        ensures
            s@ == self@,
    {
        self.0.as_str()
    }
}

} // verus!
