//! What an operation is told about the transaction that carries it.

use vstd::prelude::*;

verus! {

/// The block in which an operation runs.
#[derive(Clone, Debug, PartialEq)]
pub struct Env {
    /// The block time, in seconds since the epoch. It is the ledger's "now".
    pub time: u64,
}

/// The authenticated origin of an operation.
#[derive(Clone, Debug, PartialEq)]
pub struct MessageInfo {
    /// The principal that signed the transaction.
    pub sender: String,
}

} // verus!
