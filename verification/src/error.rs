//! Failures of the storage layer that every ledger shares.

use vstd::prelude::*;

verus! {

/// A failure of a lookup or of the store itself.
#[derive(Clone, Debug, PartialEq)]
pub enum StdError {
    /// A point lookup found no record under the key.
    NotFound {  },
    /// Any other failure, with its message.
    GenericErr { msg: String },
}

} // verus!
