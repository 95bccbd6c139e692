//! Why an operation was refused.

use vstd::prelude::*;

verus! {

/// The ways in which an operation on the ledger fails.
#[derive(Clone, Copy, Debug, PartialEq, Eq, Structural)]
pub enum ContractError {
    /// The caller is neither the owner, nor approved, nor an operator; or,
    /// on a mint, is not the minter.
    Unauthorized,
    /// No token has the given identifier.
    NotFound,
    /// A token with this identifier exists already.
    Claimed,
    /// The supply counter says that no token is left although one is stored.
    Consistency,
}

} // verus!
