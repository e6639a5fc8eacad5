//! Plain-data parameters of chain operations, modeled with stable string
//! identifiers; the connection-level handles live outside this crate.

use vstd::prelude::*;

verus! {

/// An account on some chain: the chain's identity and the owner within it.
pub struct ChainAccount {
    pub chain_id: String,
    pub owner: String,
}

/// Parameters of a transfer: an optional donor account owner, the amount,
/// and the receiving account.
pub struct TransferParams {
    pub donor: Option<String>,
    pub amount: u64,
    pub recipient: ChainAccount,
}

/// Options when adding an owner to a chain.
pub struct AddOwnerOptions {
    pub weight: u64,
}

} // verus!
