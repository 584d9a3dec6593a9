//! The record of a scatter, and plain wallets.

use vstd::prelude::*;

verus! {

/// The record of a scatter between its start and its end.
#[derive(Clone, Copy, Debug, PartialEq, Eq)]
pub struct TransitMeta {
    /// The planet the amount was taken from.
    pub from: [u8; 32],
    /// The planets that hold the branches.
    pub to_pdas: [[u8; 32]; 3],
    /// The amount of each branch.
    pub amounts: [u64; 3],
    /// When the scatter started; 0 while there is none.
    pub created_at: i64,
    pub bump: u8,
}

/// A plain account outside the system: a creator, a destination, the operator.
#[derive(Clone, Copy, Debug, PartialEq, Eq)]
pub struct Wallet {
    /// The address of the account.
    pub key: [u8; 32],
    /// The account's balance.
    pub lamports: u64,
}

} // verus!
