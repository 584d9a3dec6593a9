//! Stars and the record of a star hop.

use vstd::prelude::*;

verus! {

/// The record of the stars that a star hop went to.
#[derive(Clone, Copy, Debug, PartialEq, Eq)]
pub struct StarMeta {
    /// The address under which the record is stored.
    pub key: [u8; 32],
    /// The record's balance; 0 while it has not been created.
    pub lamports: u64,
    /// The stars of the hop; a two-way hop leaves the third empty.
    pub to_pdas: [[u8; 32]; 3],
    pub bump: u8,
}

/// A short-lived account that holds one branch of a star hop.
#[derive(Clone, Copy, Debug, PartialEq, Eq)]
pub struct Star {
    /// The address under which the star is stored.
    pub key: [u8; 32],
    /// The star's balance.
    pub lamports: u64,
    /// The branch amount recorded for the star.
    pub amount: u64,
    /// The operator who gets what is left when the star is dissolved.
    pub manager: [u8; 32],
}

} // verus!
