//! The treasury.

use vstd::prelude::*;

verus! {

/// The account that collects the launch fees.
#[derive(Clone, Copy, Debug, PartialEq, Eq)]
pub struct Treasury {
    /// The address under which the treasury is stored.
    pub key: [u8; 32],
    /// The treasury's balance.
    pub lamports: u64,
    pub bump: u8,
    /// Who may withdraw from the treasury.
    pub authority: [u8; 32],
}

} // verus!
