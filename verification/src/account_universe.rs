//! The universe.

use vstd::prelude::*;

verus! {

/// The configuration record of the system, which also passes deposits on.
#[derive(Clone, Copy, Debug, PartialEq, Eq)]
pub struct Universe {
    /// The address under which the universe is stored.
    pub key: [u8; 32],
    /// The universe's balance.
    pub lamports: u64,
    pub account_type: u8,
    /// 1 once the fees are sealed, else 0.
    pub locked: u8,
    pub bump: u8,
    /// When the universe was created.
    pub created: i64,
    /// When the fees were last set.
    pub last_updated: i64,
    /// The base fee of a launch.
    pub fee: u64,
    /// The fee added for each step of delay.
    pub increment: u64,
}

} // verus!
