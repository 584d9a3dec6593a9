//! Planets and the state of their advisory lock.

use crate::errors::OridionError;
use crate::keys::zero_key;
use crate::ledger::{credit, credit_spec, debit, debit_spec};
use crate::variables::LOCK_EXPIRE_SECONDS;
use vstd::prelude::*;

verus! {

/// A shared holding account that pods pass through, with its advisory lock.
#[derive(Clone, Debug, PartialEq, Eq)]
pub struct Planet {
    /// The address under which the planet is stored.
    pub key: [u8; 32],
    /// The planet's balance.
    pub lamports: u64,
    pub account_type: u8,
    pub bump: u8,
    /// When the planet was created.
    pub created: i64,
    /// How many pods have arrived here.
    pub visits: u64,
    /// The balance the planet was created with.
    pub base_lamports: u64,
    /// When the lock was taken; 0 means unlocked.
    pub locked_at: i64,
    /// The pod that holds the lock.
    pub locked_by: [u8; 32],
    /// The planet's name, at most ten bytes.
    pub name: String,
}

impl Planet {
    /// Nobody holds a lock on the planet.
    pub open spec fn is_unlocked(self) -> bool {
        self.locked_at == 0
    }

    /// The lock is older than its time to live at `now`.
    pub open spec fn lock_expired_at(self, now: i64) -> bool {
        now - self.locked_at > LOCK_EXPIRE_SECONDS
    }

    /// The pod may take or keep the lock at `now`: the planet is unlocked, the pod
    /// already holds the lock, or the lock of another pod has expired.
    pub open spec fn is_usable_by(self, pod_key: [u8; 32], now: i64) -> bool {
        self.is_unlocked() || self.locked_by == pod_key || self.lock_expired_at(now)
    }

    /// The strict check before a step that resumes a mix: the planet must be locked,
    /// by this pod, and the lock must not have expired.
    pub open spec fn held_by(self, pod_key: [u8; 32], now: i64) -> Result<(), OridionError> {
        if self.is_unlocked() {
            Err(OridionError::PlanetNotLocked)
        } else if self.locked_by != pod_key {
            Err(OridionError::NotAuthorizedToHop)
        } else if self.lock_expired_at(now) {
            Err(OridionError::LockExpired)
        } else {
            Ok(())
        }
    }

    /// The planet with the lock given to `pod_key` at `now`.
    pub open spec fn locked_for(self, pod_key: [u8; 32], now: i64) -> Planet {
        Planet { locked_by: pod_key, locked_at: now, ..self }
    }

    /// The planet with its lock released.
    pub open spec fn released(self) -> Planet {
        Planet { locked_by: zero_key(), locked_at: 0, ..self }
    }

    /// What an attempt to take the lock leads to: the planet locked for the pod, or
    /// the refusal that leaves it as it is.
    pub open spec fn acquire(self, pod_key: [u8; 32], now: i64) -> Result<Planet, OridionError> {
        if self.is_usable_by(pod_key, now) {
            Ok(self.locked_for(pod_key, now))
        } else {
            Err(OridionError::PlanetStillLocked)
        }
    }
}

impl Planet {
    /// The planet's balance.
    pub fn get_lamports(&self) -> (balance: u64)
        ensures
            balance == self.lamports,
    {
        self.lamports
    }

    /// Adds `amount` to the planet's balance. A sum that does not fit is refused
    /// with `ArithmeticOverflow`, and the planet stays as it is.
    pub fn add_lamports(&mut self, amount: u64) -> (r: Result<(), OridionError>)
        ensures
            match credit_spec(old(self).lamports, amount) {
                Ok(sum) => r is Ok && *final(self) == (Planet { lamports: sum, ..*old(self) }),
                Err(e) => r == Err::<(), OridionError>(e) && *final(self) == *old(self),
            },
    {
        match credit(self.lamports, amount) {
            Ok(sum) => {
                self.lamports = sum;
                Ok(())
            },
            Err(e) => Err(e),
        }
    }

    /// Takes `amount` from the planet's balance. A balance that is too small
    /// refuses with `ArithmeticOverflow`, and the planet stays as it is.
    pub fn sub_lamports(&mut self, amount: u64) -> (r: Result<(), OridionError>)
        ensures
            match debit_spec(old(self).lamports, amount) {
                Ok(rest) => r is Ok && *final(self) == (Planet { lamports: rest, ..*old(self) }),
                Err(e) => r == Err::<(), OridionError>(e) && *final(self) == *old(self),
            },
    {
        match debit(self.lamports, amount) {
            Ok(rest) => {
                self.lamports = rest;
                Ok(())
            },
            Err(e) => Err(e),
        }
    }
}

} // verus!
