//! Setting up and maintaining the universe, the planets, the treasury and the
//! registry.

use crate::account_land::{book_wf, LandBook};
use crate::account_planet::Planet;
use crate::account_treasury::Treasury;
use crate::account_universe::Universe;
use crate::all_accounts::Wallet;
use crate::errors::OridionError;
use crate::keys::{null_key, zero_key};
use crate::ledger::credit;
use crate::shared::AccountType;
use crate::variables::{DEFAULT_BASE_FEE, DEFAULT_FEE_INCREMENT, MAX_PLANET_TITLE_LENGTH};
use vstd::prelude::*;

verus! {

/// The universe as it is created at `now`: unsealed, with the default fees.
pub open spec fn universe_created(universe: Universe, bump: u8, now: i64) -> Universe {
    Universe {
        account_type: AccountType::Universe.code_spec(),
        locked: 0,
        bump,
        created: now,
        last_updated: now,
        fee: DEFAULT_BASE_FEE,
        increment: DEFAULT_FEE_INCREMENT,
        ..universe
    }
}

/// Creates the universe. This never fails.
pub fn bang(universe: &mut Universe, bump: u8, now: i64) -> (r: Result<(), OridionError>)
    ensures
        r is Ok,
        *final(universe) == universe_created(*old(universe), bump, now),
{
    universe.account_type = AccountType::Universe.code();
    universe.locked = 0;
    universe.bump = bump;
    universe.created = now;
    universe.last_updated = now;
    universe.fee = DEFAULT_BASE_FEE;
    universe.increment = DEFAULT_FEE_INCREMENT;
    Ok(())
}

/// Sets the fees of a universe that has not been sealed; a sealed universe
/// refuses with `UniverseLocked` and stays as it is.
pub fn configure(universe: &mut Universe, fee: u32, increment: u32, now: i64) -> (r: Result<
    (),
    OridionError,
>)
    ensures
        old(universe).locked == 0 ==> r is Ok && *final(universe) == (Universe {
            last_updated: now,
            fee: fee as u64,
            increment: increment as u64,
            ..*old(universe)
        }),
        old(universe).locked != 0 ==> r == Err::<(), OridionError>(OridionError::UniverseLocked)
            && *final(universe) == *old(universe),
{
    if universe.locked != 0 {
        return Err(OridionError::UniverseLocked);
    }
    universe.last_updated = now;
    universe.fee = fee as u64;
    universe.increment = increment as u64;
    Ok(())
}

/// Seals the fees of a universe for good; a universe that is already sealed
/// refuses with `UniverseLocked`.
pub fn seal(universe: &mut Universe) -> (r: Result<(), OridionError>)
    ensures
        old(universe).locked == 0 ==> r is Ok && *final(universe) == (Universe {
            locked: 1,
            ..*old(universe)
        }),
        old(universe).locked != 0 ==> r == Err::<(), OridionError>(OridionError::UniverseLocked)
            && *final(universe) == *old(universe),
{
    if universe.locked != 0 {
        return Err(OridionError::UniverseLocked);
    }
    universe.locked = 1;
    Ok(())
}

/// A planet as it is registered under `name` at `now`: unlocked, never visited,
/// with its present balance as its base.
pub open spec fn planet_registered(planet: Planet, name: String, bump: u8, now: i64) -> Planet {
    Planet {
        account_type: AccountType::Planet.code_spec(),
        created: now,
        visits: 0,
        bump,
        base_lamports: planet.lamports,
        name,
        locked_by: zero_key(),
        locked_at: 0,
        ..planet
    }
}

/// Whether a planet name is short enough: at most ten bytes in UTF-8.
pub open spec fn name_fits(name: Seq<char>) -> bool {
    vstd::utf8::encode_utf8(name).len() <= MAX_PLANET_TITLE_LENGTH
}

/// Registers a planet under `name`. A name of more than ten bytes is refused with
/// `PlanetNameTooLong`, and the planet stays as it is.
pub fn register_node(planet: &mut Planet, name: String, bump: u8, now: i64) -> (r: Result<
    (),
    OridionError,
>)
    ensures
        name_fits(name@) ==> r is Ok && *final(planet) == planet_registered(
            *old(planet),
            name,
            bump,
            now,
        ),
        !name_fits(name@) ==> r == Err::<(), OridionError>(OridionError::PlanetNameTooLong)
            && *final(planet) == *old(planet),
{
    if name.as_str().as_bytes().len() > MAX_PLANET_TITLE_LENGTH {
        return Err(OridionError::PlanetNameTooLong);
    }
    planet.account_type = AccountType::Planet.code();
    planet.created = now;
    planet.visits = 0;
    planet.bump = bump;
    planet.base_lamports = planet.lamports;
    planet.name = name;
    planet.locked_by = null_key();
    planet.locked_at = 0;
    Ok(())
}

/// Checks that a planet can be retired: it holds no more than it was created with.
pub fn retire_node(planet: &Planet) -> (r: Result<(), OridionError>)
    ensures
        planet.lamports <= planet.base_lamports ==> r is Ok,
        planet.lamports > planet.base_lamports ==> r == Err::<(), OridionError>(
            OridionError::PlanetDeleteHasFundsError,
        ),
{
    if planet.lamports > planet.base_lamports {
        return Err(OridionError::PlanetDeleteHasFundsError);
    }
    Ok(())
}

/// Sets up the treasury for `payer`. This never fails.
pub fn init_vault(treasury: &mut Treasury, bump: u8, payer: [u8; 32]) -> (r: Result<
    (),
    OridionError,
>)
    ensures
        r is Ok,
        *final(treasury) == (Treasury { bump, authority: payer, ..*old(treasury) }),
{
    treasury.bump = bump;
    treasury.authority = payer;
    Ok(())
}

/// Sets up the registry of land tickets: it starts empty. This never fails.
pub fn init_registry() -> (r: Result<LandBook, OridionError>)
    ensures
        r is Ok,
        r->Ok_0@ == Seq::<Seq<u8>>::empty(),
        book_wf(r->Ok_0@),
{
    Ok(LandBook::new())
}

/// What a withdrawal from the treasury leads to.
pub open spec fn payout_outcome(treasury: Treasury, recipient: Wallet, amount: u64) -> Result<
    (Treasury, Wallet),
    OridionError,
> {
    if treasury.lamports < amount {
        Err(OridionError::InsufficientTreasuryBalance)
    } else if recipient.lamports + amount > u64::MAX {
        Err(OridionError::ArithmeticOverflow)
    } else {
        Ok(
            (
                Treasury { lamports: (treasury.lamports - amount) as u64, ..treasury },
                Wallet { lamports: (recipient.lamports + amount) as u64, ..recipient },
            ),
        )
    }
}

/// Pays `amount` from the treasury to the recipient. A refusal changes nothing.
pub fn payout(treasury: &mut Treasury, recipient: &mut Wallet, amount: u64) -> (r: Result<
    (),
    OridionError,
>)
    ensures
        match payout_outcome(*old(treasury), *old(recipient), amount) {
            Ok((t, w)) => {
                &&& r is Ok
                &&& *final(treasury) == t
                &&& *final(recipient) == w
                &&& t.lamports + w.lamports == old(treasury).lamports + old(recipient).lamports
            },
            Err(e) => {
                &&& r == Err::<(), OridionError>(e)
                &&& *final(treasury) == *old(treasury)
                &&& *final(recipient) == *old(recipient)
            },
        },
{
    if treasury.lamports < amount {
        return Err(OridionError::InsufficientTreasuryBalance);
    }
    let recipient_after: u64 = match credit(recipient.lamports, amount) {
        Ok(sum) => sum,
        Err(e) => {
            return Err(e);
        },
    };
    treasury.lamports = treasury.lamports - amount;
    recipient.lamports = recipient_after;
    Ok(())
}

} // verus!
