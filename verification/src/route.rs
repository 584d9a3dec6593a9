//! Locking planets, and the plain hop from planet to planet.

use crate::account_land::{book_wf, LandBook};
use crate::account_planet::Planet;
use crate::account_pod::{ActivityAction, Pod, PodView};
use crate::errors::OridionError;
use crate::keys::{bytes_equal, null_key};
use crate::ledger::credit;
use crate::shared::{arrive, arrived, planet_is_usable, validate_planet_is_usable};
use vstd::prelude::*;

verus! {

/// Locks the planet for the pod, or renews the pod's lock. A planet that another pod
/// holds can be taken only once that lock has expired.
pub fn lock_node(planet: &mut Planet, pod: &Pod, now: i64) -> (r: Result<(), OridionError>)
    ensures
        match old(planet).acquire(pod.key, now) {
            Ok(locked) => r is Ok && *final(planet) == locked,
            Err(e) => r == Err::<(), OridionError>(e) && *final(planet) == *old(planet),
        },
{
    validate_planet_is_usable(planet, pod.key, now)
}

/// What locking three planets for one pod leads to: all three are locked, or the
/// first that cannot be taken refuses for all.
pub open spec fn fan_lock_outcome(
    planet_1: Planet,
    planet_2: Planet,
    planet_3: Planet,
    pod_key: [u8; 32],
    now: i64,
) -> Result<(Planet, Planet, Planet), OridionError> {
    if planet_1.is_usable_by(pod_key, now) && planet_2.is_usable_by(pod_key, now)
        && planet_3.is_usable_by(pod_key, now) {
        Ok(
            (
                planet_1.locked_for(pod_key, now),
                planet_2.locked_for(pod_key, now),
                planet_3.locked_for(pod_key, now),
            ),
        )
    } else {
        Err(OridionError::PlanetStillLocked)
    }
}

/// Locks three planets for the pod, all or none.
pub fn fan_lock(
    pod: &Pod,
    planet_1: &mut Planet,
    planet_2: &mut Planet,
    planet_3: &mut Planet,
    now: i64,
) -> (r: Result<(), OridionError>)
    ensures
        match fan_lock_outcome(*old(planet_1), *old(planet_2), *old(planet_3), pod.key, now) {
            Ok((a, b, c)) => {
                &&& r is Ok
                &&& *final(planet_1) == a
                &&& *final(planet_2) == b
                &&& *final(planet_3) == c
            },
            Err(e) => r == Err::<(), OridionError>(e) && *final(planet_1) == *old(planet_1)
                && *final(planet_2) == *old(planet_2) && *final(planet_3) == *old(planet_3),
        },
{
    if !planet_is_usable(planet_1, &pod.key, now) || !planet_is_usable(planet_2, &pod.key, now)
        || !planet_is_usable(planet_3, &pod.key, now) {
        return Err(OridionError::PlanetStillLocked);
    }
    planet_1.locked_by = pod.key;
    planet_1.locked_at = now;
    planet_2.locked_by = pod.key;
    planet_2.locked_at = now;
    planet_3.locked_by = pod.key;
    planet_3.locked_at = now;
    Ok(())
}

/// The first reason, if any, for which a hop is refused before the pod moves.
pub open spec fn hop_refusal(pod: PodView, from: Planet, to: Planet, now: i64) -> Option<
    OridionError,
> {
    if !from.is_usable_by(pod.key, now) {
        Some(OridionError::PlanetStillLocked)
    } else if from.key == to.key || from.name@ == to.name@ {
        Some(OridionError::HopErrorToAndFromAreSame)
    } else if from.lamports < pod.lamports {
        Some(OridionError::InsufficientFunds)
    } else if to.lamports + pod.lamports > u64::MAX || to.visits + 1 > u64::MAX {
        Some(OridionError::ArithmeticOverflow)
    } else {
        None
    }
}

/// What a hop from `from` to `to` leads to: the pod's amount moves between the
/// planets, `to` counts a visit, the pod arrives on `to`, and the lock on `from` is
/// released.
pub open spec fn route1_outcome(
    pod: PodView,
    from: Planet,
    to: Planet,
    book: Seq<Seq<u8>>,
    now: i64,
    slot: u64,
) -> Result<(PodView, Planet, Planet, Seq<Seq<u8>>), OridionError> {
    match hop_refusal(pod, from, to, now) {
        Some(e) => Err(e),
        None => match arrived(
            pod,
            book,
            to.key,
            to.name,
            ActivityAction::Hop.code_spec(),
            now,
            slot,
        ) {
            Err(e) => Err(e),
            Ok((p, b)) => Ok(
                (
                    p,
                    Planet { lamports: (from.lamports - pod.lamports) as u64, ..from }.released(),
                    Planet {
                        lamports: (to.lamports + pod.lamports) as u64,
                        visits: (to.visits + 1) as u64,
                        ..to
                    },
                    b,
                ),
            ),
        },
    }
}

/// Moves a pod from one planet to another. A refusal changes nothing.
pub fn route1(
    pod: &mut Pod,
    from: &mut Planet,
    to: &mut Planet,
    book: &mut LandBook,
    now: i64,
    slot: u64,
) -> (r: Result<(), OridionError>)
    ensures
        match route1_outcome(old(pod)@, *old(from), *old(to), old(book)@, now, slot) {
            Ok((p, f, t, b)) => {
                &&& r is Ok
                &&& final(pod)@ == p
                &&& *final(from) == f
                &&& *final(to) == t
                &&& final(book)@ == b
                &&& f.lamports + t.lamports == old(from).lamports + old(to).lamports
            },
            Err(e) => {
                &&& r == Err::<(), OridionError>(e)
                &&& *final(pod) == *old(pod)
                &&& *final(from) == *old(from)
                &&& *final(to) == *old(to)
                &&& *final(book) == *old(book)
            },
        },
        old(pod)@.wf() ==> final(pod)@.wf(),
        book_wf(old(book)@) ==> book_wf(final(book)@),
{
    if !planet_is_usable(from, &pod.key, now) {
        return Err(OridionError::PlanetStillLocked);
    }
    if bytes_equal(&from.key, &to.key) || from.name == to.name {
        return Err(OridionError::HopErrorToAndFromAreSame);
    }
    if from.lamports < pod.lamports {
        return Err(OridionError::InsufficientFunds);
    }
    let to_after: u64 = match credit(to.lamports, pod.lamports) {
        Ok(sum) => sum,
        Err(e) => {
            return Err(e);
        },
    };
    let visits_after: u64 = match to.visits.checked_add(1) {
        Some(sum) => sum,
        None => {
            return Err(OridionError::ArithmeticOverflow);
        },
    };
    let amount: u64 = pod.lamports;
    match arrive(pod, book, to.key, &to.name, ActivityAction::Hop.code(), now, slot) {
        Ok(()) => {},
        Err(e) => {
            return Err(e);
        },
    }
    to.visits = visits_after;
    to.lamports = to_after;
    from.lamports = from.lamports - amount;
    from.locked_at = 0;
    from.locked_by = null_key();
    Ok(())
}

} // verus!
