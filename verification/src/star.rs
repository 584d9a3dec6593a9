//! Star hops: a pod's amount split over two or three stars and gathered again.

use crate::account_land::{book_wf, LandBook};
use crate::account_planet::Planet;
use crate::account_pod::{ActivityAction, Pod, PodView};
use crate::account_star::{Star, StarMeta};
use crate::address::{find_program_address, program_address_of};
use crate::all_accounts::Wallet;
use crate::errors::OridionError;
use crate::hashing::{key_bytes, str_bytes};
use crate::keys::{bytes_equal, make_triple, null_key, triple, zero_key};
use crate::ledger::{credit, debit};
use crate::shared::{
    arrive, arrived, get_random_percent, planet_is_usable, random_percent_spec,
    validate_planet_locked_by_pod,
};
use crate::split::{split_three, split_three_spec, split_two, split_two_spec};
use vstd::prelude::*;
use vstd::string::StringSliceAdditionalSpecFns;

verus! {

/// The state after a two-way star hop has started.
pub struct TwoStarted {
    pub pod: PodView,
    pub from: Planet,
    pub star_one: Star,
    pub star_two: Star,
    pub star_meta: StarMeta,
}

/// A star after it has received the branch `amount` for the operator `manager`.
pub open spec fn star_filled(star: Star, amount: int, manager: [u8; 32]) -> Star {
    Star { amount: amount as u64, manager, lamports: (star.lamports + amount) as u64, ..star }
}

/// A star after its branch has been collected and the rest swept out.
pub open spec fn star_emptied(star: Star) -> Star {
    Star { amount: 0, lamports: 0, ..star }
}

/// A pod after a mix has started at `now`.
pub open spec fn sent_out(pod: PodView, now: i64) -> PodView {
    PodView { is_in_transit: 1, last_process_at: now, ..pod }
}

/// A planet after the pod's amount has left it and its lock has been released.
pub open spec fn drained(from: Planet, amount: u64) -> Planet {
    Planet { lamports: (from.lamports - amount) as u64, ..from }.released()
}

/// What starting a two-way star hop leads to. The pod's amount is split in two by
/// a percentage drawn from the clock; each star records and receives its branch,
/// the planet is debited and unlocked, the record names the two stars, and the pod
/// is in transit.
pub open spec fn route2_start_outcome(
    pod: PodView,
    from: Planet,
    star_one: Star,
    star_two: Star,
    star_meta: StarMeta,
    manager: [u8; 32],
    bump: u8,
    now: i64,
) -> Result<TwoStarted, OridionError> {
    let parts = split_two_spec(pod.lamports, random_percent_spec(now) as u8);
    if !from.is_usable_by(pod.key, now) {
        Err(OridionError::PlanetStillLocked)
    } else if pod.is_in_transit != 0 {
        Err(OridionError::InTransit)
    } else if star_one.key == star_two.key {
        Err(OridionError::HopErrorStarsMustBeUnique)
    } else if star_one.lamports + parts.0 > u64::MAX || star_two.lamports + parts.1 > u64::MAX
        || from.lamports < pod.lamports {
        Err(OridionError::ArithmeticOverflow)
    } else {
        Ok(
            TwoStarted {
                pod: sent_out(pod, now),
                from: drained(from, pod.lamports),
                star_one: star_filled(star_one, parts.0, manager),
                star_two: star_filled(star_two, parts.1, manager),
                star_meta: StarMeta {
                    to_pdas: triple(star_one.key, star_two.key, zero_key()),
                    bump,
                    ..star_meta
                },
            },
        )
    }
}

/// Starts a two-way star hop. A refusal changes nothing; after a success the two
/// recorded branches add up to the pod's amount.
pub fn route2_start(
    pod: &mut Pod,
    from: &mut Planet,
    star_one: &mut Star,
    star_two: &mut Star,
    star_meta: &mut StarMeta,
    manager: [u8; 32],
    bump: u8,
    now: i64,
) -> (r: Result<(), OridionError>)
    ensures
        match route2_start_outcome(
            old(pod)@,
            *old(from),
            *old(star_one),
            *old(star_two),
            *old(star_meta),
            manager,
            bump,
            now,
        ) {
            Ok(after) => {
                &&& r is Ok
                &&& final(pod)@ == after.pod
                &&& *final(from) == after.from
                &&& *final(star_one) == after.star_one
                &&& *final(star_two) == after.star_two
                &&& *final(star_meta) == after.star_meta
                &&& after.star_one.amount + after.star_two.amount == old(pod).lamports
                &&& after.from.lamports + after.star_one.lamports + after.star_two.lamports == old(
                    from,
                ).lamports + old(star_one).lamports + old(star_two).lamports
            },
            Err(e) => {
                &&& r == Err::<(), OridionError>(e)
                &&& *final(pod) == *old(pod)
                &&& *final(from) == *old(from)
                &&& *final(star_one) == *old(star_one)
                &&& *final(star_two) == *old(star_two)
                &&& *final(star_meta) == *old(star_meta)
            },
        },
        old(pod)@.wf() ==> final(pod)@.wf(),
{
    if !planet_is_usable(from, &pod.key, now) {
        return Err(OridionError::PlanetStillLocked);
    }
    if pod.is_in_transit != 0 {
        return Err(OridionError::InTransit);
    }
    if bytes_equal(&star_one.key, &star_two.key) {
        return Err(OridionError::HopErrorStarsMustBeUnique);
    }
    let percent: u8 = get_random_percent(now);
    let (one, two) = split_two(pod.lamports, percent);
    if (one as u128) + (two as u128) != (pod.lamports as u128) {
        return Err(OridionError::StarHopCalculationError);
    }
    let one_after: u64 = match credit(star_one.lamports, one) {
        Ok(sum) => sum,
        Err(e) => {
            return Err(e);
        },
    };
    let two_after: u64 = match credit(star_two.lamports, two) {
        Ok(sum) => sum,
        Err(e) => {
            return Err(e);
        },
    };
    let from_after: u64 = match debit(from.lamports, pod.lamports) {
        Ok(rest) => rest,
        Err(e) => {
            return Err(e);
        },
    };
    pod.is_in_transit = 1;
    pod.last_process_at = now;
    star_one.amount = one;
    star_two.amount = two;
    star_one.manager = manager;
    star_two.manager = manager;
    star_one.lamports = one_after;
    star_two.lamports = two_after;
    from.lamports = from_after;
    star_meta.to_pdas = make_triple(star_one.key, star_two.key, null_key());
    star_meta.bump = bump;
    from.locked_at = 0;
    from.locked_by = null_key();
    Ok(())
}

/// The state after a star hop has ended.
pub struct StarsLanded {
    pub pod: PodView,
    pub to: Planet,
    pub star_meta: StarMeta,
    pub manager: Wallet,
    pub book: Seq<Seq<u8>>,
}

/// What is left on a star once its recorded branch is taken out.
pub open spec fn star_residue(star: Star) -> int {
    star.lamports - star.amount
}

/// A planet after a pod has arrived on it with `amount`.
pub open spec fn visited(to: Planet, amount: u64) -> Planet {
    Planet { lamports: (to.lamports + amount) as u64, visits: (to.visits + 1) as u64, ..to }
}

/// A star record after the hop it described has ended.
pub open spec fn meta_closed(star_meta: StarMeta) -> StarMeta {
    StarMeta {
        to_pdas: triple(zero_key(), zero_key(), zero_key()),
        bump: 0,
        lamports: 0,
        ..star_meta
    }
}

/// What ending a two-way star hop leads to. The recorded branches are taken from
/// the stars and credited to the planet, which counts a visit. What else the stars
/// and the record hold is swept to the operator, to the last lamport. The pod
/// arrives on the planet and is at rest again, and the record is cleared.
pub open spec fn route2_end_outcome(
    pod: PodView,
    to: Planet,
    star_one: Star,
    star_two: Star,
    star_meta: StarMeta,
    manager: Wallet,
    book: Seq<Seq<u8>>,
    now: i64,
    slot: u64,
) -> Result<StarsLanded, OridionError> {
    let swept = star_residue(star_one) + star_residue(star_two) + star_meta.lamports;
    if pod.is_in_transit != 1 {
        Err(OridionError::NotInTransit)
    } else if star_one.amount + star_two.amount != pod.lamports {
        Err(OridionError::StarHopCalculationError)
    } else if star_one.lamports < star_one.amount || star_two.lamports < star_two.amount
        || to.lamports + pod.lamports > u64::MAX || to.visits + 1 > u64::MAX || manager.lamports
        + swept > u64::MAX {
        Err(OridionError::ArithmeticOverflow)
    } else {
        match arrived(
            PodView { is_in_transit: 0, ..pod },
            book,
            to.key,
            to.name,
            ActivityAction::Star2.code_spec(),
            now,
            slot,
        ) {
            Err(e) => Err(e),
            Ok((p, b)) => Ok(
                StarsLanded {
                    pod: p,
                    to: visited(to, pod.lamports),
                    star_meta: meta_closed(star_meta),
                    manager: Wallet { lamports: (manager.lamports + swept) as u64, ..manager },
                    book: b,
                },
            ),
        }
    }
}

/// Ends a two-way star hop. A refusal changes nothing. After a success the planet
/// has gained exactly the pod's amount and the operator exactly what the stars and
/// the record held beyond it.
pub fn route2_end(
    pod: &mut Pod,
    to: &mut Planet,
    star_one: &mut Star,
    star_two: &mut Star,
    star_meta: &mut StarMeta,
    manager: &mut Wallet,
    book: &mut LandBook,
    now: i64,
    slot: u64,
) -> (r: Result<(), OridionError>)
    ensures
        match route2_end_outcome(
            old(pod)@,
            *old(to),
            *old(star_one),
            *old(star_two),
            *old(star_meta),
            *old(manager),
            old(book)@,
            now,
            slot,
        ) {
            Ok(after) => {
                &&& r is Ok
                &&& final(pod)@ == after.pod
                &&& *final(to) == after.to
                &&& *final(star_one) == star_emptied(*old(star_one))
                &&& *final(star_two) == star_emptied(*old(star_two))
                &&& *final(star_meta) == after.star_meta
                &&& *final(manager) == after.manager
                &&& final(book)@ == after.book
                &&& after.to.lamports + after.manager.lamports == old(to).lamports + old(
                    manager,
                ).lamports + old(star_one).lamports + old(star_two).lamports + old(
                    star_meta,
                ).lamports
            },
            Err(e) => {
                &&& r == Err::<(), OridionError>(e)
                &&& *final(pod) == *old(pod)
                &&& *final(to) == *old(to)
                &&& *final(star_one) == *old(star_one)
                &&& *final(star_two) == *old(star_two)
                &&& *final(star_meta) == *old(star_meta)
                &&& *final(manager) == *old(manager)
                &&& *final(book) == *old(book)
            },
        },
        old(pod)@.wf() ==> final(pod)@.wf(),
        book_wf(old(book)@) ==> book_wf(final(book)@),
{
    if pod.is_in_transit != 1 {
        return Err(OridionError::NotInTransit);
    }
    if (star_one.amount as u128) + (star_two.amount as u128) != (pod.lamports as u128) {
        return Err(OridionError::StarHopCalculationError);
    }
    if star_one.lamports < star_one.amount || star_two.lamports < star_two.amount {
        return Err(OridionError::ArithmeticOverflow);
    }
    let to_after: u64 = match credit(to.lamports, pod.lamports) {
        Ok(sum) => sum,
        Err(e) => {
            return Err(e);
        },
    };
    let visits_after: u64 = match to.visits.checked_add(1) {
        Some(sum) => sum,
        None => {
            return Err(OridionError::ArithmeticOverflow);
        },
    };
    let swept: u128 = ((star_one.lamports - star_one.amount) as u128) + ((star_two.lamports
        - star_two.amount) as u128) + (star_meta.lamports as u128);
    let manager_wide: u128 = (manager.lamports as u128) + swept;
    if manager_wide > (u64::MAX as u128) {
        return Err(OridionError::ArithmeticOverflow);
    }
    let was_in_transit: u8 = pod.is_in_transit;
    pod.is_in_transit = 0;
    match arrive(pod, book, to.key, &to.name, ActivityAction::Star2.code(), now, slot) {
        Ok(()) => {},
        Err(e) => {
            pod.is_in_transit = was_in_transit;
            return Err(e);
        },
    }
    to.lamports = to_after;
    to.visits = visits_after;
    star_one.amount = 0;
    star_one.lamports = 0;
    star_two.amount = 0;
    star_two.lamports = 0;
    star_meta.to_pdas = make_triple(null_key(), null_key(), null_key());
    star_meta.bump = 0;
    star_meta.lamports = 0;
    manager.lamports = manager_wide as u64;
    Ok(())
}

/// The state after a three-way star hop has started.
pub struct ThreeStarted {
    pub pod: PodView,
    pub from: Planet,
    pub star_one: Star,
    pub star_two: Star,
    pub star_three: Star,
    pub star_meta: StarMeta,
}

/// The seeds from which the address of a pod's three-star record is derived.
pub open spec fn star_three_seeds(pod_key: [u8; 32]) -> Seq<Seq<u8>> {
    seq!["star_three".spec_bytes(), pod_key@]
}

/// What starting a three-way star hop leads to, given the address and bump seed
/// derived for the pod's record and the two percentages. The planet must be held
/// by the pod. The pod's amount is split in three; each star records and receives
/// its branch, the planet is debited and unlocked, the record names the three
/// stars, and the pod is in transit.
pub open spec fn route3_start_with(
    pod: PodView,
    from: Planet,
    star_one: Star,
    star_two: Star,
    star_three: Star,
    star_meta: StarMeta,
    manager: [u8; 32],
    derived: Option<(Seq<u8>, u8)>,
    first_percent: u8,
    second_percent: u8,
    now: i64,
) -> Result<ThreeStarted, OridionError> {
    let parts = split_three_spec(pod.lamports, first_percent, second_percent);
    if from.held_by(pod.key, now) is Err {
        Err(from.held_by(pod.key, now)->Err_0)
    } else if pod.is_in_transit != 0 {
        Err(OridionError::InTransit)
    } else if star_one.key == star_two.key || star_two.key == star_three.key || star_one.key
        == star_three.key {
        Err(OridionError::HopErrorStarsMustBeUnique)
    } else if star_one.lamports + parts.0 > u64::MAX || star_two.lamports + parts.1 > u64::MAX
        || star_three.lamports + parts.2 > u64::MAX || from.lamports < pod.lamports {
        Err(OridionError::ArithmeticOverflow)
    } else if derived is None || derived->Some_0.0 != star_meta.key@ {
        Err(OridionError::InvalidStarMetaPda)
    } else if star_meta.lamports != 0 {
        Err(OridionError::PdaAlreadyInitialized)
    } else {
        Ok(
            ThreeStarted {
                pod: sent_out(pod, now),
                from: drained(from, pod.lamports),
                star_one: star_filled(star_one, parts.0, manager),
                star_two: star_filled(star_two, parts.1, manager),
                star_three: star_filled(star_three, parts.2, manager),
                star_meta: StarMeta {
                    to_pdas: triple(star_one.key, star_two.key, star_three.key),
                    bump: derived->Some_0.1,
                    ..star_meta
                },
            },
        )
    }
}

/// What starting a three-way star hop leads to at `now` under the program
/// `program_id`: both percentages are drawn from the clock, and the record must
/// be stored at the address derived for the pod.
pub open spec fn route3_start_outcome(
    pod: PodView,
    from: Planet,
    star_one: Star,
    star_two: Star,
    star_three: Star,
    star_meta: StarMeta,
    manager: [u8; 32],
    program_id: [u8; 32],
    now: i64,
) -> Result<ThreeStarted, OridionError> {
    route3_start_with(
        pod,
        from,
        star_one,
        star_two,
        star_three,
        star_meta,
        manager,
        program_address_of(star_three_seeds(pod.key), program_id@),
        random_percent_spec(now) as u8,
        random_percent_spec(now) as u8,
        now,
    )
}

/// Starts a three-way star hop, given the address and bump seed derived for the
/// pod's record and the two percentages. A refusal changes nothing; after a success
/// the three recorded branches add up to the pod's amount.
pub fn route3_start_at(
    pod: &mut Pod,
    from: &mut Planet,
    star_one: &mut Star,
    star_two: &mut Star,
    star_three: &mut Star,
    star_meta: &mut StarMeta,
    manager: [u8; 32],
    derived: Option<([u8; 32], u8)>,
    first_percent: u8,
    second_percent: u8,
    now: i64,
) -> (r: Result<(), OridionError>)
    requires
        first_percent <= 100,
        second_percent <= 100,
    ensures
        match route3_start_with(
            old(pod)@,
            *old(from),
            *old(star_one),
            *old(star_two),
            *old(star_three),
            *old(star_meta),
            manager,
            match derived {
                Some((key, bump)) => Some((key@, bump)),
                None => None,
            },
            first_percent,
            second_percent,
            now,
        ) {
            Ok(after) => {
                &&& r is Ok
                &&& final(pod)@ == after.pod
                &&& *final(from) == after.from
                &&& *final(star_one) == after.star_one
                &&& *final(star_two) == after.star_two
                &&& *final(star_three) == after.star_three
                &&& *final(star_meta) == after.star_meta
                &&& after.star_one.amount + after.star_two.amount + after.star_three.amount == old(
                    pod,
                ).lamports
                &&& after.from.lamports + after.star_one.lamports + after.star_two.lamports
                    + after.star_three.lamports == old(from).lamports + old(star_one).lamports
                    + old(star_two).lamports + old(star_three).lamports
            },
            Err(e) => {
                &&& r == Err::<(), OridionError>(e)
                &&& *final(pod) == *old(pod)
                &&& *final(from) == *old(from)
                &&& *final(star_one) == *old(star_one)
                &&& *final(star_two) == *old(star_two)
                &&& *final(star_three) == *old(star_three)
                &&& *final(star_meta) == *old(star_meta)
            },
        },
        old(pod)@.wf() ==> final(pod)@.wf(),
{
    match validate_planet_locked_by_pod(from, pod.key, now) {
        Ok(()) => {},
        Err(e) => {
            return Err(e);
        },
    }
    if pod.is_in_transit != 0 {
        return Err(OridionError::InTransit);
    }
    if bytes_equal(&star_one.key, &star_two.key) || bytes_equal(&star_two.key, &star_three.key)
        || bytes_equal(&star_one.key, &star_three.key) {
        return Err(OridionError::HopErrorStarsMustBeUnique);
    }
    let (one, two, three) = match split_three(pod.lamports, first_percent, second_percent) {
        Ok(parts) => parts,
        Err(e) => {
            return Err(e);
        },
    };
    let one_after: u64 = match credit(star_one.lamports, one) {
        Ok(sum) => sum,
        Err(e) => {
            return Err(e);
        },
    };
    let two_after: u64 = match credit(star_two.lamports, two) {
        Ok(sum) => sum,
        Err(e) => {
            return Err(e);
        },
    };
    let three_after: u64 = match credit(star_three.lamports, three) {
        Ok(sum) => sum,
        Err(e) => {
            return Err(e);
        },
    };
    let from_after: u64 = match debit(from.lamports, pod.lamports) {
        Ok(rest) => rest,
        Err(e) => {
            return Err(e);
        },
    };
    let bump: u8 = match derived {
        Some((key, bump)) => {
            if !bytes_equal(&star_meta.key, &key) {
                assert(!(star_meta.key@ =~= key@)) by {
                    if star_meta.key@ =~= key@ {
                        assert(star_meta.key =~= key);
                    }
                }
                return Err(OridionError::InvalidStarMetaPda);
            }
            bump
        },
        None => {
            return Err(OridionError::InvalidStarMetaPda);
        },
    };
    if star_meta.lamports != 0 {
        return Err(OridionError::PdaAlreadyInitialized);
    }
    pod.is_in_transit = 1;
    pod.last_process_at = now;
    star_one.amount = one;
    star_two.amount = two;
    star_three.amount = three;
    star_one.manager = manager;
    star_two.manager = manager;
    star_three.manager = manager;
    star_one.lamports = one_after;
    star_two.lamports = two_after;
    star_three.lamports = three_after;
    from.lamports = from_after;
    star_meta.to_pdas = make_triple(star_one.key, star_two.key, star_three.key);
    star_meta.bump = bump;
    from.locked_at = 0;
    from.locked_by = null_key();
    Ok(())
}

/// Starts a three-way star hop at `now` under the program `program_id`. A refusal
/// changes nothing.
pub fn route3_start(
    pod: &mut Pod,
    from: &mut Planet,
    star_one: &mut Star,
    star_two: &mut Star,
    star_three: &mut Star,
    star_meta: &mut StarMeta,
    manager: [u8; 32],
    program_id: &[u8; 32],
    now: i64,
) -> (r: Result<(), OridionError>)
    ensures
        match route3_start_outcome(
            old(pod)@,
            *old(from),
            *old(star_one),
            *old(star_two),
            *old(star_three),
            *old(star_meta),
            manager,
            *program_id,
            now,
        ) {
            Ok(after) => {
                &&& r is Ok
                &&& final(pod)@ == after.pod
                &&& *final(from) == after.from
                &&& *final(star_one) == after.star_one
                &&& *final(star_two) == after.star_two
                &&& *final(star_three) == after.star_three
                &&& *final(star_meta) == after.star_meta
                &&& after.star_one.amount + after.star_two.amount + after.star_three.amount == old(
                    pod,
                ).lamports
            },
            Err(e) => {
                &&& r == Err::<(), OridionError>(e)
                &&& *final(pod) == *old(pod)
                &&& *final(from) == *old(from)
                &&& *final(star_one) == *old(star_one)
                &&& *final(star_two) == *old(star_two)
                &&& *final(star_three) == *old(star_three)
                &&& *final(star_meta) == *old(star_meta)
            },
        },
        old(pod)@.wf() ==> final(pod)@.wf(),
{
    let mut seeds: Vec<Vec<u8>> = Vec::new();
    seeds.push(str_bytes("star_three"));
    seeds.push(key_bytes(&pod.key));
    assert(seeds.deep_view() =~~= star_three_seeds(pod.key));
    let derived = find_program_address(&seeds, program_id);
    let percent: u8 = get_random_percent(now);
    route3_start_at(
        pod,
        from,
        star_one,
        star_two,
        star_three,
        star_meta,
        manager,
        derived,
        percent,
        percent,
        now,
    )
}

/// What ending a three-way star hop leads to. The recorded branches are taken from
/// the stars and credited to the planet, which counts a visit. What else the stars
/// and the record hold is swept to the operator, to the last lamport. The pod
/// arrives on the planet and is at rest again, and the record is cleared.
pub open spec fn route3_end_outcome(
    pod: PodView,
    to: Planet,
    star_one: Star,
    star_two: Star,
    star_three: Star,
    star_meta: StarMeta,
    manager: Wallet,
    book: Seq<Seq<u8>>,
    now: i64,
    slot: u64,
) -> Result<StarsLanded, OridionError> {
    let swept = star_residue(star_one) + star_residue(star_two) + star_residue(star_three)
        + star_meta.lamports;
    if pod.is_in_transit != 1 {
        Err(OridionError::NotInTransit)
    } else if star_one.amount + star_two.amount + star_three.amount != pod.lamports {
        Err(OridionError::StarHopCalculationError)
    } else if star_one.lamports < star_one.amount || star_two.lamports < star_two.amount
        || star_three.lamports < star_three.amount || to.lamports + pod.lamports > u64::MAX
        || to.visits + 1 > u64::MAX || manager.lamports + swept > u64::MAX {
        Err(OridionError::ArithmeticOverflow)
    } else {
        match arrived(
            PodView { is_in_transit: 0, ..pod },
            book,
            to.key,
            to.name,
            ActivityAction::Star3.code_spec(),
            now,
            slot,
        ) {
            Err(e) => Err(e),
            Ok((p, b)) => Ok(
                StarsLanded {
                    pod: p,
                    to: visited(to, pod.lamports),
                    star_meta: meta_closed(star_meta),
                    manager: Wallet { lamports: (manager.lamports + swept) as u64, ..manager },
                    book: b,
                },
            ),
        }
    }
}

/// Ends a three-way star hop. A refusal changes nothing. After a success the
/// planet has gained exactly the pod's amount and the operator exactly what the
/// stars and the record held beyond it.
pub fn route3_end(
    pod: &mut Pod,
    to: &mut Planet,
    star_one: &mut Star,
    star_two: &mut Star,
    star_three: &mut Star,
    star_meta: &mut StarMeta,
    manager: &mut Wallet,
    book: &mut LandBook,
    now: i64,
    slot: u64,
) -> (r: Result<(), OridionError>)
    ensures
        match route3_end_outcome(
            old(pod)@,
            *old(to),
            *old(star_one),
            *old(star_two),
            *old(star_three),
            *old(star_meta),
            *old(manager),
            old(book)@,
            now,
            slot,
        ) {
            Ok(after) => {
                &&& r is Ok
                &&& final(pod)@ == after.pod
                &&& *final(to) == after.to
                &&& *final(star_one) == star_emptied(*old(star_one))
                &&& *final(star_two) == star_emptied(*old(star_two))
                &&& *final(star_three) == star_emptied(*old(star_three))
                &&& *final(star_meta) == after.star_meta
                &&& *final(manager) == after.manager
                &&& final(book)@ == after.book
                &&& after.to.lamports + after.manager.lamports == old(to).lamports + old(
                    manager,
                ).lamports + old(star_one).lamports + old(star_two).lamports + old(
                    star_three,
                ).lamports + old(star_meta).lamports
            },
            Err(e) => {
                &&& r == Err::<(), OridionError>(e)
                &&& *final(pod) == *old(pod)
                &&& *final(to) == *old(to)
                &&& *final(star_one) == *old(star_one)
                &&& *final(star_two) == *old(star_two)
                &&& *final(star_three) == *old(star_three)
                &&& *final(star_meta) == *old(star_meta)
                &&& *final(manager) == *old(manager)
                &&& *final(book) == *old(book)
            },
        },
        old(pod)@.wf() ==> final(pod)@.wf(),
        book_wf(old(book)@) ==> book_wf(final(book)@),
{
    if pod.is_in_transit != 1 {
        return Err(OridionError::NotInTransit);
    }
    if (star_one.amount as u128) + (star_two.amount as u128) + (star_three.amount as u128) != (
    pod.lamports as u128) {
        return Err(OridionError::StarHopCalculationError);
    }
    if star_one.lamports < star_one.amount || star_two.lamports < star_two.amount
        || star_three.lamports < star_three.amount {
        return Err(OridionError::ArithmeticOverflow);
    }
    let to_after: u64 = match credit(to.lamports, pod.lamports) {
        Ok(sum) => sum,
        Err(e) => {
            return Err(e);
        },
    };
    let visits_after: u64 = match to.visits.checked_add(1) {
        Some(sum) => sum,
        None => {
            return Err(OridionError::ArithmeticOverflow);
        },
    };
    let swept: u128 = ((star_one.lamports - star_one.amount) as u128) + ((star_two.lamports
        - star_two.amount) as u128) + ((star_three.lamports - star_three.amount) as u128) + (
    star_meta.lamports as u128);
    let manager_wide: u128 = (manager.lamports as u128) + swept;
    if manager_wide > (u64::MAX as u128) {
        return Err(OridionError::ArithmeticOverflow);
    }
    let was_in_transit: u8 = pod.is_in_transit;
    pod.is_in_transit = 0;
    match arrive(pod, book, to.key, &to.name, ActivityAction::Star3.code(), now, slot) {
        Ok(()) => {},
        Err(e) => {
            pod.is_in_transit = was_in_transit;
            return Err(e);
        },
    }
    to.lamports = to_after;
    to.visits = visits_after;
    star_one.amount = 0;
    star_one.lamports = 0;
    star_two.amount = 0;
    star_two.lamports = 0;
    star_three.amount = 0;
    star_three.lamports = 0;
    star_meta.to_pdas = make_triple(null_key(), null_key(), null_key());
    star_meta.bump = 0;
    star_meta.lamports = 0;
    manager.lamports = manager_wide as u64;
    Ok(())
}

} // verus!
