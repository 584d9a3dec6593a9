//! The scatter: a pod's amount spread over three planets and gathered again.

use crate::account_land::{book_wf, LandBook};
use crate::account_planet::Planet;
use crate::account_pod::{ActivityAction, Pod, PodView};
use crate::all_accounts::TransitMeta;
use crate::encoding::{i64_le_bytes, le_bytes_i64, read_u64_le, window_spec};
use crate::errors::OridionError;
use crate::hashing::{keccak256_of, keccak256v, str_bytes};
use crate::keys::{bytes_equal, make_triple, null_key, triple, zero_key};
use crate::ledger::credit;
use crate::shared::{arrive, arrived, planet_is_usable, validate_planet_locked_by_pod};
use crate::split::{scatter_percent, scatter_percent_spec, scatter_split, scatter_split_spec};
use crate::star::{drained, sent_out};
use vstd::prelude::*;
use vstd::string::StringSliceAdditionalSpecFns;

verus! {

/// The message whose digest is the entropy of a scatter at `now`: a tag, then the
/// time, least significant byte first.
pub open spec fn scatter_message(now: i64) -> Seq<Seq<u8>> {
    seq!["ORIDION_SCATTER_V1".spec_bytes(), le_bytes_i64(now)]
}

/// Writes the message of a scatter at `now`, part by part.
pub fn scatter_message_parts(now: i64) -> (parts: Vec<Vec<u8>>)
    ensures
        parts.deep_view() == scatter_message(now),
{
    let mut parts: Vec<Vec<u8>> = Vec::new();
    parts.push(str_bytes("ORIDION_SCATTER_V1"));
    parts.push(i64_le_bytes(now));
    assert(parts.deep_view() =~~= scatter_message(now));
    parts
}

/// The entropy of a scatter at `now`: the Keccak-256 digest of its message.
pub open spec fn scatter_entropy(now: i64) -> Seq<u8> {
    keccak256_of(scatter_message(now))
}

/// The three branches that the entropy cuts `total` into: the two percentages are
/// drawn from the numbers that its bytes 0 to 7 and 1 to 8 spell.
pub open spec fn scatter_parts(total: u64, entropy: Seq<u8>) -> (int, int, int) {
    scatter_split_spec(
        total,
        scatter_percent_spec(window_spec(entropy, 0)) as u8,
        scatter_percent_spec(window_spec(entropy, 1)) as u8,
    )
}

/// A planet after a branch of `amount` has been put on it.
pub open spec fn branch_received(planet: Planet, amount: int) -> Planet {
    Planet { lamports: (planet.lamports + amount) as u64, ..planet }
}

/// The state after a scatter has started.
pub struct Scattered {
    pub pod: PodView,
    pub from: Planet,
    pub to_1: Planet,
    pub to_2: Planet,
    pub to_3: Planet,
    pub meta: TransitMeta,
}

/// What starting a scatter leads to, given its entropy. The planet must be held by
/// the pod and the three target planets must differ. The pod's amount is cut in
/// three; each target receives its branch, the planet is debited and unlocked, the
/// record keeps the planets and the branches, and the pod is in transit.
pub open spec fn fan_start_with(
    pod: PodView,
    from: Planet,
    to_1: Planet,
    to_2: Planet,
    to_3: Planet,
    meta: TransitMeta,
    bump: u8,
    entropy: Seq<u8>,
    now: i64,
) -> Result<Scattered, OridionError> {
    let parts = scatter_parts(pod.lamports, entropy);
    if from.held_by(pod.key, now) is Err {
        Err(from.held_by(pod.key, now)->Err_0)
    } else if pod.is_in_transit != 0 {
        Err(OridionError::InTransit)
    } else if to_1.key == to_2.key || to_2.key == to_3.key || to_1.key == to_3.key {
        Err(OridionError::HopErrorStarsMustBeUnique)
    } else if pod.lamports == 0 {
        Err(OridionError::InvalidDepositAmount)
    } else if from.lamports < pod.lamports {
        Err(OridionError::PlanetNotEnoughFundsError)
    } else if to_1.lamports + parts.0 > u64::MAX || to_2.lamports + parts.1 > u64::MAX
        || to_3.lamports + parts.2 > u64::MAX {
        Err(OridionError::ArithmeticOverflow)
    } else {
        Ok(
            Scattered {
                pod: sent_out(pod, now),
                from: drained(from, pod.lamports),
                to_1: branch_received(to_1, parts.0),
                to_2: branch_received(to_2, parts.1),
                to_3: branch_received(to_3, parts.2),
                meta: TransitMeta {
                    from: from.key,
                    to_pdas: triple(to_1.key, to_2.key, to_3.key),
                    amounts: triple(parts.0 as u64, parts.1 as u64, parts.2 as u64),
                    created_at: now,
                    bump,
                },
            },
        )
    }
}

/// What starting a scatter leads to at `now`.
pub open spec fn fan_start_outcome(
    pod: PodView,
    from: Planet,
    to_1: Planet,
    to_2: Planet,
    to_3: Planet,
    meta: TransitMeta,
    bump: u8,
    now: i64,
) -> Result<Scattered, OridionError> {
    fan_start_with(pod, from, to_1, to_2, to_3, meta, bump, scatter_entropy(now), now)
}

/// Starts a scatter, given its entropy. A refusal changes nothing; after a success
/// the three recorded branches add up to the pod's amount.
pub fn fan_start_at(
    pod: &mut Pod,
    from: &mut Planet,
    to_1: &mut Planet,
    to_2: &mut Planet,
    to_3: &mut Planet,
    meta: &mut TransitMeta,
    bump: u8,
    entropy: &[u8; 32],
    now: i64,
) -> (r: Result<(), OridionError>)
    ensures
        match fan_start_with(
            old(pod)@,
            *old(from),
            *old(to_1),
            *old(to_2),
            *old(to_3),
            *old(meta),
            bump,
            entropy@,
            now,
        ) {
            Ok(after) => {
                &&& r is Ok
                &&& final(pod)@ == after.pod
                &&& *final(from) == after.from
                &&& *final(to_1) == after.to_1
                &&& *final(to_2) == after.to_2
                &&& *final(to_3) == after.to_3
                &&& *final(meta) == after.meta
                &&& after.meta.amounts[0] + after.meta.amounts[1] + after.meta.amounts[2] == old(
                    pod,
                ).lamports
                &&& after.from.lamports + after.to_1.lamports + after.to_2.lamports
                    + after.to_3.lamports == old(from).lamports + old(to_1).lamports + old(
                    to_2,
                ).lamports + old(to_3).lamports
            },
            Err(e) => {
                &&& r == Err::<(), OridionError>(e)
                &&& *final(pod) == *old(pod)
                &&& *final(from) == *old(from)
                &&& *final(to_1) == *old(to_1)
                &&& *final(to_2) == *old(to_2)
                &&& *final(to_3) == *old(to_3)
                &&& *final(meta) == *old(meta)
            },
        },
        old(pod)@.wf() ==> final(pod)@.wf(),
{
    match validate_planet_locked_by_pod(from, pod.key, now) {
        Ok(()) => {},
        Err(e) => {
            return Err(e);
        },
    }
    if pod.is_in_transit != 0 {
        return Err(OridionError::InTransit);
    }
    if bytes_equal(&to_1.key, &to_2.key) || bytes_equal(&to_2.key, &to_3.key) || bytes_equal(
        &to_1.key,
        &to_3.key,
    ) {
        return Err(OridionError::HopErrorStarsMustBeUnique);
    }
    let total: u64 = pod.lamports;
    if total == 0 {
        return Err(OridionError::InvalidDepositAmount);
    }
    if from.lamports < total {
        return Err(OridionError::PlanetNotEnoughFundsError);
    }
    let splits = scatter_split(
        total,
        scatter_percent(read_u64_le(entropy, 0)),
        scatter_percent(read_u64_le(entropy, 1)),
    );
    if (splits[0] as u128) + (splits[1] as u128) + (splits[2] as u128) != (total as u128) {
        return Err(OridionError::ScatterSplitMathError);
    }
    let one_after: u64 = match credit(to_1.lamports, splits[0]) {
        Ok(sum) => sum,
        Err(e) => {
            return Err(e);
        },
    };
    let two_after: u64 = match credit(to_2.lamports, splits[1]) {
        Ok(sum) => sum,
        Err(e) => {
            return Err(e);
        },
    };
    let three_after: u64 = match credit(to_3.lamports, splits[2]) {
        Ok(sum) => sum,
        Err(e) => {
            return Err(e);
        },
    };
    from.lamports = from.lamports - total;
    to_1.lamports = one_after;
    to_2.lamports = two_after;
    to_3.lamports = three_after;
    meta.from = from.key;
    meta.to_pdas = make_triple(to_1.key, to_2.key, to_3.key);
    meta.amounts = make_triple(splits[0], splits[1], splits[2]);
    meta.created_at = now;
    meta.bump = bump;
    pod.is_in_transit = 1;
    pod.last_process_at = now;
    from.locked_at = 0;
    from.locked_by = null_key();
    Ok(())
}

/// Starts a scatter at `now`. A refusal changes nothing; after a success the three
/// recorded branches add up to the pod's amount.
pub fn fan_start(
    pod: &mut Pod,
    from: &mut Planet,
    to_1: &mut Planet,
    to_2: &mut Planet,
    to_3: &mut Planet,
    meta: &mut TransitMeta,
    bump: u8,
    now: i64,
) -> (r: Result<(), OridionError>)
    ensures
        match fan_start_outcome(
            old(pod)@,
            *old(from),
            *old(to_1),
            *old(to_2),
            *old(to_3),
            *old(meta),
            bump,
            now,
        ) {
            Ok(after) => {
                &&& r is Ok
                &&& final(pod)@ == after.pod
                &&& *final(from) == after.from
                &&& *final(to_1) == after.to_1
                &&& *final(to_2) == after.to_2
                &&& *final(to_3) == after.to_3
                &&& *final(meta) == after.meta
                &&& after.meta.amounts[0] + after.meta.amounts[1] + after.meta.amounts[2] == old(
                    pod,
                ).lamports
            },
            Err(e) => {
                &&& r == Err::<(), OridionError>(e)
                &&& *final(pod) == *old(pod)
                &&& *final(from) == *old(from)
                &&& *final(to_1) == *old(to_1)
                &&& *final(to_2) == *old(to_2)
                &&& *final(to_3) == *old(to_3)
                &&& *final(meta) == *old(meta)
            },
        },
        old(pod)@.wf() ==> final(pod)@.wf(),
{
    let parts = scatter_message_parts(now);
    let entropy = keccak256v(&parts);
    fan_start_at(pod, from, to_1, to_2, to_3, meta, bump, &entropy, now)
}

/// The state after a scatter has ended.
pub struct Gathered {
    pub pod: PodView,
    pub to: Planet,
    pub from_1: Planet,
    pub from_2: Planet,
    pub from_3: Planet,
    pub meta: TransitMeta,
    pub book: Seq<Seq<u8>>,
}

/// The record of no scatter.
pub open spec fn no_transit() -> TransitMeta {
    TransitMeta {
        from: zero_key(),
        to_pdas: triple(zero_key(), zero_key(), zero_key()),
        amounts: triple(0u64, 0u64, 0u64),
        created_at: 0,
        bump: 0,
    }
}

/// The first reason, if any, for which the end of a scatter is refused before the
/// pod moves.
pub open spec fn fan_end_refusal(
    pod: PodView,
    to: Planet,
    from_1: Planet,
    from_2: Planet,
    from_3: Planet,
    meta: TransitMeta,
    now: i64,
) -> Option<OridionError> {
    let a0 = meta.amounts[0];
    let a1 = meta.amounts[1];
    let a2 = meta.amounts[2];
    if meta.created_at <= 0 {
        Some(OridionError::InvalidScatterMeta)
    } else if pod.is_in_transit != 1 {
        Some(OridionError::NotInTransit)
    } else if !from_1.is_usable_by(pod.key, now) || !from_2.is_usable_by(pod.key, now)
        || !from_3.is_usable_by(pod.key, now) {
        Some(OridionError::PlanetStillLocked)
    } else if from_1.lamports < a0 {
        Some(OridionError::PlanetNotEnoughFundsError)
    } else if from_2.lamports < a1 {
        Some(OridionError::PlanetNotEnoughFundsError)
    } else if a0 + a1 > u64::MAX {
        Some(OridionError::UnusualMathError)
    } else if from_3.lamports < a2 {
        Some(OridionError::PlanetNotEnoughFundsError)
    } else if a0 + a1 + a2 > u64::MAX {
        Some(OridionError::UnusualMathError)
    } else if a0 + a1 + a2 != pod.lamports {
        Some(OridionError::ScatterTotalToPodMismatch)
    } else if to.lamports + pod.lamports > u64::MAX {
        Some(OridionError::ArithmeticOverflow)
    } else {
        None
    }
}

/// What ending a scatter leads to. Each branch planet gives its recorded branch
/// and is unlocked, the planet `to` receives the pod's full amount, the pod
/// arrives on it and is at rest again, and the record is cleared.
pub open spec fn fan_end_outcome(
    pod: PodView,
    to: Planet,
    from_1: Planet,
    from_2: Planet,
    from_3: Planet,
    meta: TransitMeta,
    book: Seq<Seq<u8>>,
    now: i64,
    slot: u64,
) -> Result<Gathered, OridionError> {
    match fan_end_refusal(pod, to, from_1, from_2, from_3, meta, now) {
        Some(e) => Err(e),
        None => match arrived(
            PodView { is_in_transit: 0, ..pod },
            book,
            to.key,
            to.name,
            ActivityAction::Scatter.code_spec(),
            now,
            slot,
        ) {
            Err(e) => Err(e),
            Ok((p, b)) => Ok(
                Gathered {
                    pod: p,
                    to: branch_received(to, pod.lamports as int),
                    from_1: drained(from_1, meta.amounts[0]),
                    from_2: drained(from_2, meta.amounts[1]),
                    from_3: drained(from_3, meta.amounts[2]),
                    meta: no_transit(),
                    book: b,
                },
            ),
        },
    }
}

/// Ends a scatter. A refusal changes nothing; a success moves exactly the pod's
/// amount from the three branch planets to `to`.
pub fn fan_end(
    pod: &mut Pod,
    to: &mut Planet,
    from_1: &mut Planet,
    from_2: &mut Planet,
    from_3: &mut Planet,
    meta: &mut TransitMeta,
    book: &mut LandBook,
    now: i64,
    slot: u64,
) -> (r: Result<(), OridionError>)
    ensures
        match fan_end_outcome(
            old(pod)@,
            *old(to),
            *old(from_1),
            *old(from_2),
            *old(from_3),
            *old(meta),
            old(book)@,
            now,
            slot,
        ) {
            Ok(after) => {
                &&& r is Ok
                &&& final(pod)@ == after.pod
                &&& *final(to) == after.to
                &&& *final(from_1) == after.from_1
                &&& *final(from_2) == after.from_2
                &&& *final(from_3) == after.from_3
                &&& *final(meta) == after.meta
                &&& final(book)@ == after.book
                &&& after.to.lamports + after.from_1.lamports + after.from_2.lamports
                    + after.from_3.lamports == old(to).lamports + old(from_1).lamports + old(
                    from_2,
                ).lamports + old(from_3).lamports
            },
            Err(e) => {
                &&& r == Err::<(), OridionError>(e)
                &&& *final(pod) == *old(pod)
                &&& *final(to) == *old(to)
                &&& *final(from_1) == *old(from_1)
                &&& *final(from_2) == *old(from_2)
                &&& *final(from_3) == *old(from_3)
                &&& *final(meta) == *old(meta)
                &&& *final(book) == *old(book)
            },
        },
        old(pod)@.wf() ==> final(pod)@.wf(),
        book_wf(old(book)@) ==> book_wf(final(book)@),
{
    if meta.created_at <= 0 {
        return Err(OridionError::InvalidScatterMeta);
    }
    if pod.is_in_transit != 1 {
        return Err(OridionError::NotInTransit);
    }
    if !planet_is_usable(from_1, &pod.key, now) || !planet_is_usable(from_2, &pod.key, now)
        || !planet_is_usable(from_3, &pod.key, now) {
        return Err(OridionError::PlanetStillLocked);
    }
    let a0: u64 = meta.amounts[0];
    let a1: u64 = meta.amounts[1];
    let a2: u64 = meta.amounts[2];
    if from_1.lamports < a0 {
        return Err(OridionError::PlanetNotEnoughFundsError);
    }
    if from_2.lamports < a1 {
        return Err(OridionError::PlanetNotEnoughFundsError);
    }
    let first_two: u64 = match a0.checked_add(a1) {
        Some(sum) => sum,
        None => {
            return Err(OridionError::UnusualMathError);
        },
    };
    if from_3.lamports < a2 {
        return Err(OridionError::PlanetNotEnoughFundsError);
    }
    let total: u64 = match first_two.checked_add(a2) {
        Some(sum) => sum,
        None => {
            return Err(OridionError::UnusualMathError);
        },
    };
    if total != pod.lamports {
        return Err(OridionError::ScatterTotalToPodMismatch);
    }
    let to_after: u64 = match credit(to.lamports, total) {
        Ok(sum) => sum,
        Err(e) => {
            return Err(e);
        },
    };
    let was_in_transit: u8 = pod.is_in_transit;
    pod.is_in_transit = 0;
    match arrive(pod, book, to.key, &to.name, ActivityAction::Scatter.code(), now, slot) {
        Ok(()) => {},
        Err(e) => {
            pod.is_in_transit = was_in_transit;
            return Err(e);
        },
    }
    from_1.lamports = from_1.lamports - a0;
    from_2.lamports = from_2.lamports - a1;
    from_3.lamports = from_3.lamports - a2;
    to.lamports = to_after;
    from_1.locked_at = 0;
    from_1.locked_by = null_key();
    from_2.locked_at = 0;
    from_2.locked_by = null_key();
    from_3.locked_at = 0;
    from_3.locked_by = null_key();
    meta.from = null_key();
    meta.to_pdas = make_triple(null_key(), null_key(), null_key());
    meta.amounts = make_triple(0u64, 0u64, 0u64);
    meta.created_at = 0;
    meta.bump = 0;
    Ok(())
}

} // verus!
