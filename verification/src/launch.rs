//! Launching a pod.

use crate::account_land::{book_wf, LandBook};
use crate::account_planet::Planet;
use crate::account_pod::{Pod, PodMeta, PodMetaView, PodView};
use crate::account_treasury::Treasury;
use crate::account_universe::Universe;
use crate::all_accounts::Wallet;
use crate::errors::OridionError;
use crate::keys::{array_of, lemma_array_of, nonzero_32, zero_key};
use crate::ledger::credit;
use crate::shared::{schedule_next, scheduled, AccountType};
use crate::variables::{DUST_FLOOR_LAMPORTS, FEE_STEP_SECONDS, MAX_DELAY_ALLOWED};
use vstd::prelude::*;

verus! {

/// What a creator asks for when launching a pod.
#[derive(Clone, Copy, Debug, PartialEq, Eq)]
pub struct PodArgs {
    /// The amount the pod is to carry.
    pub deposit_lamports: u64,
    /// 1 delayed, 2 instant, 3 manual.
    pub mode: u8,
    /// Seconds from the launch to the landing.
    pub delay: u32,
    /// 1 where the creator wants a public memo attached.
    pub show_memo: u8,
    /// The digest of the emergency passcode.
    pub passcode: [u8; 32],
    /// The first half of the destination address.
    pub d0: [u8; 16],
    /// The second half of the destination address.
    pub d1: [u8; 16],
}

/// The address whose first half is `d0` and whose second half is `d1`.
pub open spec fn joined(d0: [u8; 16], d1: [u8; 16]) -> [u8; 32] {
    array_of::<u8, 32>(d0@ + d1@, 0u8)
}

/// The bytes of a joined address are those of its halves, first `d0`, then `d1`.
pub proof fn lemma_joined(d0: [u8; 16], d1: [u8; 16])
    ensures
        joined(d0, d1)@ == d0@ + d1@,
{
    lemma_array_of::<u8, 32>(d0@ + d1@, 0u8);
}

/// Puts the two halves of an address together.
pub fn join_halves(d0: &[u8; 16], d1: &[u8; 16]) -> (key: [u8; 32])
    ensures
        key@ == d0@ + d1@,
        key == joined(*d0, *d1),
{
    let mut key: [u8; 32] = [0u8; 32];
    let mut i: usize = 0;
    while i < 16
        invariant
            i <= 16,
            forall|j: int| 0 <= j < i ==> key[j] == d0[j],
            forall|j: int| 0 <= j < i ==> key[16 + j] == d1[j],
        decreases 16 - i,
    {
        key[i] = d0[i];
        key[i + 16] = d1[i];
        i += 1;
    }
    assert(key@ =~= d0@ + d1@);
    proof {
        lemma_joined(*d0, *d1);
    }
    assert(key =~= joined(*d0, *d1));
    key
}

/// The fee of a launch: the base fee, and for a delayed pod one increment for
/// every full step of delay.
pub open spec fn launch_fee(universe: Universe, mode: u8, delay: u32) -> int {
    if mode == 1 {
        universe.fee + (delay as int / FEE_STEP_SECONDS as int) * universe.increment
    } else {
        universe.fee as int
    }
}

/// The first reason, if any, for which a launch is refused before anything is
/// scheduled.
pub open spec fn launch_refusal(
    slot: PodView,
    creator: Wallet,
    universe: Universe,
    planet: Planet,
    treasury: Treasury,
    args: PodArgs,
    now: i64,
) -> Option<OridionError> {
    let fee = launch_fee(universe, args.mode, args.delay);
    if args.deposit_lamports <= DUST_FLOOR_LAMPORTS {
        Some(OridionError::InvalidDepositAmount)
    } else if !(1 <= args.mode <= 3) {
        Some(OridionError::InvalidMode)
    } else if args.passcode == zero_key() {
        Some(OridionError::InvalidPasscode)
    } else if args.mode == 1 && now + args.delay <= now {
        Some(OridionError::InvalidLandingTimestamp)
    } else if args.mode == 1 && args.delay > MAX_DELAY_ALLOWED {
        Some(OridionError::InvalidDelay)
    } else if !slot.is_vacant() {
        Some(OridionError::ExistingPodActive)
    } else if joined(args.d0, args.d1) == zero_key() {
        Some(OridionError::InvalidDestination)
    } else if now + args.delay > i64::MAX || fee > u64::MAX || args.deposit_lamports + fee
        > u64::MAX {
        Some(OridionError::ArithmeticOverflow)
    } else if creator.lamports < args.deposit_lamports + fee {
        Some(OridionError::InsufficientFunds)
    } else if treasury.lamports + fee > u64::MAX || planet.lamports + args.deposit_lamports
        > u64::MAX || planet.visits + 1 > u64::MAX {
        Some(OridionError::ArithmeticOverflow)
    } else {
        None
    }
}

/// The pod that a launch puts on `planet`, before its next step is scheduled.
pub open spec fn launched_pod(
    slot: PodView,
    planet: Planet,
    id: u16,
    args: PodArgs,
    now: i64,
) -> PodView {
    PodView {
        key: slot.key,
        account_type: AccountType::Pod.code_spec(),
        version: 1,
        mode: args.mode,
        next_process: 0,
        last_process: 0,
        is_in_transit: 0,
        id,
        hops: 1,
        delay: args.delay,
        next_process_at: 0,
        land_at: (now + args.delay) as i64,
        created_at: now,
        last_process_at: now,
        lamports: args.deposit_lamports,
        location: planet.key,
        destination: joined(args.d0, args.d1),
        passcode_hash: args.passcode,
        authority: slot.authority,
        log: Seq::empty(),
    }
}

/// The state after a launch that succeeded.
pub struct Launched {
    pub pod: PodView,
    pub pod_meta: PodMetaView,
    pub creator: Wallet,
    pub planet: Planet,
    pub treasury: Treasury,
    pub book: Seq<Seq<u8>>,
}

/// What a launch leads to. The creator pays the deposit and the fee, the planet
/// receives the deposit and counts a visit, the treasury receives the fee, the
/// creator's index records the pod, and the pod is created at rest on the planet
/// with its next step scheduled and, unless it is instant, a log that starts with
/// the launch.
pub open spec fn launch_outcome(
    slot: PodView,
    pod_meta: PodMetaView,
    creator: Wallet,
    universe: Universe,
    planet: Planet,
    treasury: Treasury,
    book: Seq<Seq<u8>>,
    id: u16,
    args: PodArgs,
    now: i64,
    slot_number: u64,
) -> Result<Launched, OridionError> {
    match launch_refusal(slot, creator, universe, planet, treasury, args, now) {
        Some(e) => Err(e),
        None => {
            let fee = launch_fee(universe, args.mode, args.delay);
            match scheduled(launched_pod(slot, planet, id, args, now), book, now, slot_number) {
                Err(e) => Err(e),
                Ok((pod, book_after)) => Ok(
                    Launched {
                        pod: if args.mode != 2 {
                            pod.log_started(planet.name, now)
                        } else {
                            pod
                        },
                        pod_meta: pod_meta.recorded(creator.key, id, now),
                        creator: Wallet {
                            lamports: (creator.lamports - args.deposit_lamports - fee) as u64,
                            ..creator
                        },
                        planet: Planet {
                            lamports: (planet.lamports + args.deposit_lamports) as u64,
                            visits: (planet.visits + 1) as u64,
                            ..planet
                        },
                        treasury: Treasury {
                            lamports: (treasury.lamports + fee) as u64,
                            ..treasury
                        },
                        book: book_after,
                    },
                ),
            }
        },
    }
}

/// Computes the fee of a launch, or reports that it does not fit.
pub fn required_fee(universe: &Universe, mode: u8, delay: u32) -> (fee: Option<u64>)
    ensures
        match fee {
            Some(f) => f == launch_fee(*universe, mode, delay),
            None => launch_fee(*universe, mode, delay) > u64::MAX,
        },
{
    if mode == 1 {
        let steps: u64 = (delay as u64) / FEE_STEP_SECONDS;
        assert(steps * universe.increment <= 0xffff_ffff * 0xffff_ffff_ffff_ffff) by (
            nonlinear_arith)
            requires
                0 <= steps <= 0xffff_ffff,
                0 <= universe.increment <= 0xffff_ffff_ffff_ffff,
        ;
        let wide: u128 = (universe.fee as u128) + (steps as u128) * (universe.increment as u128);
        if wide > (u64::MAX as u128) {
            None
        } else {
            Some(wide as u64)
        }
    } else {
        Some(universe.fee)
    }
}

/// Launches a pod into a vacant slot and puts it on `planet`. The checks come in
/// the order of `launch_refusal`; a refusal changes nothing.
pub fn launch(
    pod: &mut Pod,
    pod_meta: &mut PodMeta,
    creator: &mut Wallet,
    universe: &Universe,
    planet: &mut Planet,
    treasury: &mut Treasury,
    book: &mut LandBook,
    id: u16,
    args: PodArgs,
    now: i64,
    slot: u64,
) -> (r: Result<(), OridionError>)
    ensures
        match launch_outcome(
            old(pod)@,
            old(pod_meta)@,
            *old(creator),
            *universe,
            *old(planet),
            *old(treasury),
            old(book)@,
            id,
            args,
            now,
            slot,
        ) {
            Ok(after) => {
                &&& r is Ok
                &&& final(pod)@ == after.pod
                &&& final(pod_meta)@ == after.pod_meta
                &&& *final(creator) == after.creator
                &&& *final(planet) == after.planet
                &&& *final(treasury) == after.treasury
                &&& final(book)@ == after.book
            },
            Err(e) => {
                &&& r == Err::<(), OridionError>(e)
                &&& *final(pod) == *old(pod)
                &&& *final(pod_meta) == *old(pod_meta)
                &&& *final(creator) == *old(creator)
                &&& *final(planet) == *old(planet)
                &&& *final(treasury) == *old(treasury)
                &&& *final(book) == *old(book)
            },
        },
        r is Ok ==> final(pod)@.wf(),
        book_wf(old(book)@) ==> book_wf(final(book)@),
{
    if args.deposit_lamports <= DUST_FLOOR_LAMPORTS {
        return Err(OridionError::InvalidDepositAmount);
    }
    if args.mode < 1 || args.mode > 3 {
        return Err(OridionError::InvalidMode);
    }
    if !nonzero_32(&args.passcode) {
        return Err(OridionError::InvalidPasscode);
    }
    if args.mode == 1 && args.delay == 0 {
        return Err(OridionError::InvalidLandingTimestamp);
    }
    if args.mode == 1 && args.delay > MAX_DELAY_ALLOWED {
        return Err(OridionError::InvalidDelay);
    }
    if pod.version != 0 || nonzero_32(&pod.destination) {
        return Err(OridionError::ExistingPodActive);
    }
    let dest = join_halves(&args.d0, &args.d1);
    if !nonzero_32(&dest) {
        return Err(OridionError::InvalidDestination);
    }
    let land_wide: i128 = (now as i128) + (args.delay as i128);
    if land_wide > (i64::MAX as i128) {
        return Err(OridionError::ArithmeticOverflow);
    }
    let land_at: i64 = land_wide as i64;
    let fee: u64 = match required_fee(universe, args.mode, args.delay) {
        Some(f) => f,
        None => {
            return Err(OridionError::ArithmeticOverflow);
        },
    };
    let total_payment: u64 = match args.deposit_lamports.checked_add(fee) {
        Some(t) => t,
        None => {
            return Err(OridionError::ArithmeticOverflow);
        },
    };
    if creator.lamports < total_payment {
        return Err(OridionError::InsufficientFunds);
    }
    let treasury_after: u64 = match credit(treasury.lamports, fee) {
        Ok(t) => t,
        Err(e) => {
            return Err(e);
        },
    };
    let planet_after: u64 = match credit(planet.lamports, args.deposit_lamports) {
        Ok(t) => t,
        Err(e) => {
            return Err(e);
        },
    };
    let visits_after: u64 = match planet.visits.checked_add(1) {
        Some(t) => t,
        None => {
            return Err(OridionError::ArithmeticOverflow);
        },
    };
    let mut fresh = Pod {
        key: pod.key,
        account_type: AccountType::Pod.code(),
        version: 1,
        mode: args.mode,
        next_process: 0,
        last_process: 0,
        is_in_transit: 0,
        id,
        hops: 1,
        delay: args.delay,
        next_process_at: 0,
        land_at,
        created_at: now,
        last_process_at: now,
        lamports: args.deposit_lamports,
        location: planet.key,
        destination: dest,
        passcode_hash: args.passcode,
        authority: pod.authority,
        log: Vec::new(),
    };
    assert(fresh@ == launched_pod(pod@, *planet, id, args, now));
    match schedule_next(&mut fresh, book, now, slot) {
        Ok(()) => {},
        Err(e) => {
            return Err(e);
        },
    }
    if args.mode != 2 {
        fresh.init_log(&planet.name, now);
    }
    *pod = fresh;
    pod_meta.record_launch(creator.key, id, now);
    creator.lamports = creator.lamports - total_payment;
    treasury.lamports = treasury_after;
    planet.lamports = planet_after;
    planet.visits = visits_after;
    Ok(())
}

} // verus!
