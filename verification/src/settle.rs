//! Landing: against a ticket, on the creator's demand, or with the passcode.

use crate::account_land::{book_redeem, book_wf, LandBook};
use crate::account_planet::Planet;
use crate::account_pod::{Pod, PodView};
use crate::all_accounts::Wallet;
use crate::errors::OridionError;
use crate::hashing::{sha256_of, sha256v, str_bytes};
use crate::keys::{bytes_equal, null_key};
use crate::ledger::credit;
use crate::shared::{land_token, planet_is_usable, token_from};
use crate::star::drained;
use crate::text::{ascii_uppercase, to_ascii_uppercase, trim, trimmed};
use crate::variables::EMERGENCY_COOLDOWN_SECONDS;
use vstd::prelude::*;

verus! {

/// The claim that a landing is made with: the pod's id, its launch time and its
/// amount. The destination is the account that is to be credited.
#[derive(Clone, Copy, Debug, PartialEq, Eq)]
pub struct LandArgs {
    pub id: u16,
    pub created_at: i64,
    pub lamports: u64,
}

/// A wallet after `amount` has been paid into it.
pub open spec fn paid(wallet: Wallet, amount: u64) -> Wallet {
    Wallet { lamports: (wallet.lamports + amount) as u64, ..wallet }
}

/// What redeeming `ticket` for `lamports` leads to. The ticket must be in the
/// registry and the planet must hold the amount; then the destination is credited,
/// the planet debited and unlocked, and the ticket removed.
pub open spec fn settle_with(
    book: Seq<Seq<u8>>,
    from: Planet,
    destination: Wallet,
    ticket: Seq<u8>,
    lamports: u64,
) -> Result<(Seq<Seq<u8>>, Planet, Wallet), OridionError> {
    match book_redeem(book, ticket) {
        Err(e) => Err(e),
        Ok(after) => if from.lamports < lamports {
            Err(OridionError::PlanetNotEnoughFundsError)
        } else if destination.lamports + lamports > u64::MAX {
            Err(OridionError::ArithmeticOverflow)
        } else {
            Ok((after, drained(from, lamports), paid(destination, lamports)))
        },
    }
}

/// What a landing leads to: the ticket is the one that the claim and the
/// destination's address derive.
pub open spec fn settle_outcome(
    book: Seq<Seq<u8>>,
    from: Planet,
    destination: Wallet,
    args: LandArgs,
) -> Result<(Seq<Seq<u8>>, Planet, Wallet), OridionError> {
    settle_with(
        book,
        from,
        destination,
        land_token(args.id, destination.key@, args.lamports, args.created_at),
        args.lamports,
    )
}

/// Lands `lamports` at the destination against `ticket`. A refusal changes
/// nothing; a success moves exactly `lamports` from the planet to the destination.
pub fn settle_ticket(
    book: &mut LandBook,
    from: &mut Planet,
    destination: &mut Wallet,
    ticket: &[u8; 16],
    lamports: u64,
) -> (r: Result<(), OridionError>)
    ensures
        match settle_with(old(book)@, *old(from), *old(destination), ticket@, lamports) {
            Ok((b, f, d)) => {
                &&& r is Ok
                &&& final(book)@ == b
                &&& *final(from) == f
                &&& *final(destination) == d
                &&& f.lamports + d.lamports == old(from).lamports + old(destination).lamports
            },
            Err(e) => {
                &&& r == Err::<(), OridionError>(e)
                &&& *final(book) == *old(book)
                &&& *final(from) == *old(from)
                &&& *final(destination) == *old(destination)
            },
        },
        book_wf(old(book)@) ==> book_wf(final(book)@),
{
    let index: usize = match book.position(ticket) {
        Some(i) => i,
        None => {
            return Err(OridionError::TicketNotFound);
        },
    };
    if from.lamports < lamports {
        return Err(OridionError::PlanetNotEnoughFundsError);
    }
    let destination_after: u64 = match credit(destination.lamports, lamports) {
        Ok(sum) => sum,
        Err(e) => {
            return Err(e);
        },
    };
    destination.lamports = destination_after;
    from.lamports = from.lamports - lamports;
    let _ = book.swap_remove(index);
    from.locked_at = 0;
    from.locked_by = null_key();
    Ok(())
}

/// Lands a pod's amount at its destination. The claim and the destination's
/// address must derive a ticket that is in the registry, else the landing is
/// refused with `TicketNotFound`. A refusal changes nothing.
pub fn settle(
    book: &mut LandBook,
    from: &mut Planet,
    destination: &mut Wallet,
    args: LandArgs,
) -> (r: Result<(), OridionError>)
    ensures
        match settle_outcome(old(book)@, *old(from), *old(destination), args) {
            Ok((b, f, d)) => {
                &&& r is Ok
                &&& final(book)@ == b
                &&& *final(from) == f
                &&& *final(destination) == d
                &&& f.lamports + d.lamports == old(from).lamports + old(destination).lamports
            },
            Err(e) => {
                &&& r == Err::<(), OridionError>(e)
                &&& *final(book) == *old(book)
                &&& *final(from) == *old(from)
                &&& *final(destination) == *old(destination)
            },
        },
        book_wf(old(book)@) ==> book_wf(final(book)@),
{
    let expect = token_from(args.id, &destination.key, args.lamports, args.created_at);
    settle_ticket(book, from, destination, &expect, args.lamports)
}

/// The first reason, if any, for which the planet or the pod itself stands against
/// a forced landing.
pub open spec fn forced_landing_refusal(pod: PodView, from: Planet, now: i64) -> Option<
    OridionError,
> {
    if !from.is_usable_by(pod.key, now) {
        Some(OridionError::PlanetStillLocked)
    } else if pod.lamports == 0 {
        Some(OridionError::AlreadyLanded)
    } else if from.lamports < pod.lamports {
        Some(OridionError::PlanetNotEnoughFundsError)
    } else {
        None
    }
}

/// What a landing forced by the creator leads to. It is open only after the
/// cooldown since the launch, and passes by the ticket registry. The destination
/// must be the pod's; then it is credited, the planet is debited and unlocked, and
/// the pod's slot is vacant.
pub open spec fn usr_settle_outcome(
    pod: PodView,
    from: Planet,
    destination: Wallet,
    now: i64,
) -> Result<(PodView, Planet, Wallet), OridionError> {
    if now <= pod.created_at + EMERGENCY_COOLDOWN_SECONDS {
        Err(OridionError::TooSoonToEmLand)
    } else if forced_landing_refusal(pod, from, now) is Some {
        Err(forced_landing_refusal(pod, from, now)->Some_0)
    } else if destination.key != pod.destination {
        Err(OridionError::InvalidDestination)
    } else if destination.lamports + pod.lamports > u64::MAX {
        Err(OridionError::ArithmeticOverflow)
    } else {
        Ok((PodView::vacant(pod.key), drained(from, pod.lamports), paid(destination, pod.lamports)))
    }
}

/// Lands a pod at its destination on its creator's demand. A refusal changes
/// nothing; a success moves exactly the pod's amount from the planet to the
/// destination.
pub fn usr_settle(
    pod: &mut Pod,
    from_planet: &mut Planet,
    destination: &mut Wallet,
    now: i64,
) -> (r: Result<(), OridionError>)
    ensures
        match usr_settle_outcome(old(pod)@, *old(from_planet), *old(destination), now) {
            Ok((p, f, d)) => {
                &&& r is Ok
                &&& final(pod)@ == p
                &&& *final(from_planet) == f
                &&& *final(destination) == d
                &&& f.lamports + d.lamports == old(from_planet).lamports + old(
                    destination,
                ).lamports
            },
            Err(e) => {
                &&& r == Err::<(), OridionError>(e)
                &&& *final(pod) == *old(pod)
                &&& *final(from_planet) == *old(from_planet)
                &&& *final(destination) == *old(destination)
            },
        },
        old(pod)@.wf() ==> final(pod)@.wf(),
{
    if (now as i128) <= (pod.created_at as i128) + (EMERGENCY_COOLDOWN_SECONDS as i128) {
        return Err(OridionError::TooSoonToEmLand);
    }
    if !planet_is_usable(from_planet, &pod.key, now) {
        return Err(OridionError::PlanetStillLocked);
    }
    let delivery: u64 = pod.lamports;
    if delivery == 0 {
        return Err(OridionError::AlreadyLanded);
    }
    if from_planet.lamports < delivery {
        return Err(OridionError::PlanetNotEnoughFundsError);
    }
    if !bytes_equal(&destination.key, &pod.destination) {
        return Err(OridionError::InvalidDestination);
    }
    let destination_after: u64 = match credit(destination.lamports, delivery) {
        Ok(sum) => sum,
        Err(e) => {
            return Err(e);
        },
    };
    destination.lamports = destination_after;
    from_planet.lamports = from_planet.lamports - delivery;
    from_planet.locked_at = 0;
    from_planet.locked_by = null_key();
    *pod = Pod::vacant(pod.key);
    Ok(())
}

/// The digest that a passcode is checked by: the SHA-256 digest of the UTF-8 bytes
/// of the passcode without the white space around it and with its ASCII letters in
/// upper case.
pub open spec fn passcode_digest_spec(passcode: Seq<char>) -> Seq<u8> {
    sha256_of(seq![vstd::utf8::encode_utf8(ascii_uppercase(trimmed(passcode)))])
}

/// Computes the digest that a passcode is checked by.
pub fn passcode_digest(passcode: &str) -> (digest: [u8; 32])
    ensures
        digest@ == passcode_digest_spec(passcode@),
{
    let clean = to_ascii_uppercase(trim(passcode));
    let mut parts: Vec<Vec<u8>> = Vec::new();
    parts.push(str_bytes(clean.as_str()));
    assert(parts.deep_view() =~~= seq![
        vstd::utf8::encode_utf8(ascii_uppercase(trimmed(passcode@))),
    ]);
    sha256v(&parts)
}

/// What a landing forced with a passcode leads to, given the digest of the
/// passcode that was offered. The digest must be the pod's and the destination the
/// pod's; then the destination is credited, the planet is debited and unlocked, and
/// the pod's slot is vacant.
pub open spec fn code_settle_with(
    pod: PodView,
    from: Planet,
    destination: Wallet,
    digest: Seq<u8>,
    now: i64,
) -> Result<(PodView, Planet, Wallet), OridionError> {
    if forced_landing_refusal(pod, from, now) is Some {
        Err(forced_landing_refusal(pod, from, now)->Some_0)
    } else if digest != pod.passcode_hash@ {
        Err(OridionError::InvalidPasscode)
    } else if destination.key != pod.destination {
        Err(OridionError::InvalidDestination)
    } else if destination.lamports + pod.lamports > u64::MAX {
        Err(OridionError::ArithmeticOverflow)
    } else {
        Ok((PodView::vacant(pod.key), drained(from, pod.lamports), paid(destination, pod.lamports)))
    }
}

/// What a landing forced with the passcode `passcode` leads to.
pub open spec fn code_settle_outcome(
    pod: PodView,
    from: Planet,
    destination: Wallet,
    passcode: Seq<char>,
    now: i64,
) -> Result<(PodView, Planet, Wallet), OridionError> {
    code_settle_with(pod, from, destination, passcode_digest_spec(passcode), now)
}

/// Lands a pod at its destination, given the digest of the passcode that was
/// offered. A refusal changes nothing; a success moves exactly the pod's amount
/// from the planet to the destination.
pub fn code_settle_digest(
    pod: &mut Pod,
    from_planet: &mut Planet,
    destination: &mut Wallet,
    digest: &[u8; 32],
    now: i64,
) -> (r: Result<(), OridionError>)
    ensures
        match code_settle_with(old(pod)@, *old(from_planet), *old(destination), digest@, now) {
            Ok((p, f, d)) => {
                &&& r is Ok
                &&& final(pod)@ == p
                &&& *final(from_planet) == f
                &&& *final(destination) == d
                &&& f.lamports + d.lamports == old(from_planet).lamports + old(
                    destination,
                ).lamports
            },
            Err(e) => {
                &&& r == Err::<(), OridionError>(e)
                &&& *final(pod) == *old(pod)
                &&& *final(from_planet) == *old(from_planet)
                &&& *final(destination) == *old(destination)
            },
        },
        old(pod)@.wf() ==> final(pod)@.wf(),
{
    if !planet_is_usable(from_planet, &pod.key, now) {
        return Err(OridionError::PlanetStillLocked);
    }
    let delivery: u64 = pod.lamports;
    if delivery == 0 {
        return Err(OridionError::AlreadyLanded);
    }
    if from_planet.lamports < delivery {
        return Err(OridionError::PlanetNotEnoughFundsError);
    }
    if !bytes_equal(digest, &pod.passcode_hash) {
        assert(!(digest@ =~= pod.passcode_hash@)) by {
            if digest@ =~= pod.passcode_hash@ {
                assert(*digest =~= pod.passcode_hash);
            }
        }
        return Err(OridionError::InvalidPasscode);
    }
    if !bytes_equal(&destination.key, &pod.destination) {
        return Err(OridionError::InvalidDestination);
    }
    let destination_after: u64 = match credit(destination.lamports, delivery) {
        Ok(sum) => sum,
        Err(e) => {
            return Err(e);
        },
    };
    destination.lamports = destination_after;
    from_planet.lamports = from_planet.lamports - delivery;
    from_planet.locked_at = 0;
    from_planet.locked_by = null_key();
    *pod = Pod::vacant(pod.key);
    Ok(())
}

/// Lands a pod at its destination for whoever knows its passcode. A refusal
/// changes nothing.
pub fn code_settle(
    pod: &mut Pod,
    from_planet: &mut Planet,
    destination: &mut Wallet,
    passcode: String,
    now: i64,
) -> (r: Result<(), OridionError>)
    ensures
        match code_settle_outcome(
            old(pod)@,
            *old(from_planet),
            *old(destination),
            passcode@,
            now,
        ) {
            Ok((p, f, d)) => {
                &&& r is Ok
                &&& final(pod)@ == p
                &&& *final(from_planet) == f
                &&& *final(destination) == d
            },
            Err(e) => {
                &&& r == Err::<(), OridionError>(e)
                &&& *final(pod) == *old(pod)
                &&& *final(from_planet) == *old(from_planet)
                &&& *final(destination) == *old(destination)
            },
        },
        old(pod)@.wf() ==> final(pod)@.wf(),
{
    let digest = passcode_digest(passcode.as_str());
    code_settle_digest(pod, from_planet, destination, &digest, now)
}

/// Whether a pod may be closed: it is due to land and not in transit.
pub open spec fn may_close(pod: PodView) -> bool {
    pod.next_process == 1 && pod.is_in_transit == 0
}

/// Closes a pod that is due to land and at rest: its slot becomes vacant. Any
/// other pod is refused with `PodCloseError` and stays as it is.
pub fn reclaim(pod: &mut Pod) -> (r: Result<(), OridionError>)
    ensures
        may_close(old(pod)@) ==> r is Ok && final(pod)@ == PodView::vacant(old(pod).key),
        !may_close(old(pod)@) ==> r == Err::<(), OridionError>(OridionError::PodCloseError)
            && *final(pod) == *old(pod),
        old(pod)@.wf() ==> final(pod)@.wf(),
{
    if pod.next_process != 1 || pod.is_in_transit != 0 {
        return Err(OridionError::PodCloseError);
    }
    *pod = Pod::vacant(pod.key);
    Ok(())
}

} // verus!
