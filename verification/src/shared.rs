//! What the operations share: the lock manager, land tickets, and the scheduling
//! of a pod's next step.

use crate::account_land::{book_insert, book_wf, LandBook};
use crate::account_planet::Planet;
use crate::account_pod::{Pod, PodView};
use crate::encoding::{
    i64_le_bytes, le_bytes_i64, le_bytes_u16, le_bytes_u64, read_u64_le, u16_le_bytes,
    u64_le_bytes, window_spec,
};
use crate::errors::OridionError;
use crate::hashing::{first_half, key_bytes, sha256_of, sha256v, str_bytes};
use crate::keys::{bytes_equal, null_key};
use crate::variables::{
    HOP_CLAMP_MARGIN_SECONDS, HOP_JITTER_MAX_SECONDS, HOP_JITTER_MIN_SECONDS, LAND_WINDOW_SECONDS,
    LOCK_EXPIRE_SECONDS, SPLIT_PERCENT_MAX, SPLIT_PERCENT_MIN,
};
use vstd::prelude::*;
use vstd::string::StringSliceAdditionalSpecFns;

verus! {

/// The kinds of stored record.
#[derive(Clone, Copy, Debug, PartialEq, Eq, Structural)]
pub enum AccountType {
    Universe,
    Pod,
    Planet,
}

impl AccountType {
    /// The number under which the kind is stored.
    pub open spec fn code_spec(self) -> u8 {
        match self {
            AccountType::Universe => 0,
            AccountType::Pod => 1,
            AccountType::Planet => 2,
        }
    }

    /// The number under which the kind is stored.
    pub fn code(self) -> (c: u8)
        ensures
            c == self.code_spec(),
    {
        match self {
            AccountType::Universe => 0,
            AccountType::Pod => 1,
            AccountType::Planet => 2,
        }
    }
}

/// The name of a pod mode.
pub open spec fn mode_name(mode: u8) -> Seq<char> {
    if mode == 1 {
        "Delayed"@
    } else if mode == 2 {
        "Instant"@
    } else if mode == 3 {
        "Manual"@
    } else {
        "Unknown"@
    }
}

/// The name of a pod mode: 1 is delayed, 2 instant, 3 manual.
pub fn mode_string(mode: u8) -> (name: &'static str)
    ensures
        name@ == mode_name(mode),
{
    match mode {
        1 => "Delayed",
        2 => "Instant",
        3 => "Manual",
        _ => "Unknown",
    }
}

/// The percentage, from 10 to 90, that the time `now` stands for.
pub open spec fn random_percent_spec(now: i64) -> int {
    now % 81 + 10
}

/// Draws a percentage from 10 to 90 from the clock.
pub fn get_random_percent(now: i64) -> (percent: u8)
    ensures
        percent == random_percent_spec(now),
        SPLIT_PERCENT_MIN <= percent <= SPLIT_PERCENT_MAX,
{
    let wide: i128 = now as i128;
    let rest: i128 = if wide >= 0 {
        wide % 81
    } else {
        80 - ((-(wide + 1)) % 81)
    };
    (rest + 10) as u8
}

/// The message whose digest is a pod's land ticket: a tag, then the pod's id, its
/// destination, its amount and its launch time, numbers least significant byte
/// first.
pub open spec fn land_message(id: u16, dest: Seq<u8>, amount: u64, created_at: i64) -> Seq<
    Seq<u8>,
> {
    seq![
        "ORIDION_LAND_V1".spec_bytes(),
        le_bytes_u16(id),
        dest,
        le_bytes_u64(amount),
        le_bytes_i64(created_at),
    ]
}

/// The land ticket of a pod: the first sixteen bytes of the SHA-256 digest of its
/// land message.
pub open spec fn land_token(id: u16, dest: Seq<u8>, amount: u64, created_at: i64) -> Seq<u8> {
    sha256_of(land_message(id, dest, amount, created_at)).subrange(0, 16)
}

/// Writes the land message of a pod, part by part.
pub fn land_parts(id: u16, dest: &[u8; 32], amount: u64, created_at: i64) -> (parts: Vec<Vec<u8>>)
    ensures
        parts.deep_view() == land_message(id, dest@, amount, created_at),
{
    let mut parts: Vec<Vec<u8>> = Vec::new();
    parts.push(str_bytes("ORIDION_LAND_V1"));
    parts.push(u16_le_bytes(id));
    parts.push(key_bytes(dest));
    parts.push(u64_le_bytes(amount));
    parts.push(i64_le_bytes(created_at));
    assert(parts.deep_view() =~~= land_message(id, dest@, amount, created_at));
    parts
}

/// Computes the land ticket that binds a pod's id, destination, amount and launch
/// time.
pub fn token_from(id: u16, dest: &[u8; 32], amount: u64, created_at: i64) -> (token: [u8; 16])
    ensures
        token@ == land_token(id, dest@, amount, created_at),
{
    let parts = land_parts(id, dest, amount, created_at);
    let digest = sha256v(&parts);
    first_half(&digest)
}

/// The message whose digest seeds the pause before a pod's next hop.
pub open spec fn jitter_message(id: u16, hops: u16, created_at: i64, slot: u64) -> Seq<Seq<u8>> {
    seq![
        "ORIDION_HOP_JITTER_V1".spec_bytes(),
        le_bytes_u16(id),
        le_bytes_u16(hops),
        le_bytes_i64(created_at),
        le_bytes_u64(slot),
    ]
}

/// The number drawn for a pod's next pause: the first eight bytes of the SHA-256
/// digest of its jitter message, least significant byte first.
pub open spec fn jitter_draw(id: u16, hops: u16, created_at: i64, slot: u64) -> int {
    window_spec(sha256_of(jitter_message(id, hops, created_at, slot)), 0)
}

/// A draw mapped into the seconds from `min_s` to `max_s`, both included.
pub open spec fn jitter_of_draw(draw: int, min_s: i64, max_s: i64) -> int {
    min_s + draw % (max_s - min_s + 1)
}

/// Maps a draw into the seconds from `min_s` to `max_s`, both included.
pub fn jitter_from_draw(draw: u64, min_s: i64, max_s: i64) -> (pause: i64)
    requires
        min_s <= max_s,
        max_s - min_s < i64::MAX,
    ensures
        pause == jitter_of_draw(draw as int, min_s, max_s),
        min_s <= pause <= max_s,
{
    let span: u64 = ((max_s as i128) - (min_s as i128) + 1) as u64;
    let offset: u64 = draw % span;
    ((min_s as i128) + (offset as i128)) as i64
}

/// Writes the jitter message of a pod, part by part.
pub fn jitter_parts(id: u16, hops: u16, created_at: i64, slot: u64) -> (parts: Vec<Vec<u8>>)
    ensures
        parts.deep_view() == jitter_message(id, hops, created_at, slot),
{
    let mut parts: Vec<Vec<u8>> = Vec::new();
    parts.push(str_bytes("ORIDION_HOP_JITTER_V1"));
    parts.push(u16_le_bytes(id));
    parts.push(u16_le_bytes(hops));
    parts.push(i64_le_bytes(created_at));
    parts.push(u64_le_bytes(slot));
    assert(parts.deep_view() =~~= jitter_message(id, hops, created_at, slot));
    parts
}

/// Draws the pause before a pod's next hop, between `min_s` and `max_s` seconds,
/// from the pod's id, its hop count, its launch time and the slot.
pub fn jitter_seconds(
    id: u16,
    hops: u16,
    created_at: i64,
    slot: u64,
    min_s: i64,
    max_s: i64,
) -> (pause: i64)
    requires
        min_s <= max_s,
        max_s - min_s < i64::MAX,
    ensures
        pause == jitter_of_draw(jitter_draw(id, hops, created_at, slot), min_s, max_s),
        min_s <= pause <= max_s,
{
    let parts = jitter_parts(id, hops, created_at, slot);
    let digest = sha256v(&parts);
    let draw: u64 = read_u64_le(&digest, 0);
    jitter_from_draw(draw, min_s, max_s)
}

/// The pod after the bookkeeping of a completed step: one more hop counted, up to
/// the largest count, and the step stamped with `now`.
pub open spec fn stepped(pod: PodView, now: i64) -> PodView {
    PodView {
        hops: if pod.hops < u16::MAX {
            (pod.hops + 1) as u16
        } else {
            pod.hops
        },
        last_process: 1,
        last_process_at: now,
        ..pod
    }
}

/// The landing of the pod is close enough at `now` for it to be scheduled.
pub open spec fn due_to_land(pod: PodView, now: i64) -> bool {
    pod.land_at - now <= LAND_WINDOW_SECONDS
}

/// When the next hop is due after a pause of `pause` seconds: never later than the
/// margin before the landing time.
pub open spec fn next_hop_time(pod: PodView, now: i64, pause: int) -> int {
    if now + pause > pod.land_at - HOP_CLAMP_MARGIN_SECONDS {
        pod.land_at - HOP_CLAMP_MARGIN_SECONDS
    } else {
        now + pause
    }
}

/// What scheduling a pod's next step leads to, given its land ticket and the
/// pause drawn for it. Only delayed pods are scheduled. A pod that is due to land
/// is set to land at its landing time and its ticket is entered in the registry,
/// once; any other pod is set to hop after the pause.
pub open spec fn schedule_with(
    pod: PodView,
    book: Seq<Seq<u8>>,
    now: i64,
    ticket: Seq<u8>,
    pause: int,
) -> Result<(PodView, Seq<Seq<u8>>), OridionError> {
    if pod.mode != 1 {
        Ok((pod, book))
    } else if due_to_land(pod, now) {
        if pod.next_process == 1 {
            Ok((pod, book))
        } else {
            match book_insert(book, ticket) {
                Ok(after) => Ok(
                    (PodView { next_process: 1, next_process_at: pod.land_at, ..pod }, after),
                ),
                Err(e) => Err(e),
            }
        }
    } else {
        Ok(
            (
                PodView {
                    next_process: 0,
                    next_process_at: next_hop_time(pod, now, pause) as i64,
                    ..pod
                },
                book,
            ),
        )
    }
}

/// The land ticket of a pod as it stands.
pub open spec fn ticket_of(pod: PodView) -> Seq<u8> {
    land_token(pod.id, pod.destination@, pod.lamports, pod.created_at)
}

/// The pause drawn for a pod as it stands, in the slot `slot`.
pub open spec fn pause_of(pod: PodView, slot: u64) -> int {
    jitter_of_draw(
        jitter_draw(pod.id, pod.hops, pod.created_at, slot),
        HOP_JITTER_MIN_SECONDS,
        HOP_JITTER_MAX_SECONDS,
    )
}

/// What scheduling a pod's next step leads to at `now` in slot `slot`.
pub open spec fn scheduled(pod: PodView, book: Seq<Seq<u8>>, now: i64, slot: u64) -> Result<
    (PodView, Seq<Seq<u8>>),
    OridionError,
> {
    schedule_with(pod, book, now, ticket_of(pod), pause_of(pod, slot))
}

/// What completing a hop leads to at `now` in slot `slot`: the step is counted and
/// the next one scheduled.
pub open spec fn hopped(pod: PodView, book: Seq<Seq<u8>>, now: i64, slot: u64) -> Result<
    (PodView, Seq<Seq<u8>>),
    OridionError,
> {
    scheduled(stepped(pod, now), book, now, slot)
}

/// Schedules a pod's next step, given its land ticket and the pause drawn for it.
/// A refusal leaves the pod and the registry as they are.
pub fn apply_schedule(
    pod: &mut Pod,
    book: &mut LandBook,
    now: i64,
    ticket: [u8; 16],
    pause: i64,
) -> (r: Result<(), OridionError>)
    requires
        HOP_JITTER_MIN_SECONDS <= pause <= HOP_JITTER_MAX_SECONDS,
    ensures
        match schedule_with(old(pod)@, old(book)@, now, ticket@, pause as int) {
            Ok((p, b)) => r is Ok && final(pod)@ == p && final(book)@ == b,
            Err(e) => r == Err::<(), OridionError>(e) && *final(pod) == *old(pod) && *final(book)
                == *old(book),
        },
        old(pod)@.wf() ==> final(pod)@.wf(),
        book_wf(old(book)@) ==> book_wf(final(book)@),
{
    if pod.mode != 1 {
        return Ok(());
    }
    let remaining: i128 = (pod.land_at as i128) - (now as i128);
    if remaining <= (LAND_WINDOW_SECONDS as i128) {
        if pod.next_process != 1 {
            match book.insert_once(ticket) {
                Ok(()) => {},
                Err(e) => {
                    return Err(e);
                },
            }
            pod.next_process = 1;
            pod.next_process_at = pod.land_at;
        }
    } else {
        let latest: i64 = pod.land_at - HOP_CLAMP_MARGIN_SECONDS;
        let mut next: i64 = now + pause;
        if next > latest {
            next = latest;
        }
        pod.next_process = 0;
        pod.next_process_at = next;
    }
    Ok(())
}

/// Completes a hop, given the pod's land ticket and the pause drawn for it: the
/// step is counted and the next one scheduled. A refusal leaves the pod and the
/// registry as they are.
pub fn apply_hop(pod: &mut Pod, book: &mut LandBook, now: i64, ticket: [u8; 16], pause: i64) -> (r:
    Result<(), OridionError>)
    requires
        HOP_JITTER_MIN_SECONDS <= pause <= HOP_JITTER_MAX_SECONDS,
    ensures
        match schedule_with(stepped(old(pod)@, now), old(book)@, now, ticket@, pause as int) {
            Ok((p, b)) => r is Ok && final(pod)@ == p && final(book)@ == b,
            Err(e) => r == Err::<(), OridionError>(e) && *final(pod) == *old(pod) && *final(book)
                == *old(book),
        },
        old(pod)@.wf() ==> final(pod)@.wf(),
        book_wf(old(book)@) ==> book_wf(final(book)@),
{
    match apply_schedule(pod, book, now, ticket, pause) {
        Ok(()) => {},
        Err(e) => {
            return Err(e);
        },
    }
    pod.hops = pod.hops.saturating_add(1);
    pod.last_process = 1;
    pod.last_process_at = now;
    Ok(())
}

/// Schedules the next step of a pod as it stands. A refusal leaves the pod and
/// the registry as they are.
pub fn schedule_next(pod: &mut Pod, book: &mut LandBook, now: i64, slot: u64) -> (r: Result<
    (),
    OridionError,
>)
    ensures
        match scheduled(old(pod)@, old(book)@, now, slot) {
            Ok((p, b)) => r is Ok && final(pod)@ == p && final(book)@ == b,
            Err(e) => r == Err::<(), OridionError>(e) && *final(pod) == *old(pod) && *final(book)
                == *old(book),
        },
        old(pod)@.wf() ==> final(pod)@.wf(),
        book_wf(old(book)@) ==> book_wf(final(book)@),
{
    let ticket = token_from(pod.id, &pod.destination, pod.lamports, pod.created_at);
    let pause: i64 = jitter_seconds(
        pod.id,
        pod.hops,
        pod.created_at,
        slot,
        HOP_JITTER_MIN_SECONDS,
        HOP_JITTER_MAX_SECONDS,
    );
    apply_schedule(pod, book, now, ticket, pause)
}

/// Completes a hop of the pod at `now` in slot `slot`: counts the step, stamps it,
/// and schedules the next one. A delayed pod whose landing is due is set to land and
/// gets its one ticket in the registry; a full registry refuses with `LandBookFull`,
/// and the pod and the registry stay as they are.
pub fn hop_pod(pod: &mut Pod, book: &mut LandBook, now: i64, slot: u64) -> (r: Result<
    (),
    OridionError,
>)
    ensures
        match hopped(old(pod)@, old(book)@, now, slot) {
            Ok((p, b)) => r is Ok && final(pod)@ == p && final(book)@ == b,
            Err(e) => r == Err::<(), OridionError>(e) && *final(pod) == *old(pod) && *final(book)
                == *old(book),
        },
        old(pod)@.wf() ==> final(pod)@.wf(),
        book_wf(old(book)@) ==> book_wf(final(book)@),
{
    let ticket = token_from(pod.id, &pod.destination, pod.lamports, pod.created_at);
    let pause: i64 = jitter_seconds(
        pod.id,
        pod.hops.saturating_add(1),
        pod.created_at,
        slot,
        HOP_JITTER_MIN_SECONDS,
        HOP_JITTER_MAX_SECONDS,
    );
    apply_hop(pod, book, now, ticket, pause)
}

/// What the arrival of a pod on the planet `to_key`, named `to_name`, leads to:
/// the hop is completed, the pod is placed on the planet, and the step is logged
/// unless the pod is instant.
pub open spec fn arrived(
    pod: PodView,
    book: Seq<Seq<u8>>,
    to_key: [u8; 32],
    to_name: String,
    action: u8,
    now: i64,
    slot: u64,
) -> Result<(PodView, Seq<Seq<u8>>), OridionError> {
    match hopped(pod, book, now, slot) {
        Err(e) => Err(e),
        Ok((p, b)) => {
            let placed = PodView { location: to_key, ..p };
            Ok(
                (
                    if placed.mode != 2 {
                        placed.logged(action, to_name, now)
                    } else {
                        placed
                    },
                    b,
                ),
            )
        },
    }
}

/// Lets a pod arrive on a planet: completes the hop, places the pod, and logs the
/// step unless the pod is instant. A refusal leaves the pod and the registry as
/// they are.
pub fn arrive(
    pod: &mut Pod,
    book: &mut LandBook,
    to_key: [u8; 32],
    to_name: &String,
    action: u8,
    now: i64,
    slot: u64,
) -> (r: Result<(), OridionError>)
    ensures
        match arrived(old(pod)@, old(book)@, to_key, *to_name, action, now, slot) {
            Ok((p, b)) => r is Ok && final(pod)@ == p && final(book)@ == b,
            Err(e) => r == Err::<(), OridionError>(e) && *final(pod) == *old(pod) && *final(book)
                == *old(book),
        },
        old(pod)@.wf() ==> final(pod)@.wf(),
        book_wf(old(book)@) ==> book_wf(final(book)@),
{
    match hop_pod(pod, book, now, slot) {
        Ok(()) => {},
        Err(e) => {
            return Err(e);
        },
    }
    pod.location = to_key;
    if pod.mode != 2 {
        let _ = pod.log_activity(action, to_name, now);
    }
    Ok(())
}

/// Whether the lock on `from` is older than its time to live at `now`.
pub fn lock_has_expired(from: &Planet, now: i64) -> (expired: bool)
    ensures
        expired == from.lock_expired_at(now),
{
    let age: i128 = (now as i128) - (from.locked_at as i128);
    age > (LOCK_EXPIRE_SECONDS as i128)
}

/// Whether the pod may take or keep the lock on `from` at `now`. Nothing is changed.
pub fn planet_is_usable(from: &Planet, pod_key: &[u8; 32], now: i64) -> (usable: bool)
    ensures
        usable == from.is_usable_by(*pod_key, now),
{
    from.locked_at == 0 || bytes_equal(&from.locked_by, pod_key) || lock_has_expired(from, now)
}

/// Takes the lock on `from` for the pod, or renews it. A planet that another pod
/// locked can be taken only once that lock has expired; until then the call is
/// refused with `PlanetStillLocked` and the planet stays as it is.
pub fn validate_planet_is_usable(from: &mut Planet, pod_key: [u8; 32], now: i64) -> (r: Result<
    (),
    OridionError,
>)
    ensures
        match old(from).acquire(pod_key, now) {
            Ok(locked) => r is Ok && *final(from) == locked,
            Err(e) => r == Err::<(), OridionError>(e) && *final(from) == *old(from),
        },
{
    if !planet_is_usable(from, &pod_key, now) {
        return Err(OridionError::PlanetStillLocked);
    }
    from.locked_by = pod_key;
    from.locked_at = now;
    Ok(())
}

/// Checks that `from` is locked by the pod and that the lock has not expired. The
/// lock is not renewed.
pub fn validate_planet_locked_by_pod(from: &Planet, pod_key: [u8; 32], now: i64) -> (r: Result<
    (),
    OridionError,
>)
    ensures
        r == from.held_by(pod_key, now),
{
    if from.locked_at == 0 {
        return Err(OridionError::PlanetNotLocked);
    }
    if !bytes_equal(&from.locked_by, &pod_key) {
        return Err(OridionError::NotAuthorizedToHop);
    }
    if lock_has_expired(from, now) {
        return Err(OridionError::LockExpired);
    }
    Ok(())
}

/// Releases the lock on the planet, whoever holds it. This never fails.
pub fn release_planet_lock(planet: &mut Planet) -> (r: Result<(), OridionError>)
    ensures
        r is Ok,
        *final(planet) == old(planet).released(),
{
    planet.locked_at = 0;
    planet.locked_by = null_key();
    Ok(())
}

/// While a lock that pod `a` took at time `t` has not expired, no other pod can
/// take it, and the strict check refuses every other pod. The time 0 is left out:
/// a lock stamped 0 reads as no lock.
pub proof fn lemma_lock_excludes_other_pods(
    planet: Planet,
    a: [u8; 32],
    b: [u8; 32],
    t: i64,
    t2: i64,
)
    requires
        planet.acquire(a, t) is Ok,
        t != 0,
        a != b,
        t2 - t <= LOCK_EXPIRE_SECONDS,
    ensures
        planet.acquire(a, t)->Ok_0.acquire(b, t2) == Err::<Planet, OridionError>(
            OridionError::PlanetStillLocked,
        ),
        planet.acquire(a, t)->Ok_0.held_by(b, t2) == Err::<(), OridionError>(
            OridionError::NotAuthorizedToHop,
        ),
{
}

/// The pod that took the lock can take it again and passes the strict check until
/// the lock expires.
pub proof fn lemma_lock_admits_its_owner(planet: Planet, a: [u8; 32], t: i64, t2: i64)
    requires
        planet.acquire(a, t) is Ok,
        t != 0,
        t2 - t <= LOCK_EXPIRE_SECONDS,
    ensures
        planet.acquire(a, t)->Ok_0.acquire(a, t2) is Ok,
        planet.acquire(a, t)->Ok_0.held_by(a, t2) is Ok,
{
}

/// Once more than the time to live has passed since a lock was taken at `t`, any
/// pod can take it, whoever held it.
pub proof fn lemma_expired_lock_is_free(planet: Planet, a: [u8; 32], b: [u8; 32], t: i64, t2: i64)
    requires
        planet.acquire(a, t) is Ok,
        t2 - t > LOCK_EXPIRE_SECONDS,
    ensures
        planet.acquire(a, t)->Ok_0.acquire(b, t2) is Ok,
        planet.acquire(a, t)->Ok_0.acquire(b, t2)->Ok_0.locked_by == b,
        planet.acquire(a, t)->Ok_0.acquire(b, t2)->Ok_0.locked_at == t2,
{
}

/// A released planet can be taken by any pod at any time.
pub proof fn lemma_released_lock_is_free(planet: Planet, b: [u8; 32], now: i64)
    ensures
        planet.released().acquire(b, now) is Ok,
{
}

} // verus!
