//! What holds across operations: tickets are redeemed once, and value is conserved
//! from launch to landing and across every mix.

use crate::account_land::{
    book_insert, book_swap_remove, book_wf, lemma_insert_keeps_wf, lemma_swap_remove_drops_ticket,
};
use crate::account_planet::Planet;
use crate::account_pod::{PodMetaView, PodView};
use crate::account_star::{Star, StarMeta};
use crate::account_treasury::Treasury;
use crate::account_universe::Universe;
use crate::all_accounts::TransitMeta;
use crate::all_accounts::Wallet;
use crate::errors::OridionError;
use crate::launch::{launch_outcome, PodArgs};
use crate::route::route1_outcome;
use crate::scatter::{fan_end_outcome, fan_start_with};
use crate::settle::{settle_outcome, settle_with, LandArgs};
use crate::shared::{arrived, schedule_with};
use crate::star::{route2_end_outcome, route2_start_outcome, route3_end_outcome, route3_start_with};
use crate::variables::ACTIVITY_LOG_CAPACITY;
use vstd::prelude::*;

verus! {

/// A ticket can be redeemed once. After a landing against a ticket of a
/// well-formed registry has succeeded, every further landing against that ticket
/// is refused with `TicketNotFound`, whatever the planet and the destination hold
/// by then.
pub proof fn lemma_ticket_redeemed_once(
    book: Seq<Seq<u8>>,
    from: Planet,
    destination: Wallet,
    ticket: Seq<u8>,
    lamports: u64,
    from_later: Planet,
    destination_later: Wallet,
    lamports_later: u64,
)
    requires
        book_wf(book),
        settle_with(book, from, destination, ticket, lamports) is Ok,
    ensures
        book_wf(settle_with(book, from, destination, ticket, lamports)->Ok_0.0),
        !settle_with(book, from, destination, ticket, lamports)->Ok_0.0.contains(ticket),
        settle_with(
            settle_with(book, from, destination, ticket, lamports)->Ok_0.0,
            from_later,
            destination_later,
            ticket,
            lamports_later,
        ) == Err::<(Seq<Seq<u8>>, Planet, Wallet), OridionError>(OridionError::TicketNotFound),
{
    book.index_of_first_ensures(ticket);
    let index = book.index_of_first(ticket)->Some_0;
    lemma_swap_remove_drops_ticket(book, index);
    let after = book_swap_remove(book, index);
    after.index_of_first_ensures(ticket);
}

/// Landing is idempotent at the registry: of two landings with the same claim at
/// the same destination, the second is refused with `TicketNotFound` once the
/// first has succeeded.
pub proof fn lemma_settle_twice(
    book: Seq<Seq<u8>>,
    from: Planet,
    destination: Wallet,
    args: LandArgs,
)
    requires
        book_wf(book),
        settle_outcome(book, from, destination, args) is Ok,
    ensures
        settle_outcome(
            settle_outcome(book, from, destination, args)->Ok_0.0,
            settle_outcome(book, from, destination, args)->Ok_0.1,
            settle_outcome(book, from, destination, args)->Ok_0.2,
            args,
        ) == Err::<(Seq<Seq<u8>>, Planet, Wallet), OridionError>(OridionError::TicketNotFound),
{
    let first = settle_outcome(book, from, destination, args)->Ok_0;
    let ticket = crate::shared::land_token(
        args.id,
        destination.key@,
        args.lamports,
        args.created_at,
    );
    lemma_ticket_redeemed_once(
        book,
        from,
        destination,
        ticket,
        args.lamports,
        first.1,
        first.2,
        args.lamports,
    );
}

/// A landing against a ticket that the registry does not hold is refused with
/// `TicketNotFound`, whatever else the registry holds.
pub proof fn lemma_unknown_ticket_refused(
    book: Seq<Seq<u8>>,
    from: Planet,
    destination: Wallet,
    ticket: Seq<u8>,
    lamports: u64,
)
    requires
        !book.contains(ticket),
    ensures
        settle_with(book, from, destination, ticket, lamports) == Err::<
            (Seq<Seq<u8>>, Planet, Wallet),
            OridionError,
        >(OridionError::TicketNotFound),
{
    book.index_of_first_ensures(ticket);
}

/// Scheduling keeps a well-formed registry well formed, and adds at most the one
/// ticket it was given.
pub proof fn lemma_schedule_keeps_book(
    pod: PodView,
    book: Seq<Seq<u8>>,
    now: i64,
    ticket: Seq<u8>,
    pause: int,
)
    requires
        book_wf(book),
        schedule_with(pod, book, now, ticket, pause) is Ok,
    ensures
        book_wf(schedule_with(pod, book, now, ticket, pause)->Ok_0.1),
        schedule_with(pod, book, now, ticket, pause)->Ok_0.1 == book || schedule_with(
            pod,
            book,
            now,
            ticket,
            pause,
        )->Ok_0.1 == book.push(ticket),
{
    if book_insert(book, ticket) is Ok {
        lemma_insert_keeps_wf(book, ticket);
    }
}

/// An arrival keeps a well-formed registry well formed and the activity log
/// within its capacity.
pub proof fn lemma_arrival_keeps_bounds(
    pod: PodView,
    book: Seq<Seq<u8>>,
    to_key: [u8; 32],
    to_name: String,
    action: u8,
    now: i64,
    slot: u64,
)
    requires
        book_wf(book),
        pod.log.len() <= ACTIVITY_LOG_CAPACITY,
        arrived(pod, book, to_key, to_name, action, now, slot) is Ok,
    ensures
        book_wf(arrived(pod, book, to_key, to_name, action, now, slot)->Ok_0.1),
        arrived(pod, book, to_key, to_name, action, now, slot)->Ok_0.0.log.len()
            <= ACTIVITY_LOG_CAPACITY,
        arrived(pod, book, to_key, to_name, action, now, slot)->Ok_0.0.lamports == pod.lamports,
        arrived(pod, book, to_key, to_name, action, now, slot)->Ok_0.0.destination
            == pod.destination,
{
    let stepped = crate::shared::stepped(pod, now);
    lemma_schedule_keeps_book(
        stepped,
        book,
        now,
        crate::shared::ticket_of(stepped),
        crate::shared::pause_of(stepped, slot),
    );
}

/// A launch moves value and makes none: what the creator pays is what the planet
/// and the treasury receive.
pub proof fn lemma_launch_conserves(
    slot: PodView,
    pod_meta: PodMetaView,
    creator: Wallet,
    universe: Universe,
    planet: Planet,
    treasury: Treasury,
    book: Seq<Seq<u8>>,
    id: u16,
    args: PodArgs,
    now: i64,
    slot_number: u64,
)
    requires
        launch_outcome(
            slot,
            pod_meta,
            creator,
            universe,
            planet,
            treasury,
            book,
            id,
            args,
            now,
            slot_number,
        ) is Ok,
    ensures
        ({
            let after = launch_outcome(
                slot,
                pod_meta,
                creator,
                universe,
                planet,
                treasury,
                book,
                id,
                args,
                now,
                slot_number,
            )->Ok_0;
            &&& after.creator.lamports + after.planet.lamports + after.treasury.lamports
                == creator.lamports + planet.lamports + treasury.lamports
            &&& after.planet.lamports - planet.lamports == args.deposit_lamports
            &&& after.pod.lamports == args.deposit_lamports
            &&& after.pod.is_in_transit == 0
            &&& after.pod.location == planet.key
        }),
{
}

/// Launch, hop and landing conserve value. When a pod is launched onto a planet,
/// hops to a second planet and lands from there, the balances of the creator, the
/// treasury, the two planets and the destination add up to what they added up to
/// before, and the destination has gained exactly the amount that was claimed.
pub proof fn lemma_round_trip_conserves(
    slot: PodView,
    pod_meta: PodMetaView,
    creator: Wallet,
    universe: Universe,
    planet: Planet,
    treasury: Treasury,
    book: Seq<Seq<u8>>,
    id: u16,
    args: PodArgs,
    launched_at: i64,
    launch_slot: u64,
    to: Planet,
    hopped_at: i64,
    hop_slot: u64,
    destination: Wallet,
    claim: LandArgs,
)
    requires
        launch_outcome(
            slot,
            pod_meta,
            creator,
            universe,
            planet,
            treasury,
            book,
            id,
            args,
            launched_at,
            launch_slot,
        ) is Ok,
        ({
            let launched = launch_outcome(
                slot,
                pod_meta,
                creator,
                universe,
                planet,
                treasury,
                book,
                id,
                args,
                launched_at,
                launch_slot,
            )->Ok_0;
            &&& route1_outcome(
                launched.pod,
                launched.planet,
                to,
                launched.book,
                hopped_at,
                hop_slot,
            ) is Ok
            &&& settle_outcome(
                route1_outcome(
                    launched.pod,
                    launched.planet,
                    to,
                    launched.book,
                    hopped_at,
                    hop_slot,
                )->Ok_0.3,
                route1_outcome(
                    launched.pod,
                    launched.planet,
                    to,
                    launched.book,
                    hopped_at,
                    hop_slot,
                )->Ok_0.2,
                destination,
                claim,
            ) is Ok
        }),
    ensures
        ({
            let launched = launch_outcome(
                slot,
                pod_meta,
                creator,
                universe,
                planet,
                treasury,
                book,
                id,
                args,
                launched_at,
                launch_slot,
            )->Ok_0;
            let moved = route1_outcome(
                launched.pod,
                launched.planet,
                to,
                launched.book,
                hopped_at,
                hop_slot,
            )->Ok_0;
            let landed = settle_outcome(moved.3, moved.2, destination, claim)->Ok_0;
            &&& launched.creator.lamports + launched.treasury.lamports + moved.1.lamports
                + landed.1.lamports + landed.2.lamports == creator.lamports + treasury.lamports
                + planet.lamports + to.lamports + destination.lamports
            &&& moved.1.lamports == planet.lamports
            &&& landed.2.lamports - destination.lamports == claim.lamports
            &&& moved.2.lamports - to.lamports == args.deposit_lamports
        }),
{
}

/// A two-way star hop conserves value. From its start to its end the planet of
/// arrival gains exactly the pod's amount, the operator gains exactly what the two
/// stars and the record held before the start, and the pod is in transit in
/// between and at rest afterwards.
pub proof fn lemma_two_way_mix_conserves(
    pod: PodView,
    from: Planet,
    star_one: Star,
    star_two: Star,
    star_meta: StarMeta,
    manager_key: [u8; 32],
    bump: u8,
    started_at: i64,
    to: Planet,
    manager: Wallet,
    book: Seq<Seq<u8>>,
    ended_at: i64,
    slot: u64,
)
    requires
        route2_start_outcome(
            pod,
            from,
            star_one,
            star_two,
            star_meta,
            manager_key,
            bump,
            started_at,
        ) is Ok,
        ({
            let started = route2_start_outcome(
                pod,
                from,
                star_one,
                star_two,
                star_meta,
                manager_key,
                bump,
                started_at,
            )->Ok_0;
            route2_end_outcome(
                started.pod,
                to,
                started.star_one,
                started.star_two,
                started.star_meta,
                manager,
                book,
                ended_at,
                slot,
            ) is Ok
        }),
    ensures
        ({
            let started = route2_start_outcome(
                pod,
                from,
                star_one,
                star_two,
                star_meta,
                manager_key,
                bump,
                started_at,
            )->Ok_0;
            let ended = route2_end_outcome(
                started.pod,
                to,
                started.star_one,
                started.star_two,
                started.star_meta,
                manager,
                book,
                ended_at,
                slot,
            )->Ok_0;
            &&& started.pod.is_in_transit == 1
            &&& ended.pod.is_in_transit == 0
            &&& started.star_one.amount + started.star_two.amount == pod.lamports
            &&& from.lamports - started.from.lamports == pod.lamports
            &&& ended.to.lamports - to.lamports == pod.lamports
            &&& ended.manager.lamports - manager.lamports == star_one.lamports
                + star_two.lamports + star_meta.lamports
            &&& ended.pod.lamports == pod.lamports
        }),
{
}

/// A three-way star hop conserves value, whatever the two percentages are. From
/// its start to its end the planet of arrival gains exactly the pod's amount and
/// the operator exactly what the three stars and the record held before the start.
pub proof fn lemma_three_way_mix_conserves(
    pod: PodView,
    from: Planet,
    star_one: Star,
    star_two: Star,
    star_three: Star,
    star_meta: StarMeta,
    manager_key: [u8; 32],
    derived: Option<(Seq<u8>, u8)>,
    first_percent: u8,
    second_percent: u8,
    started_at: i64,
    to: Planet,
    manager: Wallet,
    book: Seq<Seq<u8>>,
    ended_at: i64,
    slot: u64,
)
    requires
        first_percent <= 100,
        second_percent <= 100,
        route3_start_with(
            pod,
            from,
            star_one,
            star_two,
            star_three,
            star_meta,
            manager_key,
            derived,
            first_percent,
            second_percent,
            started_at,
        ) is Ok,
        ({
            let started = route3_start_with(
                pod,
                from,
                star_one,
                star_two,
                star_three,
                star_meta,
                manager_key,
                derived,
                first_percent,
                second_percent,
                started_at,
            )->Ok_0;
            route3_end_outcome(
                started.pod,
                to,
                started.star_one,
                started.star_two,
                started.star_three,
                started.star_meta,
                manager,
                book,
                ended_at,
                slot,
            ) is Ok
        }),
    ensures
        ({
            let started = route3_start_with(
                pod,
                from,
                star_one,
                star_two,
                star_three,
                star_meta,
                manager_key,
                derived,
                first_percent,
                second_percent,
                started_at,
            )->Ok_0;
            let ended = route3_end_outcome(
                started.pod,
                to,
                started.star_one,
                started.star_two,
                started.star_three,
                started.star_meta,
                manager,
                book,
                ended_at,
                slot,
            )->Ok_0;
            &&& started.pod.is_in_transit == 1
            &&& ended.pod.is_in_transit == 0
            &&& started.star_one.amount + started.star_two.amount + started.star_three.amount
                == pod.lamports
            &&& from.lamports - started.from.lamports == pod.lamports
            &&& ended.to.lamports - to.lamports == pod.lamports
            &&& ended.manager.lamports - manager.lamports == star_one.lamports
                + star_two.lamports + star_three.lamports + star_meta.lamports
            &&& ended.pod.lamports == pod.lamports
        }),
{
    crate::split::lemma_splits_conserve(pod.lamports, first_percent, second_percent);
}

/// A scatter conserves value, whatever its entropy is. From its start to its end
/// the planet of arrival gains exactly the pod's amount, and each branch planet
/// holds again what it held before the start.
pub proof fn lemma_scatter_conserves(
    pod: PodView,
    from: Planet,
    to_1: Planet,
    to_2: Planet,
    to_3: Planet,
    meta: TransitMeta,
    bump: u8,
    entropy: Seq<u8>,
    started_at: i64,
    to: Planet,
    book: Seq<Seq<u8>>,
    ended_at: i64,
    slot: u64,
)
    requires
        fan_start_with(pod, from, to_1, to_2, to_3, meta, bump, entropy, started_at) is Ok,
        ({
            let started = fan_start_with(
                pod,
                from,
                to_1,
                to_2,
                to_3,
                meta,
                bump,
                entropy,
                started_at,
            )->Ok_0;
            fan_end_outcome(
                started.pod,
                to,
                started.to_1,
                started.to_2,
                started.to_3,
                started.meta,
                book,
                ended_at,
                slot,
            ) is Ok
        }),
    ensures
        ({
            let started = fan_start_with(
                pod,
                from,
                to_1,
                to_2,
                to_3,
                meta,
                bump,
                entropy,
                started_at,
            )->Ok_0;
            let ended = fan_end_outcome(
                started.pod,
                to,
                started.to_1,
                started.to_2,
                started.to_3,
                started.meta,
                book,
                ended_at,
                slot,
            )->Ok_0;
            &&& started.pod.is_in_transit == 1
            &&& ended.pod.is_in_transit == 0
            &&& started.meta.amounts[0] + started.meta.amounts[1] + started.meta.amounts[2]
                == pod.lamports
            &&& from.lamports - started.from.lamports == pod.lamports
            &&& ended.to.lamports - to.lamports == pod.lamports
            &&& ended.from_1.lamports == to_1.lamports
            &&& ended.from_2.lamports == to_2.lamports
            &&& ended.from_3.lamports == to_3.lamports
            &&& ended.pod.lamports == pod.lamports
        }),
{
    let parts = crate::scatter::scatter_parts(pod.lamports, entropy);
    crate::split::lemma_splits_conserve(
        pod.lamports,
        crate::split::scatter_percent_spec(crate::encoding::window_spec(entropy, 0)) as u8,
        crate::split::scatter_percent_spec(crate::encoding::window_spec(entropy, 1)) as u8,
    );
    crate::keys::lemma_triple(parts.0 as u64, parts.1 as u64, parts.2 as u64);
}

/// The transit flag gates the mix. A pod that is in transit cannot start a mix of
/// any kind, and a pod that is not in transit cannot end one.
pub proof fn lemma_transit_flag_gates_the_mix(
    pod: PodView,
    from: Planet,
    to: Planet,
    planet_1: Planet,
    planet_2: Planet,
    planet_3: Planet,
    star_one: Star,
    star_two: Star,
    star_three: Star,
    star_meta: StarMeta,
    meta: TransitMeta,
    manager: Wallet,
    book: Seq<Seq<u8>>,
    derived: Option<(Seq<u8>, u8)>,
    first_percent: u8,
    second_percent: u8,
    entropy: Seq<u8>,
    bump: u8,
    now: i64,
    slot: u64,
)
    ensures
        pod.is_in_transit != 0 ==> {
            &&& route2_start_outcome(
                pod,
                from,
                star_one,
                star_two,
                star_meta,
                manager.key,
                bump,
                now,
            ) is Err
            &&& route3_start_with(
                pod,
                from,
                star_one,
                star_two,
                star_three,
                star_meta,
                manager.key,
                derived,
                first_percent,
                second_percent,
                now,
            ) is Err
            &&& fan_start_with(pod, from, planet_1, planet_2, planet_3, meta, bump, entropy, now)
                is Err
        },
        pod.is_in_transit != 1 ==> {
            &&& route2_end_outcome(pod, to, star_one, star_two, star_meta, manager, book, now, slot)
                == Err::<crate::star::StarsLanded, OridionError>(OridionError::NotInTransit)
            &&& route3_end_outcome(
                pod,
                to,
                star_one,
                star_two,
                star_three,
                star_meta,
                manager,
                book,
                now,
                slot,
            ) == Err::<crate::star::StarsLanded, OridionError>(OridionError::NotInTransit)
            &&& fan_end_outcome(pod, to, planet_1, planet_2, planet_3, meta, book, now, slot)
                is Err
        },
{
}

/// A delayed pod that becomes due to land gets exactly one ticket. After the
/// scheduling of such a pod has succeeded on a well-formed registry, the pod is
/// set to land at its landing time, the registry holds its ticket, and holds it
/// once; scheduling the pod again changes neither.
pub proof fn lemma_due_pod_gets_one_ticket(
    pod: PodView,
    book: Seq<Seq<u8>>,
    now: i64,
    later: i64,
    ticket: Seq<u8>,
    pause: int,
)
    requires
        book_wf(book),
        pod.mode == 1,
        pod.land_at - now <= crate::variables::LAND_WINDOW_SECONDS,
        pod.next_process != 1,
        now <= later,
        schedule_with(pod, book, now, ticket, pause) is Ok,
    ensures
        ({
            let after = schedule_with(pod, book, now, ticket, pause)->Ok_0;
            &&& after.0.next_process == 1
            &&& after.0.next_process_at == pod.land_at
            &&& after.1.contains(ticket)
            &&& after.1.no_duplicates()
            &&& schedule_with(after.0, after.1, later, ticket, pause) == Ok::<
                (PodView, Seq<Seq<u8>>),
                OridionError,
            >(after)
        }),
{
    lemma_insert_keeps_wf(book, ticket);
}

} // verus!
