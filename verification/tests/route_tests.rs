use oridion::account_land::LandBook;
use oridion::account_planet::Planet;
use oridion::account_pod::{ActivityEntry, Pod};
use oridion::errors::OridionError;
use oridion::route::route1;

const T0: i64 = 1_700_000_000;

fn route_planet(tag: u8, name: &str, lamports: u64) -> Planet {
    Planet {
        key: [tag; 32],
        lamports,
        account_type: 2,
        bump: 254,
        created: 1,
        visits: 10,
        base_lamports: 1_000,
        locked_at: 0,
        locked_by: [0; 32],
        name: name.to_string(),
    }
}

fn route_pod(mode: u8) -> Pod {
    let mut pod = Pod::vacant([0xA1; 32]);
    pod.account_type = 1;
    pod.version = 1;
    pod.mode = mode;
    pod.id = 7;
    pod.hops = 1;
    pod.delay = 10_000;
    pod.land_at = T0 + 10_000;
    pod.created_at = T0;
    pod.last_process_at = T0;
    pod.lamports = 10_000;
    pod.location = [1; 32];
    pod.destination = [9; 32];
    pod.passcode_hash = [1; 32];
    pod
}

fn route_refused(
    change: fn(&mut Pod, &mut Planet, &mut Planet, &mut LandBook),
    expected: OridionError,
) {
    let mut pod = route_pod(1);
    let mut from = route_planet(1, "EARTH", 50_000);
    let mut to = route_planet(2, "MARS", 7_000);
    let mut book = LandBook::new();
    change(&mut pod, &mut from, &mut to, &mut book);
    let (pod0, from0, to0, book0) = (pod.clone(), from.clone(), to.clone(), book.clone());
    assert_eq!(route1(&mut pod, &mut from, &mut to, &mut book, T0 + 500, 42), Err(expected));
    assert_eq!((pod, from, to, book), (pod0, from0, to0, book0));
}

#[test]
fn hop_moves_the_amount_and_the_pod() {
    let mut pod = route_pod(1);
    let mut from = route_planet(1, "EARTH", 50_000);
    from.locked_at = T0 + 490;
    from.locked_by = [0xA1; 32];
    let mut to = route_planet(2, "MARS", 7_000);
    let mut book = LandBook::new();
    assert_eq!(route1(&mut pod, &mut from, &mut to, &mut book, T0 + 500, 42), Ok(()));
    assert_eq!(from.lamports, 40_000);
    assert_eq!(to.lamports, 17_000);
    assert_eq!(to.visits, 11);
    assert_eq!(from.visits, 10);
    assert_eq!(from.locked_at, 0);
    assert_eq!(from.locked_by, [0; 32]);
    assert_eq!(pod.location, [2; 32]);
    assert_eq!(pod.hops, 2);
    assert_eq!(pod.last_process, 1);
    assert_eq!(pod.last_process_at, T0 + 500);
    assert_eq!(pod.next_process, 0);
    assert_eq!(pod.next_process_at, T0 + 500 + 172);
    assert_eq!(pod.lamports, 10_000);
    assert_eq!(pod.log, vec![ActivityEntry { action: 1, to: "MARS".to_string(), time: T0 + 500 }]);
    assert_eq!(book.len(), 0);
}

#[test]
fn hop_conserves_the_two_balances() {
    let mut pod = route_pod(3);
    let mut from = route_planet(1, "EARTH", 10_000);
    let mut to = route_planet(2, "MARS", u64::MAX - 10_000);
    let mut book = LandBook::new();
    assert_eq!(route1(&mut pod, &mut from, &mut to, &mut book, T0 + 500, 42), Ok(()));
    assert_eq!(from.lamports, 0);
    assert_eq!(to.lamports, u64::MAX);
}

#[test]
fn hop_from_a_planet_locked_by_another_pod_is_refused() {
    route_refused(
        |_, from, _, _| {
            from.locked_at = T0 + 470;
            from.locked_by = [0xB2; 32];
        },
        OridionError::PlanetStillLocked,
    );
}

#[test]
fn hop_from_a_planet_with_an_expired_lock_goes_through() {
    let mut pod = route_pod(1);
    let mut from = route_planet(1, "EARTH", 50_000);
    from.locked_at = T0 + 469;
    from.locked_by = [0xB2; 32];
    let mut to = route_planet(2, "MARS", 7_000);
    let mut book = LandBook::new();
    assert_eq!(route1(&mut pod, &mut from, &mut to, &mut book, T0 + 500, 42), Ok(()));
    assert_eq!(from.locked_at, 0);
}

#[test]
fn hop_to_the_same_planet_is_refused() {
    route_refused(|_, _, to, _| to.name = "EARTH".to_string(), OridionError::HopErrorToAndFromAreSame);
    route_refused(|_, _, to, _| to.key = [1; 32], OridionError::HopErrorToAndFromAreSame);
}

#[test]
fn hop_needs_the_amount_on_the_planet() {
    route_refused(|_, from, _, _| from.lamports = 9_999, OridionError::InsufficientFunds);
}

#[test]
fn hop_that_would_overflow_is_refused() {
    route_refused(|_, _, to, _| to.lamports = u64::MAX - 9_999, OridionError::ArithmeticOverflow);
    route_refused(|_, _, to, _| to.visits = u64::MAX, OridionError::ArithmeticOverflow);
}

#[test]
fn hop_into_a_full_registry_is_refused_when_the_pod_is_due() {
    route_refused(
        |pod, _, _, book| {
            pod.land_at = T0 + 600;
            for n in 0..128u8 {
                let mut t = [0x55u8; 16];
                t[0] = n;
                book.insert_once(t).unwrap();
            }
        },
        OridionError::LandBookFull,
    );
}

#[test]
fn hop_of_a_pod_that_is_due_enters_its_ticket() {
    let mut pod = route_pod(1);
    pod.land_at = T0 + 600;
    let mut from = route_planet(1, "EARTH", 50_000);
    let mut to = route_planet(2, "MARS", 7_000);
    let mut book = LandBook::new();
    assert_eq!(route1(&mut pod, &mut from, &mut to, &mut book, T0 + 500, 42), Ok(()));
    assert_eq!(pod.next_process, 1);
    assert_eq!(pod.next_process_at, T0 + 600);
    assert_eq!(
        book.tickets,
        vec![[130, 30, 52, 175, 181, 114, 240, 150, 185, 255, 194, 192, 84, 187, 255, 190]]
    );
}

#[test]
fn lock_is_checked_before_the_planets_and_the_funds() {
    route_refused(
        |_, from, to, _| {
            from.locked_at = T0 + 499;
            from.locked_by = [0xB2; 32];
            from.lamports = 0;
            to.name = "EARTH".to_string();
        },
        OridionError::PlanetStillLocked,
    );
    route_refused(
        |_, from, to, _| {
            from.lamports = 0;
            to.name = "EARTH".to_string();
        },
        OridionError::HopErrorToAndFromAreSame,
    );
}
