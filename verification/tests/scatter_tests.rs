use oridion::account_land::LandBook;
use oridion::account_planet::Planet;
use oridion::account_pod::{ActivityEntry, Pod};
use oridion::all_accounts::TransitMeta;
use oridion::errors::OridionError;
use oridion::encoding::read_u64_le;
use oridion::scatter::{fan_end, fan_start, fan_start_at, scatter_message_parts};

const T0: i64 = 1_700_000_100;
const POD: [u8; 32] = [0xA1; 32];

fn fan_planet(tag: u8, name: &str, lamports: u64) -> Planet {
    Planet {
        key: [tag; 32],
        lamports,
        account_type: 2,
        bump: 254,
        created: 1,
        visits: 10,
        base_lamports: 1_000,
        locked_at: 0,
        locked_by: [0; 32],
        name: name.to_string(),
    }
}

fn fan_pod() -> Pod {
    let mut pod = Pod::vacant(POD);
    pod.account_type = 1;
    pod.version = 1;
    pod.mode = 3;
    pod.id = 7;
    pod.hops = 1;
    pod.created_at = T0 - 100;
    pod.last_process_at = T0 - 100;
    pod.lamports = 10_000;
    pod.location = [1; 32];
    pod.destination = [9; 32];
    pod.passcode_hash = [1; 32];
    pod
}

fn no_meta() -> TransitMeta {
    TransitMeta { from: [0; 32], to_pdas: [[0; 32]; 3], amounts: [0; 3], created_at: 0, bump: 0 }
}

fn counting_entropy() -> [u8; 32] {
    let mut e = [0u8; 32];
    for i in 0..32 {
        e[i] = i as u8;
    }
    e
}

struct Fan {
    pod: Pod,
    from: Planet,
    a: Planet,
    b: Planet,
    c: Planet,
    meta: TransitMeta,
}

fn fan() -> Fan {
    let mut from = fan_planet(1, "EARTH", 50_000);
    from.locked_at = T0 - 5;
    from.locked_by = POD;
    Fan {
        pod: fan_pod(),
        from,
        a: fan_planet(2, "MARS", 100),
        b: fan_planet(3, "VENUS", 200),
        c: fan_planet(4, "PLUTO", 300),
        meta: no_meta(),
    }
}

fn start_at(f: &mut Fan, entropy: &[u8; 32]) -> Result<(), OridionError> {
    fan_start_at(
        &mut f.pod, &mut f.from, &mut f.a, &mut f.b, &mut f.c, &mut f.meta, 249, entropy, T0,
    )
}

#[test]
fn window_reads_eight_bytes_least_significant_first() {
    let e = counting_entropy();
    assert_eq!(read_u64_le(&e, 0), 0x0706050403020100);
    assert_eq!(read_u64_le(&e, 1), 0x0807060504030201);
    assert_eq!(read_u64_le(&e, 24), 0x1f1e1d1c1b1a1918);
    assert_eq!(read_u64_le(&[0xff; 32], 5), u64::MAX);
    assert_eq!(read_u64_le(&[0; 32], 24), 0);
}

#[test]
fn scatter_message_is_the_tag_and_the_time() {
    assert_eq!(
        scatter_message_parts(0x0102),
        vec![b"ORIDION_SCATTER_V1".to_vec(), vec![2, 1, 0, 0, 0, 0, 0, 0]]
    );
    assert_eq!(scatter_message_parts(-1)[1], vec![0xff; 8]);
}

#[test]
fn scatter_start_cuts_by_the_entropy() {
    let mut f = fan();
    assert_eq!(start_at(&mut f, &counting_entropy()), Ok(()));
    // the draws stand for 29% of 10000 and 2% of the 7100 left
    assert_eq!(f.meta.amounts, [2_900, 142, 6_958]);
    assert_eq!(f.meta.from, [1; 32]);
    assert_eq!(f.meta.to_pdas, [[2; 32], [3; 32], [4; 32]]);
    assert_eq!(f.meta.created_at, T0);
    assert_eq!(f.meta.bump, 249);
    assert_eq!((f.a.lamports, f.b.lamports, f.c.lamports), (3_000, 342, 7_258));
    assert_eq!(f.from.lamports, 40_000);
    assert_eq!(f.from.locked_at, 0);
    assert_eq!(f.from.locked_by, [0; 32]);
    assert_eq!(f.pod.is_in_transit, 1);
    assert_eq!(f.pod.last_process_at, T0);
    assert_eq!(f.a.visits, 10);
}

#[test]
fn scatter_start_draws_its_entropy_from_the_keccak_of_the_clock() {
    let mut f = fan();
    assert_eq!(
        fan_start(&mut f.pod, &mut f.from, &mut f.a, &mut f.b, &mut f.c, &mut f.meta, 249, T0),
        Ok(())
    );
    assert_eq!(f.meta.amounts, [4_000, 300, 5_700]);
    assert_eq!(f.meta.created_at, T0);
    assert_eq!((f.a.lamports, f.b.lamports, f.c.lamports), (4_100, 500, 6_000));
}

#[test]
fn scatter_branches_always_sum_to_the_amount() {
    for now in [1i64, 2, 3, 1_000, T0, T0 + 1, T0 + 2, i64::MAX] {
        for amount in [1u64, 501, 999, 10_000, 49_999] {
            let mut f = fan();
            f.pod.lamports = amount;
            f.from.locked_at = now;
            assert_eq!(
                fan_start(&mut f.pod, &mut f.from, &mut f.a, &mut f.b, &mut f.c, &mut f.meta, 1, now),
                Ok(())
            );
            assert_eq!(f.meta.amounts.iter().sum::<u64>(), amount);
            assert_eq!(f.from.lamports + f.a.lamports + f.b.lamports + f.c.lamports, 50_600);
        }
    }
}

#[test]
fn scatter_start_is_refused_without_effect() {
    let cases: Vec<(fn(&mut Fan), OridionError)> = vec![
        (|f| f.from.locked_at = 0, OridionError::PlanetNotLocked),
        (|f| f.from.locked_by = [0xB2; 32], OridionError::NotAuthorizedToHop),
        (|f| f.from.locked_at = T0 - 31, OridionError::LockExpired),
        (|f| f.pod.is_in_transit = 1, OridionError::InTransit),
        (|f| f.b.key = f.a.key, OridionError::HopErrorStarsMustBeUnique),
        (|f| f.c.key = f.b.key, OridionError::HopErrorStarsMustBeUnique),
        (|f| f.c.key = f.a.key, OridionError::HopErrorStarsMustBeUnique),
        (|f| f.pod.lamports = 0, OridionError::InvalidDepositAmount),
        (|f| f.from.lamports = 9_999, OridionError::PlanetNotEnoughFundsError),
        (|f| f.a.lamports = u64::MAX, OridionError::ArithmeticOverflow),
        (|f| f.c.lamports = u64::MAX - 6_957, OridionError::ArithmeticOverflow),
    ];
    for (change, expected) in cases {
        let mut f = fan();
        change(&mut f);
        let before = (f.pod.clone(), f.from.clone(), f.a.clone(), f.b.clone(), f.c.clone(), f.meta);
        assert_eq!(start_at(&mut f, &counting_entropy()), Err(expected));
        assert_eq!((f.pod, f.from, f.a, f.b, f.c, f.meta), before);
    }
}

fn gather(
    f: &mut Fan,
    to: &mut Planet,
    book: &mut LandBook,
    now: i64,
) -> Result<(), OridionError> {
    fan_end(&mut f.pod, to, &mut f.a, &mut f.b, &mut f.c, &mut f.meta, book, now, 42)
}

#[test]
fn scatter_end_gathers_the_branches() {
    let mut f = fan();
    start_at(&mut f, &counting_entropy()).unwrap();
    f.a.locked_at = T0 + 1;
    f.a.locked_by = POD;
    let mut to = fan_planet(5, "TITAN", 1_000);
    let mut book = LandBook::new();
    assert_eq!(gather(&mut f, &mut to, &mut book, T0 + 20), Ok(()));
    assert_eq!(to.lamports, 11_000);
    assert_eq!(to.visits, 10);
    assert_eq!((f.a.lamports, f.b.lamports, f.c.lamports), (100, 200, 300));
    assert_eq!(f.a.locked_at, 0);
    assert_eq!(f.a.locked_by, [0; 32]);
    assert_eq!(f.meta, no_meta());
    assert_eq!(f.pod.is_in_transit, 0);
    assert_eq!(f.pod.location, [5; 32]);
    assert_eq!(f.pod.hops, 2);
    assert_eq!(f.pod.lamports, 10_000);
    assert_eq!(
        f.pod.log,
        vec![ActivityEntry { action: 4, to: "TITAN".to_string(), time: T0 + 20 }]
    );
}

#[test]
fn scatter_cannot_end_twice() {
    let mut f = fan();
    start_at(&mut f, &counting_entropy()).unwrap();
    let mut to = fan_planet(5, "TITAN", 1_000);
    let mut book = LandBook::new();
    gather(&mut f, &mut to, &mut book, T0 + 20).unwrap();
    assert_eq!(gather(&mut f, &mut to, &mut book, T0 + 21), Err(OridionError::InvalidScatterMeta));
    assert_eq!(to.lamports, 11_000);
}

#[test]
fn scatter_end_is_refused_without_effect() {
    let cases: Vec<(fn(&mut Fan, &mut Planet), OridionError)> = vec![
        (|f, _| f.meta.created_at = 0, OridionError::InvalidScatterMeta),
        (|f, _| f.meta.created_at = -4, OridionError::InvalidScatterMeta),
        (|f, _| f.pod.is_in_transit = 0, OridionError::NotInTransit),
        (
            |f, _| {
                f.b.locked_at = T0;
                f.b.locked_by = [0xB2; 32];
            },
            OridionError::PlanetStillLocked,
        ),
        (|f, _| f.a.lamports = 2_899, OridionError::PlanetNotEnoughFundsError),
        (|f, _| f.b.lamports = 141, OridionError::PlanetNotEnoughFundsError),
        (|f, _| f.c.lamports = 6_957, OridionError::PlanetNotEnoughFundsError),
        (
            |f, _| {
                f.meta.amounts = [u64::MAX, 1, 0];
                f.a.lamports = u64::MAX;
            },
            OridionError::UnusualMathError,
        ),
        (
            |f, _| {
                f.meta.amounts = [u64::MAX - 1, 1, 1];
                f.a.lamports = u64::MAX;
            },
            OridionError::UnusualMathError,
        ),
        (|f, _| f.meta.amounts = [2_900, 142, 6_957], OridionError::ScatterTotalToPodMismatch),
        (|f, _| f.pod.lamports = 10_001, OridionError::ScatterTotalToPodMismatch),
        (|_, to| to.lamports = u64::MAX - 9_999, OridionError::ArithmeticOverflow),
    ];
    for (change, expected) in cases {
        let mut f = fan();
        start_at(&mut f, &counting_entropy()).unwrap();
        let mut to = fan_planet(5, "TITAN", 1_000);
        let mut book = LandBook::new();
        change(&mut f, &mut to);
        let before = (
            f.pod.clone(),
            to.clone(),
            f.a.clone(),
            f.b.clone(),
            f.c.clone(),
            f.meta,
            book.clone(),
        );
        assert_eq!(gather(&mut f, &mut to, &mut book, T0 + 20), Err(expected));
        assert_eq!((f.pod, to, f.a, f.b, f.c, f.meta, book), before);
    }
}

#[test]
fn scatter_round_trip_conserves_value() {
    let mut f = fan();
    let mut to = fan_planet(5, "TITAN", 1_000);
    let mut book = LandBook::new();
    let before = f.from.lamports + f.a.lamports + f.b.lamports + f.c.lamports + to.lamports;
    fan_start(&mut f.pod, &mut f.from, &mut f.a, &mut f.b, &mut f.c, &mut f.meta, 1, T0).unwrap();
    gather(&mut f, &mut to, &mut book, T0 + 3).unwrap();
    let after = f.from.lamports + f.a.lamports + f.b.lamports + f.c.lamports + to.lamports;
    assert_eq!(before, after);
    assert_eq!(to.lamports, 11_000);
}
