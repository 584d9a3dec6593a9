use oridion::account_planet::Planet;
use oridion::account_pod::Pod;
use oridion::errors::OridionError;
use oridion::route::{fan_lock, lock_node};
use oridion::shared::{
    lock_has_expired, planet_is_usable, release_planet_lock, validate_planet_is_usable,
    validate_planet_locked_by_pod,
};

fn lock_planet(tag: u8, name: &str) -> Planet {
    Planet {
        key: [tag; 32],
        lamports: 1_000,
        account_type: 2,
        bump: 254,
        created: 5,
        visits: 3,
        base_lamports: 1_000,
        locked_at: 0,
        locked_by: [0; 32],
        name: name.to_string(),
    }
}

const POD_A: [u8; 32] = [0xA1; 32];
const POD_B: [u8; 32] = [0xB2; 32];

#[test]
fn unlocked_planet_is_taken_by_the_first_pod() {
    let mut p = lock_planet(1, "EARTH");
    assert_eq!(validate_planet_is_usable(&mut p, POD_A, 1_000), Ok(()));
    assert_eq!(p.locked_by, POD_A);
    assert_eq!(p.locked_at, 1_000);
    assert_eq!(p.lamports, 1_000);
    assert_eq!(p.visits, 3);
}

#[test]
fn owner_renews_its_lock() {
    let mut p = lock_planet(1, "EARTH");
    validate_planet_is_usable(&mut p, POD_A, 1_000).unwrap();
    assert_eq!(validate_planet_is_usable(&mut p, POD_A, 1_010), Ok(()));
    assert_eq!(p.locked_at, 1_010);
    assert_eq!(p.locked_by, POD_A);
}

#[test]
fn other_pod_is_refused_until_the_lock_expires() {
    let mut p = lock_planet(1, "EARTH");
    validate_planet_is_usable(&mut p, POD_A, 1_000).unwrap();
    let before = p.clone();
    for later in [1_000i64, 1_001, 1_029, 1_030, 999, 0, -50] {
        assert_eq!(
            validate_planet_is_usable(&mut p, POD_B, later),
            Err(OridionError::PlanetStillLocked)
        );
        assert_eq!(p, before);
        assert!(validate_planet_locked_by_pod(&p, POD_B, later).is_err());
    }
}

#[test]
fn expired_lock_is_taken_by_any_pod() {
    let mut p = lock_planet(1, "EARTH");
    validate_planet_is_usable(&mut p, POD_A, 1_000).unwrap();
    assert_eq!(validate_planet_is_usable(&mut p, POD_B, 1_031), Ok(()));
    assert_eq!(p.locked_by, POD_B);
    assert_eq!(p.locked_at, 1_031);
}

#[test]
fn lock_expiry_is_strictly_after_thirty_seconds() {
    let mut p = lock_planet(1, "EARTH");
    p.locked_at = 500;
    p.locked_by = POD_A;
    assert!(!lock_has_expired(&p, 530));
    assert!(lock_has_expired(&p, 531));
    assert!(!planet_is_usable(&p, &POD_B, 530));
    assert!(planet_is_usable(&p, &POD_B, 531));
    assert!(planet_is_usable(&p, &POD_A, 505));
}

#[test]
fn lock_age_does_not_overflow_at_the_ends_of_time() {
    let mut p = lock_planet(1, "EARTH");
    p.locked_at = i64::MIN;
    p.locked_by = POD_A;
    assert!(lock_has_expired(&p, i64::MAX));
    p.locked_at = i64::MAX;
    assert!(!lock_has_expired(&p, i64::MIN));
    assert!(!planet_is_usable(&p, &POD_B, i64::MIN));
}

#[test]
fn strict_check_wants_a_lock() {
    let p = lock_planet(1, "EARTH");
    assert_eq!(validate_planet_locked_by_pod(&p, POD_A, 10), Err(OridionError::PlanetNotLocked));
}

#[test]
fn strict_check_wants_the_owner() {
    let mut p = lock_planet(1, "EARTH");
    p.locked_at = 100;
    p.locked_by = POD_A;
    assert_eq!(
        validate_planet_locked_by_pod(&p, POD_B, 110),
        Err(OridionError::NotAuthorizedToHop)
    );
    // the owner is checked before the age
    assert_eq!(
        validate_planet_locked_by_pod(&p, POD_B, 10_000),
        Err(OridionError::NotAuthorizedToHop)
    );
}

#[test]
fn strict_check_wants_a_fresh_lock() {
    let mut p = lock_planet(1, "EARTH");
    p.locked_at = 100;
    p.locked_by = POD_A;
    assert_eq!(validate_planet_locked_by_pod(&p, POD_A, 130), Ok(()));
    assert_eq!(validate_planet_locked_by_pod(&p, POD_A, 131), Err(OridionError::LockExpired));
}

#[test]
fn strict_check_does_not_renew() {
    let mut p = lock_planet(1, "EARTH");
    p.locked_at = 100;
    p.locked_by = POD_A;
    let before = p.clone();
    validate_planet_locked_by_pod(&p, POD_A, 120).unwrap();
    assert_eq!(p, before);
}

#[test]
fn release_clears_the_lock_and_nothing_else() {
    let mut p = lock_planet(1, "EARTH");
    p.locked_at = 100;
    p.locked_by = POD_A;
    assert_eq!(release_planet_lock(&mut p), Ok(()));
    assert_eq!(p, lock_planet(1, "EARTH"));
    assert_eq!(release_planet_lock(&mut p), Ok(()));
    assert_eq!(p, lock_planet(1, "EARTH"));
}

#[test]
fn released_planet_is_free_for_another_pod_at_once() {
    let mut p = lock_planet(1, "EARTH");
    validate_planet_is_usable(&mut p, POD_A, 1_000).unwrap();
    release_planet_lock(&mut p).unwrap();
    assert_eq!(validate_planet_is_usable(&mut p, POD_B, 1_000), Ok(()));
    assert_eq!(p.locked_by, POD_B);
}

#[test]
fn lock_stamped_zero_reads_as_no_lock() {
    let mut p = lock_planet(1, "EARTH");
    validate_planet_is_usable(&mut p, POD_A, 0).unwrap();
    assert_eq!(p.locked_at, 0);
    assert_eq!(validate_planet_is_usable(&mut p, POD_B, 1), Ok(()));
    assert_eq!(p.locked_by, POD_B);
}

#[test]
fn lock_node_locks_for_the_pod() {
    let mut p = lock_planet(1, "EARTH");
    let pod = Pod::vacant(POD_A);
    assert_eq!(lock_node(&mut p, &pod, 77), Ok(()));
    assert_eq!(p.locked_by, POD_A);
    assert_eq!(p.locked_at, 77);
    let other = Pod::vacant(POD_B);
    assert_eq!(lock_node(&mut p, &other, 100), Err(OridionError::PlanetStillLocked));
    assert_eq!(p.locked_by, POD_A);
    assert_eq!(lock_node(&mut p, &other, 108), Ok(()));
    assert_eq!(p.locked_by, POD_B);
}

#[test]
fn fan_lock_takes_all_three() {
    let mut a = lock_planet(1, "A");
    let mut b = lock_planet(2, "B");
    let mut c = lock_planet(3, "C");
    let pod = Pod::vacant(POD_A);
    assert_eq!(fan_lock(&pod, &mut a, &mut b, &mut c, 900), Ok(()));
    for p in [&a, &b, &c] {
        assert_eq!(p.locked_by, POD_A);
        assert_eq!(p.locked_at, 900);
    }
}

#[test]
fn fan_lock_takes_none_when_one_is_held() {
    let mut a = lock_planet(1, "A");
    let mut b = lock_planet(2, "B");
    let mut c = lock_planet(3, "C");
    c.locked_at = 890;
    c.locked_by = POD_B;
    let (a0, b0, c0) = (a.clone(), b.clone(), c.clone());
    let pod = Pod::vacant(POD_A);
    assert_eq!(
        fan_lock(&pod, &mut a, &mut b, &mut c, 900),
        Err(OridionError::PlanetStillLocked)
    );
    assert_eq!((a, b, c), (a0, b0, c0));
}
