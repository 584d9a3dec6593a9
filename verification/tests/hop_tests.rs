use oridion::account_land::LandBook;
use oridion::account_pod::{ActivityEntry, Pod};
use oridion::errors::OridionError;
use oridion::shared::{apply_hop, apply_schedule, arrive, hop_pod, schedule_next, token_from};

const T0: i64 = 1_700_000_000;

fn resting_pod(mode: u8, land_at: i64) -> Pod {
    let mut pod = Pod::vacant([0xA1; 32]);
    pod.account_type = 1;
    pod.version = 1;
    pod.mode = mode;
    pod.id = 7;
    pod.hops = 1;
    pod.delay = (land_at - T0) as u32;
    pod.land_at = land_at;
    pod.created_at = T0;
    pod.last_process_at = T0;
    pod.lamports = 10_000;
    pod.location = [1; 32];
    pod.destination = [9; 32];
    pod.passcode_hash = [1; 32];
    pod
}

fn pod_ticket() -> [u8; 16] {
    [130, 30, 52, 175, 181, 114, 240, 150, 185, 255, 194, 192, 84, 187, 255, 190]
}

fn filler_ticket(n: u8) -> [u8; 16] {
    let mut t = [0x55u8; 16];
    t[0] = n;
    t
}

#[test]
fn hop_counts_and_stamps_an_instant_pod_without_scheduling() {
    let mut pod = resting_pod(2, T0 + 10);
    let mut book = LandBook::new();
    let mut expected = pod.clone();
    assert_eq!(hop_pod(&mut pod, &mut book, T0 + 5, 42), Ok(()));
    expected.hops = 2;
    expected.last_process = 1;
    expected.last_process_at = T0 + 5;
    assert_eq!(pod, expected);
    assert_eq!(book.len(), 0);
}

#[test]
fn hop_counts_and_stamps_a_manual_pod_without_scheduling() {
    let mut pod = resting_pod(3, T0 + 10);
    let mut book = LandBook::new();
    assert_eq!(hop_pod(&mut pod, &mut book, T0 + 500, 42), Ok(()));
    assert_eq!(pod.hops, 2);
    assert_eq!(pod.next_process, 0);
    assert_eq!(pod.next_process_at, 0);
    assert_eq!(book.len(), 0);
}

#[test]
fn hop_count_saturates() {
    let mut pod = resting_pod(3, T0 + 10);
    pod.hops = u16::MAX;
    let mut book = LandBook::new();
    assert_eq!(hop_pod(&mut pod, &mut book, T0 + 5, 42), Ok(()));
    assert_eq!(pod.hops, u16::MAX);
}

#[test]
fn delayed_pod_far_from_landing_hops_after_the_drawn_pause() {
    let mut pod = resting_pod(1, T0 + 10_000);
    let mut book = LandBook::new();
    let now = T0 + 500;
    assert_eq!(hop_pod(&mut pod, &mut book, now, 42), Ok(()));
    assert_eq!(pod.hops, 2);
    assert_eq!(pod.next_process, 0);
    // the pause is drawn for the incremented hop count
    assert_eq!(pod.next_process_at, now + 172);
    assert_eq!(pod.last_process, 1);
    assert_eq!(pod.last_process_at, now);
    assert_eq!(book.len(), 0);
}

#[test]
fn pause_depends_on_the_slot() {
    let mut pod = resting_pod(1, T0 + 10_000);
    let mut book = LandBook::new();
    let now = T0 + 500;
    assert_eq!(hop_pod(&mut pod, &mut book, now, 43), Ok(()));
    assert_eq!(pod.next_process_at, now + 191);
}

#[test]
fn delayed_pod_due_to_land_gets_its_ticket() {
    let mut pod = resting_pod(1, T0 + 1_000);
    let mut book = LandBook::new();
    let now = T0 + 760;
    assert_eq!(hop_pod(&mut pod, &mut book, now, 42), Ok(()));
    assert_eq!(pod.next_process, 1);
    assert_eq!(pod.next_process_at, T0 + 1_000);
    assert_eq!(pod.hops, 2);
    assert_eq!(book.tickets, vec![pod_ticket()]);
    assert_eq!(book.tickets[0], token_from(7, &[9; 32], 10_000, T0));
}

#[test]
fn landing_window_is_two_hundred_and_forty_seconds_inclusive() {
    let mut pod = resting_pod(1, T0 + 1_000);
    let mut book = LandBook::new();
    assert_eq!(hop_pod(&mut pod, &mut book, T0 + 759, 42), Ok(()));
    assert_eq!(pod.next_process, 0);
    assert_eq!(book.len(), 0);
    let mut pod = resting_pod(1, T0 + 1_000);
    assert_eq!(hop_pod(&mut pod, &mut book, T0 + 760, 42), Ok(()));
    assert_eq!(pod.next_process, 1);
    assert_eq!(book.len(), 1);
}

#[test]
fn pod_past_its_landing_time_is_due() {
    let mut pod = resting_pod(1, T0 + 1_000);
    let mut book = LandBook::new();
    assert_eq!(hop_pod(&mut pod, &mut book, T0 + 5_000, 42), Ok(()));
    assert_eq!(pod.next_process, 1);
    assert_eq!(pod.next_process_at, T0 + 1_000);
    assert_eq!(book.len(), 1);
}

#[test]
fn pod_already_set_to_land_gets_no_second_ticket() {
    let mut pod = resting_pod(1, T0 + 1_000);
    let mut book = LandBook::new();
    hop_pod(&mut pod, &mut book, T0 + 800, 42).unwrap();
    book.redeem(&pod_ticket()).unwrap();
    assert_eq!(hop_pod(&mut pod, &mut book, T0 + 900, 42), Ok(()));
    assert_eq!(pod.hops, 3);
    assert_eq!(pod.next_process, 1);
    assert_eq!(book.len(), 0);
}

#[test]
fn ticket_that_is_already_there_is_not_entered_twice() {
    let mut pod = resting_pod(1, T0 + 1_000);
    let mut book = LandBook::new();
    book.insert_once(pod_ticket()).unwrap();
    assert_eq!(hop_pod(&mut pod, &mut book, T0 + 800, 42), Ok(()));
    assert_eq!(pod.next_process, 1);
    assert_eq!(book.tickets, vec![pod_ticket()]);
}

#[test]
fn full_registry_refuses_the_hop_and_nothing_changes() {
    let mut pod = resting_pod(1, T0 + 1_000);
    let mut book = LandBook::new();
    for n in 0..128u8 {
        book.insert_once(filler_ticket(n)).unwrap();
    }
    let (pod0, book0) = (pod.clone(), book.clone());
    assert_eq!(hop_pod(&mut pod, &mut book, T0 + 800, 42), Err(OridionError::LandBookFull));
    assert_eq!(pod, pod0);
    assert_eq!(book, book0);
    assert_eq!(schedule_next(&mut pod, &mut book, T0 + 800, 42), Err(OridionError::LandBookFull));
    assert_eq!(pod, pod0);
}

#[test]
fn full_registry_does_not_stop_a_pod_that_is_not_due() {
    let mut pod = resting_pod(1, T0 + 10_000);
    let mut book = LandBook::new();
    for n in 0..128u8 {
        book.insert_once(filler_ticket(n)).unwrap();
    }
    assert_eq!(hop_pod(&mut pod, &mut book, T0 + 800, 42), Ok(()));
    assert_eq!(book.len(), 128);
}

#[test]
fn next_hop_is_clamped_five_seconds_before_landing() {
    let now = T0 + 100;
    let mut pod = resting_pod(1, now + 241);
    let mut book = LandBook::new();
    assert_eq!(apply_schedule(&mut pod, &mut book, now, [0; 16], 240), Ok(()));
    assert_eq!(pod.next_process, 0);
    assert_eq!(pod.next_process_at, now + 236);
    let mut pod = resting_pod(1, now + 241);
    assert_eq!(apply_schedule(&mut pod, &mut book, now, [0; 16], 236), Ok(()));
    assert_eq!(pod.next_process_at, now + 236);
    let mut pod = resting_pod(1, now + 241);
    assert_eq!(apply_schedule(&mut pod, &mut book, now, [0; 16], 120), Ok(()));
    assert_eq!(pod.next_process_at, now + 120);
    assert_eq!(pod.hops, 1);
}

#[test]
fn apply_hop_uses_the_ticket_it_is_given() {
    let mut pod = resting_pod(1, T0 + 1_000);
    let mut book = LandBook::new();
    assert_eq!(apply_hop(&mut pod, &mut book, T0 + 900, [3; 16], 130), Ok(()));
    assert_eq!(book.tickets, vec![[3u8; 16]]);
    assert_eq!(pod.next_process, 1);
    assert_eq!(pod.hops, 2);
    assert_eq!(pod.last_process_at, T0 + 900);
}

#[test]
fn schedule_next_does_not_count_a_hop() {
    let mut pod = resting_pod(1, T0 + 10_000);
    let mut book = LandBook::new();
    assert_eq!(schedule_next(&mut pod, &mut book, T0, 42), Ok(()));
    assert_eq!(pod.hops, 1);
    assert_eq!(pod.last_process, 0);
    // drawn for the hop count as it stands
    assert_eq!(pod.next_process_at, T0 + 162);
}

#[test]
fn scheduling_at_the_ends_of_time_does_not_overflow() {
    let mut pod = resting_pod(1, i64::MAX);
    let mut book = LandBook::new();
    assert_eq!(hop_pod(&mut pod, &mut book, i64::MIN, 42), Ok(()));
    assert_eq!(pod.next_process, 0);
    assert!(pod.next_process_at >= i64::MIN + 120 && pod.next_process_at <= i64::MIN + 240);
    let mut pod = resting_pod(1, i64::MIN);
    assert_eq!(hop_pod(&mut pod, &mut book, i64::MAX, 42), Ok(()));
    assert_eq!(pod.next_process, 1);
    assert_eq!(pod.next_process_at, i64::MIN);
}

#[test]
fn arrival_places_and_logs_the_pod() {
    let mut pod = resting_pod(3, T0 + 10);
    let mut book = LandBook::new();
    assert_eq!(arrive(&mut pod, &mut book, [2; 32], &"MARS".to_string(), 1, T0 + 5, 42), Ok(()));
    assert_eq!(pod.location, [2; 32]);
    assert_eq!(pod.hops, 2);
    assert_eq!(pod.log, vec![ActivityEntry { action: 1, to: "MARS".to_string(), time: T0 + 5 }]);
}

#[test]
fn arrival_of_an_instant_pod_is_not_logged() {
    let mut pod = resting_pod(2, T0 + 10);
    let mut book = LandBook::new();
    assert_eq!(arrive(&mut pod, &mut book, [2; 32], &"MARS".to_string(), 1, T0 + 5, 42), Ok(()));
    assert_eq!(pod.location, [2; 32]);
    assert!(pod.log.is_empty());
}
