use oridion::account_land::LandBook;
use oridion::admin::init_registry;
use oridion::errors::OridionError;

fn ticket_no(n: u16) -> [u8; 16] {
    let mut t = [0u8; 16];
    t[0] = (n % 256) as u8;
    t[1] = (n / 256) as u8;
    t[15] = 0xEE;
    t
}

#[test]
fn new_book_is_empty() {
    let book = LandBook::new();
    assert_eq!(book.len(), 0);
    assert!(!book.contains(&ticket_no(1)));
    assert_eq!(book.position(&ticket_no(1)), None);
    assert_eq!(init_registry(), Ok(LandBook::new()));
}

#[test]
fn insert_once_is_idempotent() {
    let mut book = LandBook::new();
    assert_eq!(book.insert_once(ticket_no(1)), Ok(()));
    assert_eq!(book.insert_once(ticket_no(2)), Ok(()));
    assert_eq!(book.insert_once(ticket_no(1)), Ok(()));
    assert_eq!(book.tickets, vec![ticket_no(1), ticket_no(2)]);
    assert_eq!(book.position(&ticket_no(2)), Some(1));
}

#[test]
fn full_book_refuses_a_new_ticket_but_not_a_known_one() {
    let mut book = LandBook::new();
    for n in 0..128u16 {
        assert_eq!(book.insert_once(ticket_no(n)), Ok(()));
    }
    assert_eq!(book.len(), 128);
    let before = book.clone();
    assert_eq!(book.insert_once(ticket_no(500)), Err(OridionError::LandBookFull));
    assert_eq!(book, before);
    assert_eq!(book.insert_once(ticket_no(127)), Ok(()));
    assert_eq!(book, before);
}

#[test]
fn redeem_moves_the_last_ticket_into_the_gap() {
    let mut book = LandBook::new();
    for n in 1..=4u16 {
        book.insert_once(ticket_no(n)).unwrap();
    }
    assert_eq!(book.redeem(&ticket_no(2)), Ok(()));
    assert_eq!(book.tickets, vec![ticket_no(1), ticket_no(4), ticket_no(3)]);
    assert_eq!(book.redeem(&ticket_no(3)), Ok(()));
    assert_eq!(book.tickets, vec![ticket_no(1), ticket_no(4)]);
}

#[test]
fn redeem_twice_fails_the_second_time() {
    let mut book = LandBook::new();
    book.insert_once(ticket_no(9)).unwrap();
    assert_eq!(book.redeem(&ticket_no(9)), Ok(()));
    assert_eq!(book.redeem(&ticket_no(9)), Err(OridionError::TicketNotFound));
    assert_eq!(book.len(), 0);
}

#[test]
fn redeem_of_an_unknown_ticket_changes_nothing() {
    let mut book = LandBook::new();
    book.insert_once(ticket_no(9)).unwrap();
    let before = book.clone();
    assert_eq!(book.redeem(&ticket_no(10)), Err(OridionError::TicketNotFound));
    assert_eq!(book, before);
}

#[test]
fn swap_remove_hands_out_the_ticket() {
    let mut book = LandBook::new();
    for n in 1..=3u16 {
        book.insert_once(ticket_no(n)).unwrap();
    }
    assert_eq!(book.swap_remove(0), ticket_no(1));
    assert_eq!(book.tickets, vec![ticket_no(3), ticket_no(2)]);
    assert_eq!(book.swap_remove(1), ticket_no(2));
    assert_eq!(book.tickets, vec![ticket_no(3)]);
}

#[test]
fn position_finds_the_first_of_equal_tickets() {
    let book = LandBook { tickets: vec![ticket_no(5), ticket_no(6), ticket_no(6)] };
    assert_eq!(book.position(&ticket_no(6)), Some(1));
    assert!(book.contains(&ticket_no(6)));
}
