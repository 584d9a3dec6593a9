//! The registry of land tickets.

use crate::errors::OridionError;
use crate::keys::bytes_equal;
use crate::variables::LAND_BOOK_CAPACITY;
use vstd::prelude::*;

verus! {

/// The registry of land tickets: the sixteen-byte tokens of the landings that are
/// still owed.
#[derive(Clone, Debug, PartialEq, Eq)]
pub struct LandBook {
    pub tickets: Vec<[u8; 16]>,
}

impl View for LandBook {
    type V = Seq<Seq<u8>>;

    /// The tickets in the order in which they are stored, each as its bytes.
    open spec fn view(&self) -> Seq<Seq<u8>> {
        self.tickets@.map_values(|t: [u8; 16]| t@)
    }
}

/// A registry is well formed when no ticket occurs twice and it holds no more
/// tickets than its capacity.
pub open spec fn book_wf(book: Seq<Seq<u8>>) -> bool {
    book.no_duplicates() && book.len() <= LAND_BOOK_CAPACITY
}

/// The registry after a ticket is entered: unchanged where it is already there,
/// refused where the registry is full, appended otherwise.
pub open spec fn book_insert(book: Seq<Seq<u8>>, ticket: Seq<u8>) -> Result<
    Seq<Seq<u8>>,
    OridionError,
> {
    if book.contains(ticket) {
        Ok(book)
    } else if book.len() >= LAND_BOOK_CAPACITY {
        Err(OridionError::LandBookFull)
    } else {
        Ok(book.push(ticket))
    }
}

/// The registry without the ticket at `index`: the last ticket takes its place.
pub open spec fn book_swap_remove(book: Seq<Seq<u8>>, index: int) -> Seq<Seq<u8>> {
    book.update(index, book.last()).drop_last()
}

/// The registry after a ticket is redeemed: its first occurrence is removed, or
/// the ticket is reported missing.
pub open spec fn book_redeem(book: Seq<Seq<u8>>, ticket: Seq<u8>) -> Result<
    Seq<Seq<u8>>,
    OridionError,
> {
    match book.index_of_first(ticket) {
        Some(index) => Ok(book_swap_remove(book, index)),
        None => Err(OridionError::TicketNotFound),
    }
}

/// Entering a ticket keeps a well-formed registry well formed, and afterwards the
/// ticket is in it.
pub proof fn lemma_insert_keeps_wf(book: Seq<Seq<u8>>, ticket: Seq<u8>)
    requires
        book_wf(book),
        book_insert(book, ticket) is Ok,
    ensures
        book_wf(book_insert(book, ticket)->Ok_0),
        book_insert(book, ticket)->Ok_0.contains(ticket),
{
    if !book.contains(ticket) {
        let after = book.push(ticket);
        assert(after[after.len() - 1] == ticket);
        assert forall|i: int, j: int|
            0 <= i < after.len() && 0 <= j < after.len() && i != j implies after[i] != after[j] by {
            if i < book.len() && j < book.len() {
            } else if i < book.len() {
            } else {
            }
        }
    }
}

/// Entering a ticket that is already there changes nothing: a pod gets one ticket,
/// however often it is entered.
pub proof fn lemma_insert_is_idempotent(book: Seq<Seq<u8>>, ticket: Seq<u8>)
    requires
        book_insert(book, ticket) is Ok,
    ensures
        book_insert(book_insert(book, ticket)->Ok_0, ticket) == book_insert(book, ticket),
{
    if !book.contains(ticket) {
        let after = book.push(ticket);
        assert(after[after.len() - 1] == ticket);
    }
}

/// Removing the ticket at `index` from a well-formed registry leaves a well-formed
/// registry that no longer holds it, and every other ticket stays.
pub proof fn lemma_swap_remove_drops_ticket(book: Seq<Seq<u8>>, index: int)
    requires
        book_wf(book),
        0 <= index < book.len(),
    ensures
        book_wf(book_swap_remove(book, index)),
        !book_swap_remove(book, index).contains(book[index]),
        forall|t: Seq<u8>|
            t != book[index] ==> (book_swap_remove(book, index).contains(t) <==> book.contains(t)),
        book_swap_remove(book, index).len() == book.len() - 1,
{
    let after = book_swap_remove(book, index);
    let last = book.len() - 1;
    assert forall|i: int| 0 <= i < after.len() implies after[i] == (if i == index {
        book[last]
    } else {
        book[i]
    }) by {}
    assert forall|t: Seq<u8>| t != book[index] implies (after.contains(t) <==> book.contains(
        t,
    )) by {
        if after.contains(t) {
            let i = choose|i: int| 0 <= i < after.len() && after[i] == t;
            if i == index {
            } else {
            }
        }
        if book.contains(t) {
            let i = choose|i: int| 0 <= i < book.len() && book[i] == t;
            if i == last {
                assert(after[index] == t);
            } else {
                assert(after[i] == t);
            }
        }
    }
    if after.contains(book[index]) {
        let i = choose|i: int| 0 <= i < after.len() && after[i] == book[index];
        if i == index {
        } else {
        }
    }
}

impl LandBook {
    /// An empty registry.
    pub fn new() -> (book: LandBook)
        ensures
            book@ == Seq::<Seq<u8>>::empty(),
            book_wf(book@),
    {
        let book = LandBook { tickets: Vec::new() };
        book
    }

    /// How many tickets the registry holds.
    pub fn len(&self) -> (n: usize)
        ensures
            n == self@.len(),
    {
        self.tickets.len()
    }

    /// Where the ticket first occurs in the registry, if it does.
    pub fn position(&self, ticket: &[u8; 16]) -> (found: Option<usize>)
        ensures
            match found {
                Some(i) => self@.index_of_first(ticket@) == Some(i as int) && i < self@.len(),
                None => self@.index_of_first(ticket@) is None,
            },
            found is Some <==> self@.contains(ticket@),
    {
        let mut i: usize = 0;
        while i < self.tickets.len()
            invariant
                i <= self.tickets.len(),
                forall|j: int| 0 <= j < i ==> self@[j] != ticket@,
            decreases self.tickets.len() - i,
        {
            if bytes_equal(&self.tickets[i], ticket) {
                proof {
                    assert(self@[i as int] == ticket@);
                    self@.index_of_first_ensures(ticket@);
                }
                return Some(i);
            }
            proof {
                assert(!(self.tickets[i as int] =~= *ticket));
            }
            i += 1;
        }
        proof {
            self@.index_of_first_ensures(ticket@);
        }
        None
    }

    /// Whether the registry holds the ticket.
    pub fn contains(&self, ticket: &[u8; 16]) -> (found: bool)
        ensures
            found == self@.contains(ticket@),
    {
        self.position(ticket).is_some()
    }

    /// Enters a ticket unless it is already there. A full registry refuses a new
    /// ticket with `LandBookFull` and stays as it is.
    pub fn insert_once(&mut self, ticket: [u8; 16]) -> (r: Result<(), OridionError>)
        ensures
            match book_insert(old(self)@, ticket@) {
                Ok(after) => r is Ok && final(self)@ == after,
                Err(e) => r == Err::<(), OridionError>(e) && *final(self) == *old(self),
            },
            book_wf(old(self)@) ==> book_wf(final(self)@),
    {
        proof {
            if book_wf(self@) && book_insert(self@, ticket@) is Ok {
                lemma_insert_keeps_wf(self@, ticket@);
            }
        }
        if self.contains(&ticket) {
            return Ok(());
        }
        if self.tickets.len() >= LAND_BOOK_CAPACITY {
            return Err(OridionError::LandBookFull);
        }
        self.tickets.push(ticket);
        Ok(())
    }

    /// Removes the ticket at `index` by moving the last ticket into its place.
    pub fn swap_remove(&mut self, index: usize) -> (ticket: [u8; 16])
        requires
            index < old(self)@.len(),
        ensures
            ticket@ == old(self)@[index as int],
            final(self)@ == book_swap_remove(old(self)@, index as int),
            book_wf(old(self)@) ==> book_wf(final(self)@) && !final(self)@.contains(ticket@),
    {
        proof {
            if book_wf(self@) {
                lemma_swap_remove_drops_ticket(self@, index as int);
            }
        }
        let ticket = self.tickets.swap_remove(index);
        assert(self@ =~= book_swap_remove(old(self)@, index as int));
        ticket
    }

    /// Redeems a ticket: removes its first occurrence, or reports `TicketNotFound`
    /// and leaves the registry as it is.
    pub fn redeem(&mut self, ticket: &[u8; 16]) -> (r: Result<(), OridionError>)
        ensures
            match book_redeem(old(self)@, ticket@) {
                Ok(after) => r is Ok && final(self)@ == after,
                Err(e) => r == Err::<(), OridionError>(e) && *final(self) == *old(self),
            },
            book_wf(old(self)@) ==> book_wf(final(self)@) && !final(self)@.contains(ticket@),
    {
        proof {
            self@.index_of_first_ensures(ticket@);
        }
        match self.position(ticket) {
            Some(i) => {
                let _ = self.swap_remove(i);
                Ok(())
            },
            None => Err(OridionError::TicketNotFound),
        }
    }
}

} // verus!
