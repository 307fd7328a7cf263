//! The store whose tickets can be edited without going through the actor:
//! each ticket lives in a cell with a lock of its own, held together by the
//! store and by every caller that looked the ticket up. Holding one ticket's
//! lock keeps nobody from another ticket. Whatever is written through a
//! lock, the ticket keeps the identifier it was filed under.

use crate::data::{Status, Ticket, TicketDraft, TicketView};
use crate::store::TicketId;
use std::collections::BTreeMap;
use std::sync::Arc;
use vstd::prelude::*;
use vstd::rwlock::{RwLock, RwLockPredicate, WriteHandle};

verus! {

broadcast use {vstd::std_specs::btree::group_btree_axioms, vstd::laws_cmp::group_laws_cmp};

/// What a cell admits: tickets that carry the cell's number.
pub struct KeepsId {
    pub id: u64,
}

impl RwLockPredicate<Ticket> for KeepsId {
    open spec fn inv(self, ticket: Ticket) -> bool {
        ticket.id@ == self.id
    }
}

/// A ticket in its cell, shared between the store and whoever looked it up.
/// Two handles are equal exactly when they lead to the same cell.
pub struct SharedTicket {
    cell: Arc<RwLock<Ticket, KeepsId>>,
}

/// `Arc::clone`: one more pointer to the same cell. The contract claims
/// that the new pointer equals the one it was made from, which for pointers
/// means that they lead to the same cell.
#[verifier::external_body]
fn same_cell(cell: &Arc<RwLock<Ticket, KeepsId>>) -> (shared: Arc<RwLock<Ticket, KeepsId>>)
    ensures
        shared == *cell,
{
    Arc::clone(cell)
}

impl SharedTicket {
    /// The number that every ticket in this cell carries.
    pub closed spec fn number(&self) -> u64 {
        self.cell.pred().id
    }

    /// Puts `ticket` into a new cell of its own.
    pub fn new(ticket: Ticket) -> (shared: SharedTicket)
        ensures
            shared.number() == ticket.id@,
    {
        let ghost keeps = KeepsId { id: ticket.id@ };
        SharedTicket { cell: Arc::new(RwLock::new(ticket, Ghost(keeps))) }
    }

    /// One more handle on the same cell.
    pub fn share(&self) -> (other: SharedTicket)
        ensures
            other == *self,
    {
        SharedTicket { cell: same_cell(&self.cell) }
    }

    /// The identifier of the ticket.
    pub fn id(&self) -> (id: TicketId)
        ensures
            id@ == self.number(),
    {
        let reading = self.cell.acquire_read();
        let id = reading.borrow().id;
        reading.release_read();
        id
    }

    /// A copy of the ticket as it stands now. Readers do not keep each
    /// other out; a writer keeps them out until it releases the ticket.
    pub fn snapshot(&self) -> (copy: Ticket)
        ensures
            copy.id@ == self.number(),
    {
        let reading = self.cell.acquire_read();
        let copy = reading.borrow().clone();
        reading.release_read();
        copy
    }

    /// Takes the ticket's lock, waiting for whoever holds it now. Until the
    /// guard is released nobody else reads or writes this ticket; other
    /// tickets are not affected.
    pub fn lock(&self) -> (guard: TicketGuard<'_>)
        ensures
            guard.number() == self.number(),
            guard@.id == self.number(),
    {
        let (ticket, writing) = self.cell.acquire_write();
        TicketGuard { ticket, writing }
    }
}

impl Clone for SharedTicket {
    fn clone(&self) -> (other: SharedTicket)
        ensures
            other == *self,
    {
        self.share()
    }
}

/// Exclusive access to one ticket. The ticket is edited through the guard
/// and written back to its cell when the guard is released. A guard that is
/// dropped without `release` leaves the ticket locked.
pub struct TicketGuard<'a> {
    ticket: Ticket,
    writing: WriteHandle<'a, Ticket, KeepsId>,
}

impl<'a> View for TicketGuard<'a> {
    type V = TicketView;

    closed spec fn view(&self) -> TicketView {
        self.ticket@
    }
}

impl<'a> TicketGuard<'a> {
    #[verifier::type_invariant]
    spec fn keeps_id(self) -> bool {
        self.writing.rwlock().inv(self.ticket)
    }

    /// The number of the cell that this guard has locked.
    pub closed spec fn number(&self) -> u64 {
        self.writing.rwlock().pred().id
    }

    /// The ticket as the guard holds it.
    pub fn ticket(&self) -> (ticket: &Ticket)
        ensures
            ticket@ == self@,
            ticket.id@ == self.number(),
    {
        proof {
            use_type_invariant(self);
        }
        &self.ticket
    }

    /// Replaces the title.
    pub fn set_title(&mut self, title: String)
        ensures
            final(self)@ == (TicketView { title: title@, ..old(self)@ }),
            final(self).number() == old(self).number(),
    {
        proof {
            use_type_invariant(&*self);
        }
        self.ticket.title = title;
    }

    /// Replaces the description.
    pub fn set_description(&mut self, description: String)
        ensures
            final(self)@ == (TicketView { description: description@, ..old(self)@ }),
            final(self).number() == old(self).number(),
    {
        proof {
            use_type_invariant(&*self);
        }
        self.ticket.description = description;
    }

    /// Moves the ticket to `status`.
    pub fn set_status(&mut self, status: Status)
        ensures
            final(self)@ == (TicketView { status, ..old(self)@ }),
            final(self).number() == old(self).number(),
    {
        proof {
            use_type_invariant(&*self);
        }
        self.ticket.status = status;
    }

    /// Writes the ticket back to its cell and gives the lock up.
    pub fn release(self) {
        proof {
            use_type_invariant(&self);
        }
        let TicketGuard { ticket, writing } = self;
        writing.release_write(ticket);
    }
}

/// A store of shared tickets as contracts see it: the cells by number, and
/// the number that the next ticket will get.
pub struct SharedIndex {
    pub cells: Map<u64, SharedTicket>,
    pub next: nat,
}

impl SharedIndex {
    /// The store that holds nothing and has issued nothing.
    pub open spec fn empty() -> SharedIndex {
        SharedIndex { cells: Map::empty(), next: 0 }
    }

    /// The numbers issued so far are exactly those below `next`, and the
    /// cell filed under a number admits only tickets that carry it.
    pub open spec fn wf(self) -> bool {
        &&& self.next <= u64::MAX
        &&& forall|id: u64| #[trigger] self.cells.contains_key(id) <==> id < self.next
        &&& forall|id: u64| #[trigger] self.cells.contains_key(id) ==> self.cells[id].number() == id
    }

    /// Whether one more identifier can be issued.
    pub open spec fn has_room(self) -> bool {
        self.next < u64::MAX
    }

    /// The store after it has filed `cell` under its next number.
    pub open spec fn add(self, cell: SharedTicket) -> SharedIndex {
        SharedIndex { cells: self.cells.insert(self.next as u64, cell), next: self.next + 1 }
    }

    /// The cell filed under `id`, if there is one.
    pub open spec fn get(self, id: u64) -> Option<SharedTicket> {
        if self.cells.contains_key(id) {
            Some(self.cells[id])
        } else {
            None
        }
    }

    /// The store after it has filed each of `cells`, first to last.
    pub open spec fn add_all(self, cells: Seq<SharedTicket>) -> SharedIndex
        decreases cells.len(),
    {
        if cells.len() == 0 {
            self
        } else {
            self.add_all(cells.drop_last()).add(cells.last())
        }
    }
}

impl SharedIndex {
    /// An empty store is well formed.
    pub proof fn lemma_empty_is_wf()
        ensures
            SharedIndex::empty().wf(),
    {
    }

    /// Filing a cell under the next number keeps the store well formed, as
    /// long as the cell admits only tickets that carry that number: the
    /// number was not in use, and every cell filed before stays where it
    /// was.
    pub proof fn lemma_add_keeps_wf(self, cell: SharedTicket)
        requires
            self.wf(),
            self.has_room(),
            cell.number() == self.next,
        ensures
            self.add(cell).wf(),
            !self.cells.contains_key(self.next as u64),
            self.add(cell).get(self.next as u64) == Some(cell),
            forall|id: u64| id < self.next ==> self.add(cell).get(id) == self.get(id),
    {
    }

    /// Filing a run of cells hands out the next numbers in order: the k-th
    /// cell is found under the k-th of them from then on, and every cell
    /// filed before stays where it was.
    pub proof fn lemma_add_all(self, cells: Seq<SharedTicket>)
        requires
            self.wf(),
            self.next + cells.len() <= u64::MAX,
            forall|k: int| 0 <= k < cells.len() ==> (#[trigger] cells[k]).number() == self.next + k,
        ensures
            self.add_all(cells).wf(),
            self.add_all(cells).next == self.next + cells.len(),
            forall|id: u64| id < self.next ==> self.add_all(cells).get(id) == self.get(id),
            forall|k: int|
                0 <= k < cells.len() ==> self.add_all(cells).get((self.next + k) as u64) == Some(
                    #[trigger] cells[k],
                ),
        decreases cells.len(),
    {
        if cells.len() > 0 {
            let earlier = cells.drop_last();
            assert forall|k: int| 0 <= k < earlier.len() implies (#[trigger] earlier[k]).number()
                == self.next + k by {
                assert(earlier[k] == cells[k]);
            }
            self.lemma_add_all(earlier);
            assert forall|k: int| 0 <= k < cells.len() implies self.add_all(cells).get(
                (self.next + k) as u64,
            ) == Some(#[trigger] cells[k]) by {
                if k < earlier.len() {
                    assert(earlier[k] == cells[k]);
                }
            }
        }
    }

    /// A lookup finds a cell exactly under the identifiers issued so far,
    /// and the cell found admits only tickets that carry the identifier
    /// asked for: whatever is written through its lock, the ticket keeps
    /// its identity.
    pub proof fn lemma_get_finds_issued(self, id: u64)
        requires
            self.wf(),
        ensures
            self.get(id) is Some <==> id < self.next,
            self.get(id) matches Some(cell) ==> cell.number() == id,
    {
    }
}

/// Owns the index of the cells and issues identifiers. Adding a ticket
/// needs the store to oneself; editing a ticket needs only its handle.
pub struct TicketStore {
    tickets: BTreeMap<u64, SharedTicket>,
    counter: u64,
}

impl View for TicketStore {
    type V = SharedIndex;

    closed spec fn view(&self) -> SharedIndex {
        SharedIndex { cells: self.tickets@, next: self.counter as nat }
    }
}

impl Clone for TicketStore {
    /// A second index over the same cells: what is written through a handle
    /// from one store is seen through both. The two issue identifiers
    /// independently from here on.
    fn clone(&self) -> (copy: TicketStore)
        ensures
            copy@ == self@,
    {
        TicketStore { tickets: self.tickets.clone(), counter: self.counter }
    }
}

impl TicketStore {
    /// An empty store, whose first ticket will be number 0.
    pub fn new() -> (store: TicketStore)
        ensures
            store@ == SharedIndex::empty(),
            store@.wf(),
    {
        TicketStore { tickets: BTreeMap::new(), counter: 0 }
    }

    /// The number that the next ticket will get; also the count of tickets
    /// filed so far.
    pub fn next_id(&self) -> (next: u64)
        ensures
            next == self@.next,
    {
        self.counter
    }

    /// Files `ticket` as a new ticket, not yet started, in a cell of its
    /// own, and returns the identifier issued for it: the store's next
    /// number. The cells filed before stay where they are.
    pub fn add_ticket(&mut self, ticket: TicketDraft) -> (id: TicketId)
        requires
            old(self)@.wf(),
            old(self)@.has_room(),
        ensures
            id@ == old(self)@.next,
            final(self)@.get(id@) is Some,
            final(self)@ == old(self)@.add(final(self)@.cells[id@]),
            final(self)@.wf(),
    {
        let number = self.counter;
        let id = TicketId::new(number);
        let cell = SharedTicket::new(Ticket::from_draft(id, ticket));
        self.counter = number + 1;
        self.tickets.insert(number, cell);
        assert(self@.cells =~= old(self)@.add(self@.cells[number]).cells);
        id
    }

    /// A handle on the ticket filed under `id`, to read or to edit it;
    /// nothing if `id` was never issued. The store keeps its own handle, so
    /// later lookups reach the same cell, also while it is locked.
    pub fn get(&self, id: TicketId) -> (found: Option<SharedTicket>)
        ensures
            found == self@.get(id@),
    {
        let number = id.value();
        match self.tickets.get(&number) {
            Some(cell) => Some(cell.share()),
            None => None,
        }
    }
}

} // verus!
