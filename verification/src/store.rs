//! The store: an index from identifier to ticket and the counter that issues
//! identifiers. It knows nothing of threads; whoever owns it serialises access.

use crate::data::{Ticket, TicketDraft, TicketDraftView, TicketView};
use std::cmp::Ordering;
use std::collections::BTreeMap;
use vstd::prelude::*;
use vstd::std_specs::cmp::PartialOrdSpecImpl;

verus! {

broadcast use {vstd::std_specs::btree::group_btree_axioms, vstd::laws_cmp::group_laws_cmp};

/// The token under which a store files a ticket. Identifiers order and
/// compare as the numbers they wrap.
#[derive(Clone, Copy, Debug, PartialEq, Eq, Ord, Structural)]
pub struct TicketId(u64);

impl View for TicketId {
    type V = u64;

    closed spec fn view(&self) -> u64 {
        self.0
    }
}

impl TicketId {
    /// The identifier that wraps `value`.
    pub fn new(value: u64) -> (id: TicketId)
        ensures
            id@ == value,
    {
        TicketId(value)
    }

    /// The number that this identifier wraps.
    pub fn value(&self) -> (value: u64)
        ensures
            value == self@,
    {
        self.0
    }

    /// Two identifiers that wrap the same number are the same identifier.
    pub broadcast proof fn lemma_view_is_injective(a: TicketId, b: TicketId)
        requires
            #[trigger] a@ == #[trigger] b@,
        ensures
            a == b,
    {
    }
}

impl PartialOrdSpecImpl for TicketId {
    open spec fn obeys_partial_cmp_spec() -> bool {
        true
    }

    open spec fn partial_cmp_spec(&self, other: &TicketId) -> Option<Ordering> {
        if self@ < other@ {
            Some(Ordering::Less)
        } else if self@ == other@ {
            Some(Ordering::Equal)
        } else {
            Some(Ordering::Greater)
        }
    }
}

impl PartialOrd for TicketId {
    /// Orders identifiers as the numbers they wrap.
    fn partial_cmp(&self, other: &TicketId) -> (order: Option<Ordering>) {
        if self.0 < other.0 {
            Some(Ordering::Less)
        } else if self.0 == other.0 {
            Some(Ordering::Equal)
        } else {
            Some(Ordering::Greater)
        }
    }
}

/// A store as contracts see it: the tickets by number, and the number that
/// the next ticket will get.
pub struct StoreModel {
    pub tickets: Map<u64, TicketView>,
    pub next: nat,
}

impl StoreModel {
    /// The store that holds nothing and has issued nothing.
    pub open spec fn empty() -> StoreModel {
        StoreModel { tickets: Map::empty(), next: 0 }
    }

    /// The numbers issued so far are exactly those below `next`, each files
    /// the ticket that carries it, and `next` is still a `u64` or one past.
    pub open spec fn wf(self) -> bool {
        &&& self.next <= u64::MAX
        &&& forall|id: u64| #[trigger] self.tickets.contains_key(id) <==> id < self.next
        &&& forall|id: u64| #[trigger] self.tickets.contains_key(id) ==> self.tickets[id].id == id
    }

    /// Whether one more identifier can be issued.
    pub open spec fn has_room(self) -> bool {
        self.next < u64::MAX
    }

    /// The store after it has filed `draft` under its next number.
    pub open spec fn add(self, draft: TicketDraftView) -> StoreModel {
        StoreModel {
            tickets: self.tickets.insert(self.next as u64, draft.filed_as(self.next as u64)),
            next: self.next + 1,
        }
    }

    /// The ticket filed under `id`, if there is one.
    pub open spec fn get(self, id: u64) -> Option<TicketView> {
        if self.tickets.contains_key(id) {
            Some(self.tickets[id])
        } else {
            None
        }
    }
}

impl StoreModel {
    /// The store after it has filed each of `drafts`, first to last.
    pub open spec fn add_all(self, drafts: Seq<TicketDraftView>) -> StoreModel
        decreases drafts.len(),
    {
        if drafts.len() == 0 {
            self
        } else {
            self.add_all(drafts.drop_last()).add(drafts.last())
        }
    }

    /// The numbers issued while filing each of `drafts`, first to last: the
    /// k-th is the store's next number once the k drafts before it are filed.
    pub open spec fn issued(self, drafts: Seq<TicketDraftView>) -> Seq<u64> {
        Seq::new(drafts.len(), |k: int| self.add_all(drafts.take(k)).next as u64)
    }

    /// An empty store is well formed.
    pub proof fn lemma_empty_is_wf()
        ensures
            StoreModel::empty().wf(),
    {
    }

    /// Filing a ticket keeps the store well formed: the new number was not
    /// in use, it becomes the highest one filed, and the counter moves one
    /// past it.
    pub proof fn lemma_add_keeps_wf(self, draft: TicketDraftView)
        requires
            self.wf(),
            self.has_room(),
        ensures
            self.add(draft).wf(),
            !self.tickets.contains_key(self.next as u64),
            self.add(draft).next == self.next + 1,
            forall|id: u64| self.add(draft).tickets.contains_key(id) ==> id <= self.next,
    {
    }

    /// Filing a run of drafts hands out the next numbers in order, files
    /// each draft under its number, and leaves every older ticket as it was.
    pub proof fn lemma_add_all(self, drafts: Seq<TicketDraftView>)
        requires
            self.wf(),
            self.next + drafts.len() <= u64::MAX,
        ensures
            self.add_all(drafts).wf(),
            self.add_all(drafts).next == self.next + drafts.len(),
            forall|id: u64|
                id < self.next ==> self.add_all(drafts).tickets[id] == self.tickets[id],
            forall|k: int|
                0 <= k < drafts.len() ==> self.add_all(drafts).tickets[(self.next + k) as u64]
                    == (#[trigger] drafts[k]).filed_as((self.next + k) as u64),
        decreases drafts.len(),
    {
        if drafts.len() > 0 {
            let earlier = drafts.drop_last();
            self.lemma_add_all(earlier);
            assert forall|k: int| 0 <= k < drafts.len() implies self.add_all(drafts).tickets[(
            self.next + k) as u64] == (#[trigger] drafts[k]).filed_as((self.next + k) as u64) by {
                if k < earlier.len() {
                    assert(earlier[k] == drafts[k]);
                }
            }
        }
    }

    /// Inserts made one after another on a new store get the identifiers
    /// 0, 1, 2, ... in that order: none twice, none left out.
    pub proof fn lemma_identifiers_are_consecutive(drafts: Seq<TicketDraftView>)
        requires
            drafts.len() <= u64::MAX,
        ensures
            StoreModel::empty().issued(drafts) == Seq::new(drafts.len(), |k: int| k as u64),
            StoreModel::empty().issued(drafts).no_duplicates(),
            StoreModel::empty().issued(drafts).to_set() == Set::new(|id: u64| id < drafts.len()),
            StoreModel::empty().add_all(drafts).tickets.dom() == Set::new(
                |id: u64| id < drafts.len(),
            ),
    {
        let store = StoreModel::empty();
        let issued = store.issued(drafts);
        let expected = Seq::new(drafts.len(), |k: int| k as u64);
        assert forall|k: int| 0 <= k < drafts.len() implies issued[k] == expected[k] by {
            store.lemma_add_all(drafts.take(k));
        }
        assert(issued =~= expected);
        assert(issued.to_set() =~= Set::new(|id: u64| id < drafts.len())) by {
            assert forall|id: u64| id < drafts.len() implies issued.to_set().contains(id) by {
                assert(issued[id as int] == id);
            }
        }
        store.lemma_add_all(drafts);
        assert(store.add_all(drafts).tickets.dom() =~= Set::new(|id: u64| id < drafts.len()));
    }

    /// A ticket stays as it was filed: after `draft` is inserted, and after
    /// any further inserts, a lookup under its identifier finds the draft's
    /// title and description under that identifier, not yet started.
    pub proof fn lemma_inserted_ticket_is_found(
        self,
        draft: TicketDraftView,
        later: Seq<TicketDraftView>,
    )
        requires
            self.wf(),
            self.next + 1 + later.len() <= u64::MAX,
        ensures
            self.add(draft).add_all(later).get(self.next as u64) == Some(
                draft.filed_as(self.next as u64),
            ),
    {
        let filed = self.add(draft);
        filed.lemma_add_all(later);
        assert(filed.tickets[self.next as u64] == draft.filed_as(self.next as u64));
        assert(filed.add_all(later).tickets.contains_key(self.next as u64));
    }

    /// A lookup under an identifier that was never issued finds nothing.
    pub proof fn lemma_unissued_is_absent(self, id: u64)
        requires
            self.wf(),
            id >= self.next,
        ensures
            self.get(id) is None,
    {
    }

    /// A lookup finds a ticket exactly under the identifiers issued so far,
    /// and the ticket found carries the identifier it was asked under.
    pub proof fn lemma_get_finds_issued(self, id: u64)
        requires
            self.wf(),
        ensures
            self.get(id) is Some <==> id < self.next,
            self.get(id) matches Some(ticket) ==> ticket.id == id,
    {
    }
}

/// Owns the tickets and issues their identifiers.
pub struct TicketStore {
    tickets: BTreeMap<u64, Ticket>,
    counter: u64,
}

impl View for TicketStore {
    type V = StoreModel;

    closed spec fn view(&self) -> StoreModel {
        StoreModel {
            tickets: self.tickets@.map_values(|ticket: Ticket| ticket@),
            next: self.counter as nat,
        }
    }
}

impl TicketStore {
    /// An empty store, whose first ticket will be number 0.
    pub fn new() -> (store: TicketStore)
        ensures
            store@ == StoreModel::empty(),
            store@.wf(),
    {
        let store = TicketStore { tickets: BTreeMap::new(), counter: 0 };
        assert(store@.tickets =~= Map::empty());
        store
    }

    /// The number that the next ticket will get; also the count of tickets
    /// filed so far.
    pub fn next_id(&self) -> (next: u64)
        ensures
            next == self@.next,
    {
        self.counter
    }

    /// Files `draft` as a new ticket, not yet started, and returns the
    /// identifier issued for it: the store's next number.
    pub fn add_ticket(&mut self, draft: TicketDraft) -> (id: TicketId)
        requires
            old(self)@.wf(),
            old(self)@.has_room(),
        ensures
            id@ == old(self)@.next,
            final(self)@ == old(self)@.add(draft@),
            final(self)@.wf(),
    {
        let number = self.counter;
        let id = TicketId::new(number);
        let ticket = Ticket::from_draft(id, draft);
        self.counter = number + 1;
        self.tickets.insert(number, ticket);
        assert(self@.tickets =~= old(self)@.add(draft@).tickets);
        id
    }

    /// The ticket filed under `id`; nothing if `id` was never issued.
    pub fn get(&self, id: TicketId) -> (found: Option<&Ticket>)
        ensures
            match found {
                Some(ticket) => self@.get(id@) == Some(ticket@),
                None => self@.get(id@) is None,
            },
    {
        let number = id.value();
        self.tickets.get(&number)
    }

    /// A copy of the ticket filed under `id`; nothing if `id` was never
    /// issued.
    pub fn get_cloned(&self, id: TicketId) -> (found: Option<Ticket>)
        ensures
            match found {
                Some(ticket) => self@.get(id@) == Some(ticket@),
                None => self@.get(id@) is None,
            },
    {
        match self.get(id) {
            Some(ticket) => Some(ticket.clone()),
            None => None,
        }
    }
}

} // verus!
