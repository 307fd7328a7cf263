//! What the actors have in common: one thread owns a store and serves the
//! requests of its queue one at a time, in the order they arrive. This
//! module says what serving means, over requests without their channels, and
//! proves what clients may rely on.

use crate::data::{TicketDraftView, TicketView};
use crate::store::StoreModel;
use vstd::prelude::*;

verus! {

/// Where an actor stands. It starts `Running` on an empty store, stays so
/// after every command it serves, and is `Stopped` for good once its queue
/// reports that no sender is left.
#[derive(Clone, Copy, Debug, PartialEq, Eq, Structural)]
pub enum ActorState {
    Running,
    Stopped,
}

/// The number of commands an actor serves in its life. Every insert is a
/// command, so an actor that keeps within this budget never runs out of
/// identifiers, and its loop is bounded.
pub const COMMAND_BUDGET: u64 = u64::MAX;

/// A command as contracts see it: what is asked, without the channel for
/// the answer.
pub enum Request {
    /// File this draft as a new ticket.
    Insert(TicketDraftView),
    /// Look up the ticket filed under this number.
    Get(u64),
}

/// What the actor answers, as contracts see it.
pub enum Answer {
    /// The number issued for an insert.
    Inserted(u64),
    /// What a lookup found.
    Found(Option<TicketView>),
}

impl Request {
    /// The store after the actor has served this request on `store`. Only
    /// an insert changes it.
    pub open spec fn effect(self, store: StoreModel) -> StoreModel {
        match self {
            Request::Insert(draft) => store.add(draft),
            Request::Get(_) => store,
        }
    }

    /// Whether `store` can serve this request: an insert needs an identifier
    /// that is still to be issued, a lookup needs nothing.
    pub open spec fn fits(self, store: StoreModel) -> bool {
        self is Insert ==> store.has_room()
    }

    /// What the actor answers when it serves this request on `store`: to an
    /// insert the store's next number, to a lookup what the store files
    /// under the number asked for.
    pub open spec fn answer(self, store: StoreModel) -> Answer {
        match self {
            Request::Insert(_) => Answer::Inserted(store.next as u64),
            Request::Get(id) => Answer::Found(store.get(id)),
        }
    }
}

/// The store after the actor has served each of `requests` on `store`, first
/// to last.
pub open spec fn run(store: StoreModel, requests: Seq<Request>) -> StoreModel
    decreases requests.len(),
{
    if requests.len() == 0 {
        store
    } else {
        requests.last().effect(run(store, requests.drop_last()))
    }
}

/// The drafts of the inserts among `requests`, in their order.
pub open spec fn drafts_of(requests: Seq<Request>) -> Seq<TicketDraftView>
    decreases requests.len(),
{
    if requests.len() == 0 {
        Seq::empty()
    } else {
        match requests.last() {
            Request::Insert(draft) => drafts_of(requests.drop_last()).push(draft),
            Request::Get(_) => drafts_of(requests.drop_last()),
        }
    }
}

/// Serving requests files the drafts of its inserts, in their order, and
/// does nothing else to the store: lookups leave no trace.
pub proof fn lemma_run_files_the_inserts(store: StoreModel, requests: Seq<Request>)
    ensures
        run(store, requests) == store.add_all(drafts_of(requests)),
        drafts_of(requests).len() <= requests.len(),
    decreases requests.len(),
{
    if requests.len() > 0 {
        lemma_run_files_the_inserts(store, requests.drop_last());
        match requests.last() {
            Request::Insert(draft) => {
                let drafts = drafts_of(requests);
                assert(drafts.drop_last() =~= drafts_of(requests.drop_last()));
                assert(drafts.last() == draft);
            },
            Request::Get(_) => {},
        }
    }
}

/// Every state that an actor goes through is well formed: serving requests
/// keeps the store so, and never takes an identifier back.
pub proof fn lemma_run_keeps_wf(store: StoreModel, requests: Seq<Request>)
    requires
        store.wf(),
        store.next + requests.len() <= u64::MAX,
    ensures
        run(store, requests).wf(),
        store.next <= run(store, requests).next <= store.next + requests.len(),
        forall|id: u64| id < store.next ==> run(store, requests).tickets[id] == store.tickets[id],
{
    lemma_run_files_the_inserts(store, requests);
    store.lemma_add_all(drafts_of(requests));
}

/// An actor that starts on an empty store answers each insert with the
/// number of inserts it served before: the first with 0, the next with 1,
/// and so on, whatever lookups come in between.
pub proof fn lemma_inserts_are_numbered_in_order(requests: Seq<Request>, k: int)
    requires
        requests.len() <= u64::MAX,
        0 <= k < requests.len(),
        requests[k] is Insert,
    ensures
        requests[k].answer(run(StoreModel::empty(), requests.take(k))) == Answer::Inserted(
            drafts_of(requests.take(k)).len() as u64,
        ),
{
    let before = requests.take(k);
    lemma_run_files_the_inserts(StoreModel::empty(), before);
    StoreModel::empty().lemma_add_all(drafts_of(before));
}

/// Once an insert has been served, a lookup under the identifier it was
/// answered with finds the draft's title and description under that
/// identifier, not yet started, whatever the actor served in between.
pub proof fn lemma_lookup_finds_the_inserted(
    store: StoreModel,
    draft: TicketDraftView,
    between: Seq<Request>,
)
    requires
        store.wf(),
        store.next + 1 + between.len() <= u64::MAX,
    ensures
        Request::Insert(draft).answer(store) == Answer::Inserted(store.next as u64),
        Request::Get(store.next as u64).answer(
            run(Request::Insert(draft).effect(store), between),
        ) == Answer::Found(Some(draft.filed_as(store.next as u64))),
{
    let filed = store.add(draft);
    lemma_run_files_the_inserts(filed, between);
    store.lemma_inserted_ticket_is_found(draft, drafts_of(between));
}

/// A lookup under an identifier that the actor has not issued is answered
/// with nothing found.
pub proof fn lemma_lookup_of_unissued_finds_nothing(store: StoreModel, id: u64)
    requires
        store.wf(),
        id >= store.next,
    ensures
        Request::Get(id).answer(store) == Answer::Found(None),
{
}

} // verus!
