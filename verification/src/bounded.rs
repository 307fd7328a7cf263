//! The third actor: its queue holds a fixed number of commands. A client
//! offers a command without waiting; when the queue is full the offer is
//! refused at once, and only an accepted command makes the client wait, for
//! the answer alone.

use crate::actor::{lemma_run_keeps_wf, run, ActorState, Answer, Request, COMMAND_BUDGET};
use crate::data::{Ticket, TicketDraft};
use crate::mpsc::{offer, Admission};
use crate::store::{StoreModel, TicketId, TicketStore};
use std::sync::mpsc::{Receiver, RecvError, SyncSender};
use vstd::prelude::*;

verus! {

/// The queue was at capacity when the request was offered. Nothing was
/// enqueued and the store is untouched; the caller may try again later.
#[derive(Clone, Copy, Debug, PartialEq, Eq, Structural)]
pub struct OverloadedError;

impl OverloadedError {
    /// The error in words.
    pub fn message(&self) -> (message: String)
        ensures
            message@ == "The store is overloaded"@,
    {
        "The store is overloaded".to_owned()
    }
}

/// The actor stopped before it answered, or had stopped already: the
/// request will never be answered.
#[derive(Clone, Copy, Debug, PartialEq, Eq, Structural)]
pub struct ActorUnavailable;

/// A request to the actor, with the channel for its answer. Each command
/// brings a channel of its own, used for that one answer.
#[allow(inconsistent_fields)]
pub enum Command {
    Insert { draft: TicketDraft, response_channel: SyncSender<TicketId> },
    Get { id: TicketId, response_channel: SyncSender<Option<Ticket>> },
}

/// An answer on its way: the value, and the channel of the command that
/// asked for it.
#[allow(inconsistent_fields)]
pub enum Reply {
    Inserted { id: TicketId, response_channel: SyncSender<TicketId> },
    Found { ticket: Option<Ticket>, response_channel: SyncSender<Option<Ticket>> },
}

impl View for Command {
    type V = Request;

    open spec fn view(&self) -> Request {
        match *self {
            Command::Insert { draft, .. } => Request::Insert(draft@),
            Command::Get { id, .. } => Request::Get(id@),
        }
    }
}

impl View for Reply {
    type V = Answer;

    open spec fn view(&self) -> Answer {
        match *self {
            Reply::Inserted { id, .. } => Answer::Inserted(id@),
            Reply::Found { ticket, .. } => Answer::Found(
                match ticket {
                    Some(ticket) => Some(ticket@),
                    None => None,
                },
            ),
        }
    }
}

impl Command {
    /// An insert of `draft`, with a channel of its own for the one answer,
    /// and the end of that channel on which the answer arrives.
    pub fn insert(draft: TicketDraft) -> (made: (Command, Receiver<TicketId>))
        ensures
            made.0@ == Request::Insert(draft@),
    {
        let (response_channel, response_receiver) = std::sync::mpsc::sync_channel(1);
        (Command::Insert { draft, response_channel }, response_receiver)
    }

    /// A lookup of `id`, with a channel of its own for the one answer, and
    /// the end of that channel on which the answer arrives.
    pub fn get(id: TicketId) -> (made: (Command, Receiver<Option<Ticket>>))
        ensures
            made.0@ == Request::Get(id@),
    {
        let (response_channel, response_receiver) = std::sync::mpsc::sync_channel(1);
        (Command::Get { id, response_channel }, response_receiver)
    }

    /// Whether `reply` goes down the channel that this command brought.
    pub open spec fn is_answered_on(self, reply: Reply) -> bool {
        match (self, reply) {
            (
                Command::Insert { response_channel: asked, .. },
                Reply::Inserted { response_channel, .. },
            ) => asked == response_channel,
            (
                Command::Get { response_channel: asked, .. },
                Reply::Found { response_channel, .. },
            ) => asked == response_channel,
            _ => false,
        }
    }

    /// Executes the command on `store` and returns the answer, addressed to
    /// the command's own channel.
    pub fn execute(self, store: &mut TicketStore) -> (reply: Reply)
        requires
            old(store)@.wf(),
            self@.fits(old(store)@),
        ensures
            final(store)@.wf(),
            final(store)@ == self@.effect(old(store)@),
            reply@ == self@.answer(old(store)@),
            self.is_answered_on(reply),
    {
        match self {
            Command::Insert { draft, response_channel } => {
                let id = store.add_ticket(draft);
                Reply::Inserted { id, response_channel }
            },
            Command::Get { id, response_channel } => {
                let ticket = store.get_cloned(id);
                Reply::Found { ticket, response_channel }
            },
        }
    }
}

impl Reply {
    /// Offers the answer to its channel, once and without waiting, and
    /// tells whether the channel took it. It does not when the client has
    /// stopped listening, or when the channel has no room for the answer;
    /// the answer is then dropped. Which of these happens is up to the
    /// client, so nothing is promised of the result.
    pub fn deliver(self) -> (delivered: bool) {
        let admission = match self {
            Reply::Inserted { id, response_channel } => offer(&response_channel, id),
            Reply::Found { ticket, response_channel } => offer(&response_channel, ticket),
        };
        admission == Admission::Accepted
    }
}

/// One turn of the actor: executes the command that the queue handed over
/// and offers its answer once, or stops when the queue reported that every
/// sender is gone. An answer that nobody takes is dropped. The store
/// changes as the command says and in no other way.
pub fn step(store: &mut TicketStore, received: Result<Command, RecvError>) -> (state: ActorState)
    requires
        old(store)@.wf(),
        received matches Ok(command) ==> command@.fits(old(store)@),
    ensures
        final(store)@.wf(),
        match received {
            Ok(command) => state == ActorState::Running && final(store)@ == command@.effect(
                old(store)@,
            ),
            Err(_) => state == ActorState::Stopped && final(store)@ == old(store)@,
        },
{
    match received {
        Ok(command) => {
            let reply = command.execute(store);
            reply.deliver();
            ActorState::Running
        },
        Err(_) => ActorState::Stopped,
    }
}

/// The actor. Starts on an empty store and serves the commands of
/// `receiver` one at a time, in the order they arrive, until the queue
/// reports that every sender is gone or the command budget is spent. At
/// every turn its store is what serving the requests so far, in that order,
/// makes of an empty store.
pub fn server(receiver: Receiver<Command>) {
    let mut store = TicketStore::new();
    let mut served: u64 = 0;
    let ghost mut log: Seq<Request> = Seq::empty();
    while served < COMMAND_BUDGET
        invariant
            log.len() == served,
            store@ == run(StoreModel::empty(), log),
        decreases COMMAND_BUDGET - served,
    {
        proof {
            lemma_run_keeps_wf(StoreModel::empty(), log);
        }
        let received = receiver.recv();
        let ghost asked = received;
        match step(&mut store, received) {
            ActorState::Running => {
                proof {
                    let request = asked->Ok_0@;
                    assert(log.push(request).drop_last() =~= log);
                    log = log.push(request);
                }
                served = served + 1;
            },
            ActorState::Stopped => {
                return ;
            },
        }
    }
}

/// An answer that is still to come. Dropping it gives the request up; the
/// actor is not held up by that.
#[verifier::reject_recursive_types(T)]
pub struct PendingReply<T> {
    receiver: Receiver<T>,
}

/// What a wait for an answer comes to: the answer that arrived, or the news
/// that none will.
pub fn settle<T>(received: Result<T, RecvError>) -> (answer: Result<T, ActorUnavailable>)
    ensures
        match received {
            Ok(value) => answer == Ok::<T, ActorUnavailable>(value),
            Err(_) => answer is Err,
        },
{
    match received {
        Ok(value) => Ok(value),
        Err(_) => Err(ActorUnavailable),
    }
}

/// What an offer to the queue comes to: a full queue refuses the request;
/// otherwise the client goes on to wait on `receiver`. When the actor is
/// gone its queue has dropped the command and with it the sending end of
/// `receiver`, so that wait ends at once.
pub fn after_offer<T>(admission: Admission, receiver: Receiver<T>) -> (admitted: Result<
    PendingReply<T>,
    OverloadedError,
>)
    ensures
        admitted is Err <==> admission == Admission::Full,
        admitted matches Ok(pending) ==> pending.channel() == receiver,
{
    match admission {
        Admission::Full => Err(OverloadedError),
        Admission::Accepted | Admission::Disconnected => Ok(PendingReply { receiver }),
    }
}

impl<T> PendingReply<T> {
    /// The receiving end on which the answer is awaited.
    pub closed spec fn channel(self) -> Receiver<T> {
        self.receiver
    }

    /// Blocks until the actor has answered, or until it is known that it
    /// never will. What arrives is up to the actor; `settle` says what each
    /// outcome of the wait comes to.
    pub fn wait(self) -> (answer: Result<T, ActorUnavailable>) {
        settle(self.receiver.recv())
    }
}

/// A handle on the actor. Clones share the one queue and the one actor. The
/// capacity of the queue is set when the queue is made; no handle changes
/// it.
pub struct TicketStoreClient {
    sender: SyncSender<Command>,
    capacity: usize,
}

impl Clone for TicketStoreClient {
    fn clone(&self) -> (handle: TicketStoreClient)
        ensures
            handle.capacity() == self.capacity(),
    {
        TicketStoreClient { sender: self.sender.clone(), capacity: self.capacity }
    }
}

/// A queue that holds at most `capacity` commands, as a client on its
/// sending end and the receiving end for the actor to serve. The client
/// records the capacity; of the two ends themselves nothing is promised.
pub fn connect(capacity: usize) -> (ends: (TicketStoreClient, Receiver<Command>))
    ensures
        ends.0.capacity() == capacity,
{
    let (sender, receiver) = std::sync::mpsc::sync_channel(capacity);
    (TicketStoreClient { sender, capacity }, receiver)
}

impl TicketStoreClient {
    /// The capacity that the queue of this handle was made with.
    pub closed spec fn spec_capacity(&self) -> usize {
        self.capacity
    }

    /// The number of commands that the queue of this handle holds at most:
    /// the capacity it was made with.
    #[verifier::when_used_as_spec(spec_capacity)]
    pub fn capacity(&self) -> (capacity: usize)
        ensures
            capacity == self.capacity(),
    {
        self.capacity
    }

    /// Offers an insert to the queue without waiting. The request is
    /// refused exactly when the queue is full. The command offered is the
    /// one that `Command::insert` makes of `draft`; whether the queue takes
    /// it is up to the queue, and `after_offer` says what each outcome of
    /// the offer comes to.
    pub fn submit_insert(&self, draft: TicketDraft) -> (admitted: Result<
        PendingReply<TicketId>,
        OverloadedError,
    >) {
        let (command, response_receiver) = Command::insert(draft);
        let admission = offer(&self.sender, command);
        after_offer(admission, response_receiver)
    }

    /// Offers a lookup to the queue without waiting. The request is refused
    /// exactly when the queue is full. The command offered is the one that
    /// `Command::get` makes of `id`; whether the queue takes it is up to the
    /// queue, and `after_offer` says what each outcome of the offer comes
    /// to.
    pub fn submit_get(&self, id: TicketId) -> (admitted: Result<
        PendingReply<Option<Ticket>>,
        OverloadedError,
    >) {
        let (command, response_receiver) = Command::get(id);
        let admission = offer(&self.sender, command);
        after_offer(admission, response_receiver)
    }

    /// Has `draft` filed and returns the identifier issued for it. Fails at
    /// once when the queue is full; otherwise blocks until the actor has
    /// answered or is known to be gone. It is `submit_insert` followed by
    /// `wait`, and promises no more than they do.
    pub fn insert(&self, draft: TicketDraft) -> (outcome: Result<
        Result<TicketId, ActorUnavailable>,
        OverloadedError,
    >) {
        match self.submit_insert(draft) {
            Ok(pending) => Ok(pending.wait()),
            Err(overloaded) => Err(overloaded),
        }
    }

    /// Asks for the ticket filed under `id`; nothing found is an answer, not
    /// an error. Fails at once when the queue is full; otherwise blocks
    /// until the actor has answered or is known to be gone. It is
    /// `submit_get` followed by `wait`, and promises no more than they do.
    pub fn get(&self, id: TicketId) -> (outcome: Result<
        Result<Option<Ticket>, ActorUnavailable>,
        OverloadedError,
    >) {
        match self.submit_get(id) {
            Ok(pending) => Ok(pending.wait()),
            Err(overloaded) => Err(overloaded),
        }
    }
}

} // verus!
