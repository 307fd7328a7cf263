//! The second actor: every command carries the channel on which its answer
//! goes back, so a client learns the identifier of what it inserted and can
//! ask for a ticket by identifier.

use crate::actor::{lemma_run_keeps_wf, run, ActorState, Answer, Request, COMMAND_BUDGET};
use crate::data::{Ticket, TicketDraft};
use crate::store::{StoreModel, TicketId, TicketStore};
use std::sync::mpsc::{Receiver, RecvError, Sender};
use vstd::prelude::*;

verus! {

/// A request to the actor, with the channel for its answer.
#[allow(inconsistent_fields)]
pub enum Command {
    Insert { draft: TicketDraft, response_sender: Sender<TicketId> },
    Get { id: TicketId, response_sender: Sender<Option<Ticket>> },
}

/// An answer on its way: the value, and the channel of the command that
/// asked for it.
#[allow(inconsistent_fields)]
pub enum Reply {
    Inserted { id: TicketId, response_sender: Sender<TicketId> },
    Found { ticket: Option<Ticket>, response_sender: Sender<Option<Ticket>> },
}

impl View for Command {
    type V = Request;

    open spec fn view(&self) -> Request {
        match *self {
            Command::Insert { draft, .. } => Request::Insert(draft@),
            Command::Get { id, .. } => Request::Get(id@),
        }
    }
}

impl Command {
    /// Whether `reply` goes down the channel that this command brought.
    pub open spec fn is_answered_on(self, reply: Reply) -> bool {
        match (self, reply) {
            (Command::Insert { response_sender: asked, .. }, Reply::Inserted { response_sender, .. }) => {
                asked == response_sender
            },
            (Command::Get { response_sender: asked, .. }, Reply::Found { response_sender, .. }) => {
                asked == response_sender
            },
            _ => false,
        }
    }

    /// Executes the command on `store` and returns the answer, addressed to
    /// the command's own channel.
    pub fn execute(self, store: &mut TicketStore) -> (reply: Reply)
        requires
            old(store)@.wf(),
            self@.fits(old(store)@),
        ensures
            final(store)@.wf(),
            final(store)@ == self@.effect(old(store)@),
            reply@ == self@.answer(old(store)@),
            self.is_answered_on(reply),
    {
        match self {
            Command::Insert { draft, response_sender } => {
                let id = store.add_ticket(draft);
                Reply::Inserted { id, response_sender }
            },
            Command::Get { id, response_sender } => {
                let ticket = store.get_cloned(id);
                Reply::Found { ticket, response_sender }
            },
        }
    }
}

impl View for Reply {
    type V = Answer;

    open spec fn view(&self) -> Answer {
        match *self {
            Reply::Inserted { id, .. } => Answer::Inserted(id@),
            Reply::Found { ticket, .. } => Answer::Found(
                match ticket {
                    Some(ticket) => Some(ticket@),
                    None => None,
                },
            ),
        }
    }
}

impl Reply {
    /// Sends the answer down its channel, once, and tells whether the
    /// channel took it. It does not when the client has stopped listening;
    /// the answer is then dropped. Whether it listens is up to the client,
    /// so nothing is promised of the result.
    pub fn deliver(self) -> (delivered: bool) {
        match self {
            Reply::Inserted { id, response_sender } => response_sender.send(id).is_ok(),
            Reply::Found { ticket, response_sender } => response_sender.send(ticket).is_ok(),
        }
    }
}

/// One turn of the actor: executes the command that the queue handed over
/// and sends its answer, or stops when the queue reported that every sender
/// is gone. An answer that nobody takes is dropped. The store changes as
/// the command says and in no other way.
pub fn step(store: &mut TicketStore, received: Result<Command, RecvError>) -> (state: ActorState)
    requires
        old(store)@.wf(),
        received matches Ok(command) ==> command@.fits(old(store)@),
    ensures
        final(store)@.wf(),
        match received {
            Ok(command) => state == ActorState::Running && final(store)@ == command@.effect(
                old(store)@,
            ),
            Err(_) => state == ActorState::Stopped && final(store)@ == old(store)@,
        },
{
    match received {
        Ok(command) => {
            let reply = command.execute(store);
            reply.deliver();
            ActorState::Running
        },
        Err(_) => ActorState::Stopped,
    }
}

/// The actor. Starts on an empty store and serves the commands of
/// `receiver` one at a time, in the order they arrive, until the queue
/// reports that every sender is gone or the command budget is spent. At
/// every turn its store is what serving the requests so far, in that order,
/// makes of an empty store.
pub fn server(receiver: Receiver<Command>) {
    let mut store = TicketStore::new();
    let mut served: u64 = 0;
    let ghost mut log: Seq<Request> = Seq::empty();
    while served < COMMAND_BUDGET
        invariant
            log.len() == served,
            store@ == run(StoreModel::empty(), log),
        decreases COMMAND_BUDGET - served,
    {
        proof {
            lemma_run_keeps_wf(StoreModel::empty(), log);
        }
        let received = receiver.recv();
        let ghost asked = received;
        match step(&mut store, received) {
            ActorState::Running => {
                proof {
                    let request = asked->Ok_0@;
                    assert(log.push(request).drop_last() =~= log);
                    log = log.push(request);
                }
                served = served + 1;
            },
            ActorState::Stopped => {
                return ;
            },
        }
    }
}

} // verus!
