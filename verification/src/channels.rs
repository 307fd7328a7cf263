//! The first actor: clients send inserts and hear nothing back.

use crate::actor::{lemma_run_keeps_wf, run, ActorState, Request, COMMAND_BUDGET};
use crate::data::TicketDraft;
use crate::store::{StoreModel, TicketStore};
use std::sync::mpsc::{Receiver, RecvError};
use vstd::prelude::*;

verus! {

/// A request to the actor.
pub enum Command {
    Insert(TicketDraft),
}

impl View for Command {
    type V = Request;

    open spec fn view(&self) -> Request {
        match *self {
            Command::Insert(draft) => Request::Insert(draft@),
        }
    }
}

/// One turn of the actor: executes the command that the queue handed over,
/// or stops when the queue reported that every sender is gone. The store
/// changes as the command says and in no other way.
pub fn step(store: &mut TicketStore, received: Result<Command, RecvError>) -> (state: ActorState)
    requires
        old(store)@.wf(),
        received matches Ok(command) ==> command@.fits(old(store)@),
    ensures
        final(store)@.wf(),
        match received {
            Ok(command) => state == ActorState::Running && final(store)@ == command@.effect(
                old(store)@,
            ),
            Err(_) => state == ActorState::Stopped && final(store)@ == old(store)@,
        },
{
    match received {
        Ok(Command::Insert(draft)) => {
            store.add_ticket(draft);
            ActorState::Running
        },
        Err(_) => ActorState::Stopped,
    }
}

/// The actor. Starts on an empty store and serves the commands of
/// `receiver` one at a time, in the order they arrive, until the queue
/// reports that every sender is gone or the command budget is spent. At
/// every turn its store is what serving the requests so far, in that order,
/// makes of an empty store.
pub fn server(receiver: Receiver<Command>) {
    let mut store = TicketStore::new();
    let mut served: u64 = 0;
    let ghost mut log: Seq<Request> = Seq::empty();
    while served < COMMAND_BUDGET
        invariant
            log.len() == served,
            store@ == run(StoreModel::empty(), log),
        decreases COMMAND_BUDGET - served,
    {
        proof {
            lemma_run_keeps_wf(StoreModel::empty(), log);
        }
        let received = receiver.recv();
        let ghost asked = received;
        match step(&mut store, received) {
            ActorState::Running => {
                proof {
                    let request = asked->Ok_0@;
                    assert(log.push(request).drop_last() =~= log);
                    log = log.push(request);
                }
                served = served + 1;
            },
            ActorState::Stopped => {
                return ;
            },
        }
    }
}

} // verus!
