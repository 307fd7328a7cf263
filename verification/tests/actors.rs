use std::sync::mpsc::{channel, RecvError};
use ticket_store::ack;
use ticket_store::actor::ActorState;
use ticket_store::channels;
use ticket_store::data::{Status, TicketDraft};
use ticket_store::store::{TicketId, TicketStore};

fn draft(title: &str, description: &str) -> TicketDraft {
    TicketDraft { title: title.to_string(), description: description.to_string() }
}

#[test]
fn insert_only_actor_stops_when_senders_are_gone() {
    let (sender, receiver) = channel();
    sender.send(channels::Command::Insert(draft("A", ""))).unwrap();
    sender.send(channels::Command::Insert(draft("B", ""))).unwrap();
    drop(sender);
    channels::server(receiver);
}

#[test]
fn insert_only_actor_stops_on_an_empty_closed_queue() {
    let (sender, receiver) = channel::<channels::Command>();
    drop(sender);
    channels::server(receiver);
}

#[test]
fn insert_only_step_files_the_draft() {
    let mut store = TicketStore::new();
    let state = channels::step(&mut store, Ok(channels::Command::Insert(draft("A", "a"))));
    assert_eq!(state, ActorState::Running);
    assert_eq!(store.next_id(), 1);
    assert_eq!(store.get(TicketId::new(0)).unwrap().title, "A");
    let state = channels::step(&mut store, Err(RecvError));
    assert_eq!(state, ActorState::Stopped);
    assert_eq!(store.next_id(), 1);
}

#[test]
fn acknowledging_actor_answers_in_arrival_order() {
    let (sender, receiver) = channel();
    let (first_reply, first) = channel();
    let (second_reply, second) = channel();
    let (found_reply, found) = channel();
    let (missing_reply, missing) = channel();
    sender.send(ack::Command::Insert { draft: draft("A", ""), response_sender: first_reply }).unwrap();
    sender.send(ack::Command::Insert { draft: draft("B", ""), response_sender: second_reply }).unwrap();
    sender.send(ack::Command::Get { id: TicketId::new(0), response_sender: found_reply }).unwrap();
    sender.send(ack::Command::Get { id: TicketId::new(7), response_sender: missing_reply }).unwrap();
    drop(sender);

    ack::server(receiver);

    assert_eq!(first.recv().unwrap(), TicketId::new(0));
    assert_eq!(second.recv().unwrap(), TicketId::new(1));
    let ticket = found.recv().unwrap().unwrap();
    assert_eq!(ticket.id, TicketId::new(0));
    assert_eq!(ticket.title, "A");
    assert_eq!(ticket.description, "");
    assert_eq!(ticket.status, Status::ToDo);
    assert_eq!(missing.recv().unwrap(), None);
    assert!(first.recv().is_err());
}

#[test]
fn acknowledging_actor_does_not_see_a_ticket_before_its_insert() {
    let (sender, receiver) = channel();
    let (early_reply, early) = channel();
    let (insert_reply, inserted) = channel();
    let (late_reply, late) = channel();
    sender.send(ack::Command::Get { id: TicketId::new(0), response_sender: early_reply }).unwrap();
    sender.send(ack::Command::Insert { draft: draft("A", "x"), response_sender: insert_reply }).unwrap();
    sender.send(ack::Command::Get { id: TicketId::new(0), response_sender: late_reply }).unwrap();
    drop(sender);

    ack::server(receiver);

    assert_eq!(early.recv().unwrap(), None);
    assert_eq!(inserted.recv().unwrap().value(), 0);
    assert_eq!(late.recv().unwrap().unwrap().description, "x");
}

#[test]
fn acknowledging_actor_ignores_a_client_that_gave_up() {
    let (sender, receiver) = channel();
    let (abandoned_reply, abandoned) = channel();
    let (kept_reply, kept) = channel();
    sender.send(ack::Command::Insert { draft: draft("A", ""), response_sender: abandoned_reply }).unwrap();
    sender.send(ack::Command::Insert { draft: draft("B", ""), response_sender: kept_reply }).unwrap();
    drop(abandoned);
    drop(sender);

    ack::server(receiver);

    assert_eq!(kept.recv().unwrap().value(), 1);
}

#[test]
fn acknowledging_execute_builds_the_answer() {
    let mut store = TicketStore::new();
    let (reply_to, replies) = channel();
    let command = ack::Command::Insert { draft: draft("A", ""), response_sender: reply_to };
    let reply = command.execute(&mut store);
    match &reply {
        ack::Reply::Inserted { id, .. } => assert_eq!(id.value(), 0),
        ack::Reply::Found { .. } => panic!("an insert is answered with an identifier"),
    }
    assert!(replies.try_recv().is_err());
    assert!(reply.deliver());
    assert_eq!(replies.recv().unwrap().value(), 0);

    let (reply_to, replies) = channel();
    let command = ack::Command::Get { id: TicketId::new(0), response_sender: reply_to };
    let reply = command.execute(&mut store);
    drop(replies);
    assert!(!reply.deliver());
    assert_eq!(store.next_id(), 1);
}

#[test]
fn acknowledging_step_stops_on_a_closed_queue() {
    let mut store = TicketStore::new();
    let (reply_to, replies) = channel();
    let running = ack::step(
        &mut store,
        Ok(ack::Command::Insert { draft: draft("A", ""), response_sender: reply_to }),
    );
    assert_eq!(running, ActorState::Running);
    assert_eq!(replies.recv().unwrap().value(), 0);
    assert_eq!(ack::step(&mut store, Err(RecvError)), ActorState::Stopped);
    assert_eq!(store.next_id(), 1);
}
