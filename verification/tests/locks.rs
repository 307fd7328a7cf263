use ticket_store::data::{Status, Ticket, TicketDraft};
use ticket_store::locks::{SharedTicket, TicketStore};
use ticket_store::store::TicketId;

fn draft(title: &str, description: &str) -> TicketDraft {
    TicketDraft { title: title.to_string(), description: description.to_string() }
}

#[test]
fn shared_store_issues_identifiers_from_zero() {
    let mut store = TicketStore::new();
    assert_eq!(store.next_id(), 0);
    assert_eq!(store.add_ticket(draft("A", "")).value(), 0);
    assert_eq!(store.add_ticket(draft("B", "")).value(), 1);
    assert_eq!(store.add_ticket(draft("C", "")).value(), 2);
    assert_eq!(store.next_id(), 3);
}

#[test]
fn shared_store_finds_the_ticket_as_filed() {
    let mut store = TicketStore::new();
    let id = store.add_ticket(draft("Title", "Description"));
    let handle = store.get(id).unwrap();
    assert_eq!(handle.id(), id);
    assert_eq!(
        handle.snapshot(),
        Ticket {
            id: TicketId::new(0),
            title: "Title".to_string(),
            description: "Description".to_string(),
            status: Status::ToDo,
        }
    );
}

#[test]
fn shared_store_finds_nothing_under_an_unissued_identifier() {
    let mut store = TicketStore::new();
    store.add_ticket(draft("A", ""));
    assert!(store.get(TicketId::new(1)).is_none());
    assert!(store.get(TicketId::new(7)).is_none());
}

#[test]
fn edits_through_a_handle_reach_the_store() {
    let mut store = TicketStore::new();
    let id = store.add_ticket(draft("A", "old"));
    let handle = store.get(id).unwrap();
    let mut guard = handle.lock();
    guard.set_title("A2".to_string());
    guard.set_description("new".to_string());
    guard.set_status(Status::InProgress);
    assert_eq!(guard.ticket().title, "A2");
    guard.release();

    let seen = store.get(id).unwrap().snapshot();
    assert_eq!(seen.id, id);
    assert_eq!(seen.title, "A2");
    assert_eq!(seen.description, "new");
    assert_eq!(seen.status, Status::InProgress);
}

#[test]
fn locked_ticket_keeps_nobody_from_another() {
    let mut store = TicketStore::new();
    let a = store.add_ticket(draft("A", ""));
    let b = store.add_ticket(draft("B", ""));
    let handle_a = store.get(a).unwrap();
    let handle_b = store.get(b).unwrap();

    let mut guard_a = handle_a.lock();
    let mut guard_b = handle_b.lock();
    guard_a.set_status(Status::Done);
    guard_b.set_status(Status::InProgress);
    assert!(store.get(a).is_some());
    let c = store.add_ticket(draft("C", ""));
    assert_eq!(c.value(), 2);
    guard_b.release();
    assert_eq!(handle_b.snapshot().status, Status::InProgress);
    guard_a.release();

    assert_eq!(handle_a.snapshot().status, Status::Done);
    assert_eq!(handle_a.snapshot().title, "A");
    assert_eq!(handle_b.snapshot().title, "B");
}

#[test]
fn writes_to_one_ticket_apply_one_after_another() {
    let mut store = TicketStore::new();
    let id = store.add_ticket(draft("A", ""));
    let first = store.get(id).unwrap();
    let second = store.get(id).unwrap();

    let mut guard = first.lock();
    guard.set_title("first".to_string());
    guard.set_status(Status::InProgress);
    guard.release();

    let mut guard = second.lock();
    assert_eq!(guard.ticket().title, "first");
    guard.set_title("second".to_string());
    guard.set_status(Status::Done);
    guard.release();

    let seen = store.get(id).unwrap().snapshot();
    assert_eq!(seen.title, "second");
    assert_eq!(seen.status, Status::Done);
}

#[test]
fn handles_outlive_the_store() {
    let mut store = TicketStore::new();
    let id = store.add_ticket(draft("A", ""));
    let handle = store.get(id).unwrap();
    let copy = handle.clone();
    drop(store);
    let mut guard = handle.lock();
    guard.set_status(Status::Done);
    guard.release();
    assert_eq!(copy.snapshot().status, Status::Done);
    assert_eq!(copy.share().id(), id);
}

#[test]
fn new_cell_holds_the_ticket_given() {
    let ticket = Ticket::from_draft(TicketId::new(4), draft("T", "D"));
    let shared = SharedTicket::new(ticket.clone());
    assert_eq!(shared.id().value(), 4);
    assert_eq!(shared.snapshot(), ticket);
}

#[test]
fn many_readers_at_once() {
    let shared = SharedTicket::new(Ticket::from_draft(TicketId::new(0), draft("T", "")));
    let other = shared.share();
    assert_eq!(shared.snapshot(), other.snapshot());
    assert_eq!(shared.id(), other.id());
}

#[test]
fn cloned_store_leads_to_the_same_cells() {
    let mut store = TicketStore::new();
    let id = store.add_ticket(draft("A", ""));
    let mut copy = store.clone();
    assert_eq!(copy.next_id(), 1);

    let through_copy = copy.get(id).unwrap();
    let mut guard = through_copy.lock();
    guard.set_status(Status::Done);
    guard.release();
    assert_eq!(store.get(id).unwrap().snapshot().status, Status::Done);

    assert_eq!(copy.add_ticket(draft("B", "")).value(), 1);
    assert!(store.get(TicketId::new(1)).is_none());
    assert_eq!(store.next_id(), 1);
}

#[test]
fn guard_shows_the_ticket_under_edit() {
    let shared = SharedTicket::new(Ticket::from_draft(TicketId::new(2), draft("T", "D")));
    let mut guard = shared.lock();
    assert_eq!(guard.ticket().id, TicketId::new(2));
    assert_eq!(guard.ticket().status, Status::ToDo);
    guard.set_description("E".to_string());
    assert_eq!(guard.ticket().title, "T");
    assert_eq!(guard.ticket().description, "E");
    guard.release();
    assert_eq!(shared.snapshot().description, "E");
    assert_eq!(shared.snapshot().id, TicketId::new(2));
}
