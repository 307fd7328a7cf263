//! The plain data that travels between clients and the store.

use crate::store::TicketId;
use vstd::prelude::*;

verus! {

/// How far along a ticket is.
#[derive(Clone, Copy, Debug, PartialEq, Eq, Structural)]
pub enum Status {
    ToDo,
    InProgress,
    Done,
}

/// What a caller hands in to have a ticket created.
#[derive(Debug, PartialEq, Eq)]
pub struct TicketDraft {
    pub title: String,
    pub description: String,
}

/// A draft as contracts see it.
pub struct TicketDraftView {
    pub title: Seq<char>,
    pub description: Seq<char>,
}

impl View for TicketDraft {
    type V = TicketDraftView;

    open spec fn view(&self) -> TicketDraftView {
        TicketDraftView { title: self.title@, description: self.description@ }
    }
}

/// A ticket as a store holds it.
#[derive(Debug, PartialEq, Eq)]
pub struct Ticket {
    pub id: TicketId,
    pub title: String,
    pub description: String,
    pub status: Status,
}

/// A ticket as contracts see it.
pub struct TicketView {
    pub id: u64,
    pub title: Seq<char>,
    pub description: Seq<char>,
    pub status: Status,
}

impl View for Ticket {
    type V = TicketView;

    open spec fn view(&self) -> TicketView {
        TicketView {
            id: self.id@,
            title: self.title@,
            description: self.description@,
            status: self.status,
        }
    }
}

impl TicketDraftView {
    /// The ticket that a store creates from this draft under the number `id`:
    /// the draft's texts, not yet started.
    pub open spec fn filed_as(self, id: u64) -> TicketView {
        TicketView { id, title: self.title, description: self.description, status: Status::ToDo }
    }
}

impl Ticket {
    /// Files `draft` under `id`.
    pub fn from_draft(id: TicketId, draft: TicketDraft) -> (ticket: Ticket)
        ensures
            ticket@ == draft@.filed_as(id@),
    {
        Ticket { id, title: draft.title, description: draft.description, status: Status::ToDo }
    }
}

impl Clone for TicketDraft {
    fn clone(&self) -> (copy: TicketDraft)
        ensures
            copy@ == self@,
    {
        TicketDraft { title: self.title.clone(), description: self.description.clone() }
    }
}

impl Clone for Ticket {
    fn clone(&self) -> (copy: Ticket)
        ensures
            copy@ == self@,
    {
        Ticket {
            id: self.id,
            title: self.title.clone(),
            description: self.description.clone(),
            status: self.status,
        }
    }
}

} // verus!
