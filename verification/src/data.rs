use crate::store::TicketId;
use vstd::prelude::*;

verus! {

/// What a caller hands in to create a ticket: the payload before the store
/// has assigned an id. Field-level validation is the caller's business.
pub struct TicketDraft {
    pub title: String,
    pub description: String,
}

/// A draft's payload as mathematical values.
pub struct DraftView {
    pub title: Seq<char>,
    pub description: Seq<char>,
}

impl View for TicketDraft {
    type V = DraftView;

    open spec fn view(&self) -> DraftView {
        DraftView { title: self.title@, description: self.description@ }
    }
}

/// Workflow state of a stored ticket. Every freshly inserted ticket starts
/// as `ToDo`.
#[derive(Clone, Copy, Debug, PartialEq, Eq, Structural)]
pub enum TicketStatus {
    ToDo,
    InProgress,
    Done,
}

/// A stored record: a draft's payload plus the id the store assigned.
/// Immutable once created; callers only ever see copies of it.
pub struct Ticket {
    pub id: TicketId,
    pub title: String,
    pub description: String,
    pub status: TicketStatus,
}

/// A stored record as mathematical values.
pub struct TicketView {
    pub id: u64,
    pub title: Seq<char>,
    pub description: Seq<char>,
    pub status: TicketStatus,
}

impl View for Ticket {
    type V = TicketView;

    open spec fn view(&self) -> TicketView {
        TicketView {
            id: self.id.0,
            title: self.title@,
            description: self.description@,
            status: self.status,
        }
    }
}

impl Clone for Ticket {
    /// The copy carries the same id, payload and status.
    fn clone(&self) -> (r: Self)
        ensures
            r@ == self@,
    {
        Ticket {
            id: self.id,
            title: self.title.clone(),
            description: self.description.clone(),
            status: self.status,
        }
    }
}

impl Clone for TicketDraft {
    /// The copy carries the same payload.
    fn clone(&self) -> (r: Self)
        ensures
            r@ == self@,
    {
        TicketDraft { title: self.title.clone(), description: self.description.clone() }
    }
}

} // verus!
