use ticket_store::data::{TicketDraft, TicketStatus};
use ticket_store::store::{TicketId, TicketStore};

fn draft(title: &str, description: &str) -> TicketDraft {
    TicketDraft { title: String::from(title), description: String::from(description) }
}

#[test]
fn first_ids_are_sequential_and_distinct() {
    let mut store = TicketStore::new();
    let a = store.add_ticket(draft("A", "first"));
    let b = store.add_ticket(draft("B", "second"));
    let c = store.add_ticket(draft("C", "third"));
    assert_eq!(a, TicketId(1));
    assert_eq!(b, TicketId(2));
    assert_eq!(c, TicketId(3));
    assert!(a != b && b != c && a != c);
}

#[test]
fn round_trip_returns_the_draft_payload() {
    let mut store = TicketStore::new();
    let id = store.add_ticket(draft("A", "alpha"));
    let ticket = store.get(id).expect("an inserted record must be present");
    assert_eq!(ticket.id, id);
    assert_eq!(ticket.title, "A");
    assert_eq!(ticket.description, "alpha");
    assert_eq!(ticket.status, TicketStatus::ToDo);
}

#[test]
fn absent_ids_resolve_to_none() {
    let mut store = TicketStore::new();
    assert!(store.get(TicketId(1)).is_none());
    let id = store.add_ticket(draft("A", "alpha"));
    assert!(store.get(TicketId(0)).is_none());
    assert!(store.get(TicketId(999)).is_none());
    assert!(store.get(id).is_some());
}

#[test]
fn later_inserts_preserve_earlier_records() {
    let mut store = TicketStore::new();
    let a = store.add_ticket(draft("A", "alpha"));
    let b = store.add_ticket(draft("B", "beta"));
    let seen_a = store.get(a).expect("record A must survive the insert of B");
    assert_eq!(seen_a.title, "A");
    let seen_b = store.get(b).expect("record B must be present");
    assert_eq!(seen_b.title, "B");
}

#[test]
fn cloned_ticket_carries_the_same_fields() {
    let mut store = TicketStore::new();
    let id = store.add_ticket(draft("A", "alpha"));
    let ticket = store.get(id).expect("an inserted record must be present");
    let copy = ticket.clone();
    assert_eq!(copy.id, ticket.id);
    assert_eq!(copy.title, ticket.title);
    assert_eq!(copy.description, ticket.description);
    assert_eq!(copy.status, ticket.status);
}
