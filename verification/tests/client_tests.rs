use ticket_store::data::{TicketDraft, TicketStatus};
use ticket_store::store::TicketId;
use ticket_store::{launch, launch_with_join};
use vstd::*;

fn draft(title: &str, description: &str) -> TicketDraft {
    TicketDraft { title: String::from(title), description: String::from(description) }
}

#[test]
fn scenario_insert_get_and_absent() {
    let client = launch();
    let id = client.insert(draft("A", "alpha")).expect("the worker must reply");
    assert_eq!(id, TicketId(1));
    let found = client.get(TicketId(1)).expect("the worker must reply");
    let ticket = found.expect("the inserted record must be present");
    assert_eq!(ticket.title, "A");
    assert_eq!(ticket.description, "alpha");
    assert_eq!(ticket.status, TicketStatus::ToDo);
    let missing = client.get(TicketId(999)).expect("the worker must reply");
    assert!(missing.is_none());
}

#[test]
fn ids_are_unique_across_client_clones() {
    let client = launch();
    let clone = client.clone();
    let mut ids: Vec<u64> = Vec::new();
    for i in 0..10 {
        let c = if i % 2 == 0 { &client } else { &clone };
        ids.push(c.insert(draft("t", "d")).expect("the worker must reply").0);
    }
    ids.sort();
    for pair in ids.windows(2) {
        assert_ne!(pair[0], pair[1]);
    }
}

#[test]
fn acknowledged_insert_is_visible_to_a_later_caller() {
    let client = launch();
    let a = client.clone();
    let id_a = thread::spawn(move || -> TicketId {
        a.insert(draft("A", "alpha")).expect("the worker must answer the insert")
    })
    .join()
    .expect("caller thread A must complete");
    // A's insert is acknowledged; a get issued afterwards from another
    // thread must observe A's record.
    let b = client.clone();
    let title = thread::spawn(move || -> String {
        b.insert(draft("B", "beta")).expect("the worker must answer the insert");
        b.get(id_a)
            .expect("the worker must answer the get")
            .expect("no lost update: the earlier record must be visible")
            .title
    })
    .join()
    .expect("caller thread B must complete");
    assert_eq!(title, "A");
}

#[test]
fn concurrent_round_trips_all_complete() {
    let (client, worker) = launch_with_join();
    let mut handles = Vec::new();
    for _ in 0..8 {
        let c = client.clone();
        handles.push(thread::spawn(move || -> Vec<u64> {
            let mut ids: Vec<u64> = Vec::new();
            for _ in 0..25 {
                let id = c.insert(draft("t", "d")).expect("every insert must be answered");
                let got = c.get(id).expect("every get must be answered");
                assert!(got.is_some());
                ids.push(id.0);
            }
            ids
        }));
    }
    let mut all: Vec<u64> = Vec::new();
    for handle in handles {
        let ids = handle.join().expect("every caller thread must complete");
        all.extend(ids);
    }
    assert_eq!(all.len(), 200);
    all.sort();
    for pair in all.windows(2) {
        assert_ne!(pair[0], pair[1]);
    }
    drop(client);
    worker.join().expect("the worker must shut down cleanly");
}

#[test]
fn dropping_every_client_shuts_the_worker_down() {
    let (client, worker) = launch_with_join();
    let clone = client.clone();
    let id = client.insert(draft("A", "alpha")).expect("the worker must reply");
    assert_eq!(id, TicketId(1));
    drop(client);
    drop(clone);
    worker.join().expect("the worker must terminate without panicking");
}
