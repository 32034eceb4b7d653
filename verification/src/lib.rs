//! A store fronted by a message-passing actor: a background worker thread
//! exclusively owns the mutable [`store::TicketStore`]; every other thread
//! holds a cheaply cloneable [`TicketStoreClient`] and talks to the worker
//! only by sending a command and blocking on a one-shot reply channel. The
//! worker serves commands strictly in arrival order, which linearizes all
//! mutation without a lock: who may mutate is a structural fact, not a
//! runtime discipline.

mod channels;
pub mod data;
pub mod store;
pub mod sync_notes;

use vstd::prelude::*;
use vstd::*;

pub use crate::sync_notes::outro;

use crate::data::{Ticket, TicketDraft};
use crate::store::{TicketId, TicketStore};

verus! {

/// Why a client call could not be served. Either case is final for that call:
/// the client never retries, and a caller wanting resilience must add its own
/// policy on top.
#[derive(Clone, Copy, Debug, PartialEq, Eq, Structural)]
pub enum ClientError {
    /// The request could not be sent: the worker has already terminated.
    WorkerUnavailable,
    /// The request was sent, but the reply channel closed without a value.
    NoReply,
}

/// A request to the worker. Each variant carries the sending half of a
/// dedicated one-shot reply channel, so replies never need to be correlated
/// and no caller can see another caller's result.
#[allow(inconsistent_fields)]
enum Command {
    Insert { draft: TicketDraft, response_channel: std::sync::mpsc::Sender<TicketId> },
    Get { id: TicketId, response_channel: std::sync::mpsc::Sender<Option<Ticket>> },
}

/// The cloneable front end. Every clone shares the same request sender, so
/// arbitrarily many threads may issue calls concurrently; the worker still
/// executes them one at a time, in the order they were enqueued. A client
/// holds no reference to the store itself.
#[derive(Clone)]
pub struct TicketStoreClient {
    request_sender: std::sync::mpsc::Sender<Command>,
}

impl TicketStoreClient {
    /// Asks the worker to insert `draft` and blocks for the assigned id.
    ///
    /// The id arrives over a channel, so this contract cannot pin its value;
    /// what the worker sends is the result of [`TicketStore::add_ticket`],
    /// whose contract does: a fresh id, one past the number of records the
    /// store held, under which the draft's payload is then found.
    pub fn insert(&self, draft: TicketDraft) -> (r: Result<TicketId, ClientError>) {
        let (response_channel, response_receiver) = std::sync::mpsc::channel::<TicketId>();
        let sent = self.request_sender.send(
            Command::Insert { draft, response_channel },
        );
        match sent {
            Ok(_) => {},
            Err(_) => {
                return Err(ClientError::WorkerUnavailable);
            },
        }
        reply_to_result(response_receiver.recv())
    }

    /// Asks the worker to look up `id` and blocks for the result: a copy of
    /// the record, or `None` when the store never issued `id`. An absent
    /// record is a normal answer, not an error.
    ///
    /// The value arrives over a channel, so this contract cannot pin it; what
    /// the worker sends is the result of [`TicketStore::get`], whose contract
    /// does.
    pub fn get(&self, id: TicketId) -> (r: Result<Option<Ticket>, ClientError>) {
        let (response_channel, response_receiver) = std::sync::mpsc::channel::<
            Option<Ticket>,
        >();
        let sent = self.request_sender.send(Command::Get { id, response_channel });
        match sent {
            Ok(_) => {},
            Err(_) => {
                return Err(ClientError::WorkerUnavailable);
            },
        }
        reply_to_result(response_receiver.recv())
    }
}

/// Turns a reply-channel outcome into the call's result: a received value is
/// returned as it arrived, and a reply channel that closed without a value
/// (the worker died before replying) becomes `NoReply`.
fn reply_to_result<T>(reply: Result<T, std::sync::mpsc::RecvError>) -> (r: Result<
    T,
    ClientError,
>)
    ensures
        match reply {
            Ok(v) => r == Ok::<T, ClientError>(v),
            Err(_) => r == Err::<T, ClientError>(ClientError::NoReply),
        },
{
    match reply {
        Ok(v) => Ok(v),
        Err(_) => Err(ClientError::NoReply),
    }
}

/// Starts a worker thread that owns a fresh, empty store and returns a client
/// for it together with the worker's join handle. Joining returns once the
/// last client clone has been dropped and the worker has shut down, which
/// gives tests a deterministic teardown.
pub fn launch_with_join() -> (r: (TicketStoreClient, thread::JoinHandle<()>)) {
    let (sender, receiver) = std::sync::mpsc::channel::<Command>();
    let handle = thread::spawn(
        move || {
            server(receiver);
        },
    );
    (TicketStoreClient { request_sender: sender }, handle)
}

/// Starts a worker thread bound to a fresh, empty store and returns a client
/// for it. The worker runs detached and terminates on its own when the last
/// client clone is dropped. Each call launches one independent store.
pub fn launch() -> (client: TicketStoreClient) {
    let (client, _handle) = launch_with_join();
    client
}

/// The worker loop. It holds the sole receiving end of the request channel
/// and exclusive ownership of the store, serves commands strictly in arrival
/// order, and replies on each command's own channel. A failed reply send
/// means that caller gave up; the worker carries on. When every client clone
/// is gone the receive fails, and the worker exits, dropping the store: the
/// one normal shutdown path.
///
/// The loop carries a budget of `u64::MAX` commands so that it provably
/// terminates; a worker serving one command per nanosecond would need more
/// than five hundred years to spend it. A worker whose budget is spent stops
/// serving, as if its clients were gone.
fn server(receiver: std::sync::mpsc::Receiver<Command>) {
    let mut store = TicketStore::new();
    let mut budget: u64 = u64::MAX;
    while budget > 0
        invariant
            store.wf(),
        decreases budget,
    {
        budget = budget - 1;
        let next = receiver.recv();
        match next {
            Ok(command) => {
                match command {
                    Command::Insert { draft, response_channel } => {
                        if store.ticket_count() < u64::MAX {
                            let id = store.add_ticket(draft);
                            let _ = response_channel.send(id);
                        }
                        // with the id space exhausted no fresh id exists;
                        // dropping the reply channel lets the caller fail
                    },
                    Command::Get { id, response_channel } => {
                        let found = match store.get(id) {
                            Some(ticket) => Some(ticket.clone()),
                            None => None,
                        };
                        let _ = response_channel.send(found);
                    },
                }
            },
            Err(_) => {
                break;
            },
        }
    }
}

} // verus!
