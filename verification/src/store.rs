use crate::data::{DraftView, Ticket, TicketDraft, TicketStatus, TicketView};
use vstd::prelude::*;

verus! {

/// An identifier assigned by the store. Ids are never reused while the store
/// lives: the first insert returns 1, the next 2, and so on.
#[derive(Clone, Copy, Debug, PartialEq, Eq, Hash, Structural)]
pub struct TicketId(pub u64);

/// The record a draft becomes when the store assigns it `id`.
pub open spec fn ticket_of(d: DraftView, id: u64) -> TicketView {
    TicketView { id: id, title: d.title, description: d.description, status: TicketStatus::ToDo }
}

/// The id the next insert returns on a store whose records are `s`.
pub open spec fn next_id(s: Seq<TicketView>) -> u64
    recommends
        s.len() < u64::MAX,
{
    (s.len() + 1) as u64
}

/// The records after inserting draft `d`.
pub open spec fn store_insert(s: Seq<TicketView>, d: DraftView) -> Seq<TicketView> {
    s.push(ticket_of(d, next_id(s)))
}

/// What looking up `id` yields on a store whose records are `s`: the record
/// that insert number `id` created, or nothing. An unknown id is not an
/// error, it is an absent record.
pub open spec fn store_lookup(s: Seq<TicketView>, id: u64) -> Option<TicketView> {
    if 1 <= id && id <= s.len() {
        Some(s[id - 1])
    } else {
        None
    }
}

/// Record number `i` carries id `i + 1`: ids were assigned in insertion order.
pub open spec fn ids_sequential(s: Seq<TicketView>) -> bool {
    forall|i: int| 0 <= i < s.len() ==> (#[trigger] s[i]).id == i + 1
}

/// Owns every record exclusively. It has no synchronization of its own and
/// relies on a single thread (the worker) being the only caller.
pub struct TicketStore {
    tickets: Vec<Ticket>,
    counter: u64,
}

impl View for TicketStore {
    type V = Seq<TicketView>;

    closed spec fn view(&self) -> Seq<TicketView> {
        self.tickets@.map_values(|t: Ticket| t@)
    }
}

impl TicketStore {
    /// The id counter mirrors the record count, and ids were assigned in
    /// insertion order. Every operation preserves this.
    pub closed spec fn wf(&self) -> bool {
        &&& self.counter as int == self.tickets@.len()
        &&& ids_sequential(self@)
    }

    /// A well-formed store assigned its ids in insertion order.
    pub proof fn lemma_wf_ids(&self)
        requires
            self.wf(),
        ensures
            ids_sequential(self@),
    {
    }

    /// A store with no records; the first issued id will be 1.
    pub fn new() -> (s: Self)
        ensures
            s.wf(),
            s@ =~= Seq::<TicketView>::empty(),
    {
        let s = TicketStore { tickets: Vec::new(), counter: 0 };
        proof {
            assert(s@ =~= Seq::<TicketView>::empty());
        }
        s
    }

    /// How many records the store holds, which equals the number of inserts
    /// served so far.
    pub fn ticket_count(&self) -> (n: u64)
        requires
            self.wf(),
        ensures
            n as int == self@.len(),
    {
        self.counter
    }

    /// Creates the record for `draft`, assigns it the next id, and returns
    /// that id. The id is fresh: it resolved to nothing before this call.
    pub fn add_ticket(&mut self, draft: TicketDraft) -> (id: TicketId)
        requires
            old(self).wf(),
            old(self)@.len() < u64::MAX,
        ensures
            final(self).wf(),
            id.0 == next_id(old(self)@),
            final(self)@ =~= store_insert(old(self)@, draft@),
            store_lookup(old(self)@, id.0) is None,
            store_lookup(final(self)@, id.0) == Some(ticket_of(draft@, id.0)),
    {
        let ghost d_view = draft@;
        let id = TicketId(self.counter + 1);
        let ticket = Ticket {
            id,
            title: draft.title,
            description: draft.description,
            status: TicketStatus::ToDo,
        };
        let ghost t_view = ticket@;
        self.tickets.push(ticket);
        self.counter = self.counter + 1;
        proof {
            assert(t_view == ticket_of(d_view, id.0));
            assert(self@ =~= old(self)@.push(t_view));
            assert(self@[self@.len() - 1] == t_view);
            assert(ids_sequential(self@)) by {
                assert forall|i: int| 0 <= i < self@.len() implies (#[trigger] self@[i]).id == i
                    + 1 by {
                    if i < self@.len() - 1 {
                        assert(self@[i] == old(self)@[i]);
                    }
                }
            }
        }
        id
    }

    /// Looks up a record by id, returning a borrow of it, or nothing when the
    /// store never issued `id`.
    pub fn get(&self, id: TicketId) -> (r: Option<&Ticket>)
        requires
            self.wf(),
        ensures
            match r {
                Some(t) => store_lookup(self@, id.0) == Some(t@),
                None => store_lookup(self@, id.0) is None,
            },
    {
        let n: usize = self.tickets.len();
        if 1 <= id.0 && id.0 <= n as u64 {
            let idx: usize = (id.0 - 1) as usize;
            Some(&self.tickets[idx])
        } else {
            None
        }
    }
}

/// Uniqueness: on a store whose ids were assigned in insertion order, any two
/// distinct records carry distinct ids, so the ids returned by any sequence
/// of inserts are pairwise distinct for the lifetime of the store.
pub proof fn lemma_ids_pairwise_distinct(s: Seq<TicketView>)
    requires
        ids_sequential(s),
    ensures
        forall|i: int, j: int|
            0 <= i < s.len() && 0 <= j < s.len() && i != j ==> (#[trigger] s[i]).id != (
            #[trigger] s[j]).id,
{
}

/// Freshness: the id the next insert will return resolves to nothing yet.
pub proof fn lemma_next_id_fresh(s: Seq<TicketView>)
    requires
        s.len() < u64::MAX,
    ensures
        store_lookup(s, next_id(s)) is None,
{
}

/// Round trip: after inserting a draft, looking up the returned id yields a
/// record whose payload equals the draft's payload.
pub proof fn lemma_insert_round_trip(s: Seq<TicketView>, d: DraftView)
    requires
        s.len() < u64::MAX,
    ensures
        store_lookup(store_insert(s, d), next_id(s)) == Some(ticket_of(d, next_id(s))),
        ticket_of(d, next_id(s)).title == d.title,
        ticket_of(d, next_id(s)).description == d.description,
{
    assert(store_insert(s, d)[s.len() as int] == ticket_of(d, next_id(s)));
}

/// Stability: an insert changes what no other id resolves to. In particular,
/// once an insert has returned an id, every later insert leaves the record
/// behind that id in place: there is no lost update.
pub proof fn lemma_insert_preserves_lookup(s: Seq<TicketView>, d: DraftView, id: u64)
    requires
        s.len() < u64::MAX,
        id != next_id(s),
    ensures
        store_lookup(store_insert(s, d), id) == store_lookup(s, id),
{
    if 1 <= id && id <= s.len() {
        assert(store_insert(s, d)[id - 1] == s[id - 1]);
    }
}

/// Absence: an id that no record of the store carries resolves to nothing.
/// With ids assigned in insertion order, the ids insert ever returned are
/// exactly the ids carried by records, so any id never returned resolves to
/// `None`.
pub proof fn lemma_lookup_absent(s: Seq<TicketView>, id: u64)
    requires
        ids_sequential(s),
        forall|i: int| 0 <= i < s.len() ==> (#[trigger] s[i]).id != id,
    ensures
        store_lookup(s, id) is None,
{
    if 1 <= id && id <= s.len() {
        assert(s[id - 1].id == id);
        assert(false);
    }
}

/// Inserting into a store whose ids were assigned in insertion order yields
/// a store whose ids were assigned in insertion order.
pub proof fn lemma_insert_ids_sequential(s: Seq<TicketView>, d: DraftView)
    requires
        ids_sequential(s),
        s.len() < u64::MAX,
    ensures
        ids_sequential(store_insert(s, d)),
{
    let s2 = store_insert(s, d);
    assert forall|i: int| 0 <= i < s2.len() implies (#[trigger] s2[i]).id == i + 1 by {
        if i < s.len() {
            assert(s2[i] == s[i]);
        } else {
            assert(s2[i] == ticket_of(d, next_id(s)));
        }
    }
}

} // verus!
