//! The ticket store: an in-memory list in which a ticket's id is its place.
//!
//! A deleted ticket leaves its place empty, so ids are never handed out
//! twice.

use vstd::prelude::*;
use vstd::string::*;
use crate::ctx::Ctx;
use crate::error::Error;

verus! {

/// A ticket as the store holds it.
#[derive(Debug, Clone)]
pub struct Ticket {
    pub id: u64,
    pub creator_user_id: u64,
    pub title: String,
}

/// What a caller gives to have a ticket created.
#[derive(Debug, Clone)]
pub struct TicketToCreate {
    pub title: String,
}

/// A ticket as plain values.
pub struct TicketView {
    pub id: u64,
    pub creator_user_id: u64,
    pub title: Seq<char>,
}

impl View for Ticket {
    type V = TicketView;

    open spec fn view(&self) -> TicketView {
        TicketView { id: self.id, creator_user_id: self.creator_user_id, title: self.title@ }
    }
}

impl View for TicketToCreate {
    type V = Seq<char>;

    open spec fn view(&self) -> Seq<char> {
        self.title@
    }
}

/// One place of the store as plain values.
pub open spec fn slot_view(slot: Option<Ticket>) -> Option<TicketView> {
    match slot {
        None => None,
        Some(ticket) => Some(ticket@),
    }
}

/// A list of tickets as plain values.
pub open spec fn tickets_view(tickets: Seq<Ticket>) -> Seq<TicketView> {
    Seq::new(tickets.len(), |i: int| tickets[i]@)
}

/// The tickets that a store still holds, in the order of their ids.
pub open spec fn live_tickets(slots: Seq<Option<TicketView>>) -> Seq<TicketView>
    decreases slots.len(),
{
    if slots.len() == 0 {
        Seq::empty()
    } else {
        match slots.last() {
            None => live_tickets(slots.drop_last()),
            Some(ticket) => live_tickets(slots.drop_last()).push(ticket),
        }
    }
}

/// True if the place `id` of the store holds a ticket.
pub open spec fn holds(slots: Seq<Option<TicketView>>, id: u64) -> bool {
    id < slots.len() && slots[id as int] is Some
}

/// True if every ticket of the store stands at the place of its id.
pub open spec fn ids_are_places(slots: Seq<Option<TicketView>>) -> bool {
    forall|i: int| 0 <= i < slots.len() && (#[trigger] slots[i]) is Some ==> slots[i]->0.id == i
}

/// The ticket store.
pub struct ModelController {
    tickets_store: Vec<Option<Ticket>>,
}

impl View for ModelController {
    type V = Seq<Option<TicketView>>;

    closed spec fn view(&self) -> Seq<Option<TicketView>> {
        Seq::new(self.tickets_store@.len(), |i: int| slot_view(self.tickets_store@[i]))
    }
}

/// A copy of a ticket.
fn copy_ticket(ticket: &Ticket) -> (copy: Ticket)
    ensures
        copy@ == ticket@,
{
    Ticket {
        id: ticket.id,
        creator_user_id: ticket.creator_user_id,
        title: ticket.title.clone(),
    }
}

impl ModelController {
    /// True if every ticket stands at the place of its id. `new` makes such
    /// a store, and every method keeps it so.
    pub open spec fn well_formed(&self) -> bool {
        ids_are_places(self@)
    }

    /// An empty store.
    pub fn new() -> (r: Result<ModelController, Error>)
        ensures
            r is Ok,
            r->Ok_0@ == Seq::<Option<TicketView>>::empty(),
            r->Ok_0.well_formed(),
    {
        let controller = ModelController { tickets_store: Vec::new() };
        assert(controller@ =~= Seq::<Option<TicketView>>::empty());
        Ok(controller)
    }

    /// Creates a ticket for the caller `context`. Its id is the number of
    /// tickets created before it, the deleted ones counted; it is appended
    /// to the store and returned.
    pub fn create_ticket(&mut self, context: Ctx, ticket_to_create: TicketToCreate) -> (r: Result<
        Ticket,
        Error,
    >)
        requires
            old(self).well_formed(),
        ensures
            r is Ok,
            r->Ok_0@ == (TicketView {
                id: old(self)@.len() as u64,
                creator_user_id: context.id(),
                title: ticket_to_create@,
            }),
            final(self)@ == old(self)@.push(Some(r->Ok_0@)),
            final(self).well_formed(),
    {
        let id = self.tickets_store.len() as u64;
        let ticket = Ticket {
            id,
            creator_user_id: context.user_id(),
            title: ticket_to_create.title,
        };
        let stored = copy_ticket(&ticket);
        self.tickets_store.push(Some(stored));
        assert(self@ =~= old(self)@.push(Some(ticket@)));
        Ok(ticket)
    }

    /// The tickets that the store holds, in the order of their ids.
    pub fn list_tickets(&self, _context: Ctx) -> (r: Result<Vec<Ticket>, Error>)
        ensures
            r is Ok,
            tickets_view(r->Ok_0@) == live_tickets(self@),
    {
        let mut tickets: Vec<Ticket> = Vec::new();
        let n = self.tickets_store.len();
        let mut i: usize = 0;
        while i < n
            invariant
                n == self.tickets_store@.len(),
                0 <= i <= n,
                tickets_view(tickets@) == live_tickets(self@.take(i as int)),
            decreases n - i,
        {
            let ghost before = tickets@;
            proof {
                assert(self@.take(i as int + 1).drop_last() =~= self@.take(i as int));
                assert(self@.take(i as int + 1).last() == slot_view(self.tickets_store@[i as int]));
            }
            match &self.tickets_store[i] {
                None => {},
                Some(ticket) => {
                    let copy = copy_ticket(ticket);
                    tickets.push(copy);
                    assert(tickets_view(tickets@) =~= tickets_view(before).push(ticket@));
                },
            }
            i = i + 1;
        }
        proof {
            assert(self@.take(n as int) =~= self@);
        }
        Ok(tickets)
    }

    /// Deletes the ticket `id` and returns it. Fails with
    /// `RecordDeleteFailIdNotFound`, and leaves the store as it is, exactly
    /// if the store holds no ticket of that id: none was created with it, or
    /// it was deleted before.
    pub fn delete_ticket(&mut self, _context: Ctx, id: u64) -> (r: Result<Ticket, Error>)
        requires
            old(self).well_formed(),
        ensures
            r is Ok <==> holds(old(self)@, id),
            r is Ok ==> {
                &&& Some(r->Ok_0@) == old(self)@[id as int]
                &&& r->Ok_0@.id == id
                &&& final(self)@ == old(self)@.update(id as int, None)
            },
            r is Err ==> r->Err_0 == (Error::RecordDeleteFailIdNotFound { id }) && final(self)@
                == old(self)@,
            final(self).well_formed(),
    {
        let n = self.tickets_store.len();
        if id >= n as u64 {
            return Err(Error::RecordDeleteFailIdNotFound { id });
        }
        let place = id as usize;
        assert(self@[place as int] == slot_view(self.tickets_store@[place as int]));
        let found = match &self.tickets_store[place] {
            None => None,
            Some(ticket) => Some(copy_ticket(ticket)),
        };
        match found {
            None => Err(Error::RecordDeleteFailIdNotFound { id }),
            Some(ticket) => {
                self.tickets_store.set(place, None);
                assert(self@ =~= old(self)@.update(id as int, None));
                Ok(ticket)
            },
        }
    }
}

/// A ticket that was just created can be deleted by its id, once: after
/// that the store holds no ticket of that id.
pub proof fn lemma_delete_after_create(before: Seq<Option<TicketView>>, ticket: TicketView)
    requires
        ticket.id == before.len(),
    ensures
        holds(before.push(Some(ticket)), ticket.id),
        !holds(before.push(Some(ticket)).update(ticket.id as int, None), ticket.id),
        !holds(before, ticket.id),
{
}

/// An id that was never created is not held: the store has as many places
/// as tickets were created, and ids count up from zero.
pub proof fn lemma_never_created_is_not_held(slots: Seq<Option<TicketView>>, id: u64)
    requires
        id >= slots.len(),
    ensures
        !holds(slots, id),
{
}

} // verus!
