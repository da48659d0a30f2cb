//! The ticket routes. Each of them asks for the caller's context first, so
//! a request that was not authenticated ends here with the recorded failure
//! and does not reach the store.

use vstd::prelude::*;
use crate::error::Error;
use crate::model::{
    holds, live_tickets, tickets_view, ModelController, Ticket, TicketToCreate, TicketView,
};
use crate::web::middleware_auth::{extract_ctx, extraction_of, RequestExtensions};

verus! {

/// `POST /api/tickets`: creates a ticket for the caller.
pub fn create_ticket(
    model_controller: &mut ModelController,
    extensions: &RequestExtensions,
    ticket_to_create: TicketToCreate,
) -> (r: Result<Ticket, Error>)
    requires
        old(model_controller).well_formed(),
    ensures
        final(model_controller).well_formed(),
        match extraction_of(extensions.recorded()) {
            Err(e) => r == Err::<Ticket, Error>(e) && final(model_controller)@ == old(
                model_controller,
            )@,
            Ok(context) => {
                &&& r is Ok
                &&& r->Ok_0@ == (TicketView {
                    id: old(model_controller)@.len() as u64,
                    creator_user_id: context.id(),
                    title: ticket_to_create@,
                })
                &&& final(model_controller)@ == old(model_controller)@.push(Some(r->Ok_0@))
            },
        },
{
    match extract_ctx(extensions) {
        Err(e) => Err(e),
        Ok(context) => model_controller.create_ticket(context, ticket_to_create),
    }
}

/// `GET /api/tickets`: the tickets that the store holds.
pub fn list_tickets(model_controller: &ModelController, extensions: &RequestExtensions) -> (r:
    Result<Vec<Ticket>, Error>)
    ensures
        match extraction_of(extensions.recorded()) {
            Err(e) => r == Err::<Vec<Ticket>, Error>(e),
            Ok(_) => r is Ok && tickets_view(r->Ok_0@) == live_tickets(model_controller@),
        },
{
    match extract_ctx(extensions) {
        Err(e) => Err(e),
        Ok(context) => model_controller.list_tickets(context),
    }
}

/// `DELETE /api/tickets/:id`: deletes the ticket `id` and returns it.
pub fn delete_ticket(
    model_controller: &mut ModelController,
    extensions: &RequestExtensions,
    id: u64,
) -> (r: Result<Ticket, Error>)
    requires
        old(model_controller).well_formed(),
    ensures
        final(model_controller).well_formed(),
        match extraction_of(extensions.recorded()) {
            Err(e) => r == Err::<Ticket, Error>(e) && final(model_controller)@ == old(
                model_controller,
            )@,
            Ok(_) => if holds(old(model_controller)@, id) {
                &&& r is Ok
                &&& Some(r->Ok_0@) == old(model_controller)@[id as int]
                &&& final(model_controller)@ == old(model_controller)@.update(id as int, None)
            } else {
                &&& r == Err::<Ticket, Error>(Error::RecordDeleteFailIdNotFound { id })
                &&& final(model_controller)@ == old(model_controller)@
            },
        },
{
    match extract_ctx(extensions) {
        Err(e) => Err(e),
        Ok(context) => model_controller.delete_ticket(context, id),
    }
}

/// Deleting a ticket that the store does not hold is answered with 404,
/// whatever the id; the client is told the kind `NO_AUTH`, as the mapping
/// table has it.
pub proof fn lemma_delete_of_missing_ticket_is_404(id: u64)
    ensures
        (Error::RecordDeleteFailIdNotFound { id }).status_and_client_error() == (
            crate::error::HttpStatus::NotFound,
            crate::error::ClientError::NO_AUTH,
        ),
        (Error::RecordDeleteFailIdNotFound { id }).status_and_client_error().0.code() == 404,
{
}

} // verus!
