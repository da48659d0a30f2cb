//! The authenticated identity of one request.

use vstd::prelude::*;

verus! {

/// The resolved, authenticated caller of a request. Made once while the
/// request is resolved, and never changed afterwards.
#[derive(Debug, Clone, Copy, PartialEq, Eq, Structural)]
pub struct Ctx {
    user_id: u64,
}

impl Ctx {
    /// The caller's id, for contracts.
    pub closed spec fn id(self) -> u64 {
        self.user_id
    }

    /// The context of the caller `user_id`, for contracts.
    pub closed spec fn of(user_id: u64) -> Ctx {
        Ctx { user_id }
    }

    /// The context made for a caller has that caller's id.
    pub proof fn lemma_of(user_id: u64)
        ensures
            Ctx::of(user_id).id() == user_id,
    {
    }

    /// The context of the caller `user_id`.
    pub fn new(user_id: u64) -> (ctx: Ctx)
        ensures
            ctx == Ctx::of(user_id),
            ctx.id() == user_id,
    {
        Ctx { user_id }
    }

    /// The caller's id.
    pub fn user_id(&self) -> (id: u64)
        ensures
            id == self.id(),
    {
        self.user_id
    }
}

/// A context is its caller's id and nothing else: two contexts of one
/// caller are equal.
pub proof fn lemma_ctx_is_its_id(a: Ctx, b: Ctx)
    requires
        a.id() == b.id(),
    ensures
        a == b,
        a == Ctx::of(a.id()),
{
}

} // verus!
