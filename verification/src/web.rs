//! The web layer's decisions: context resolution and the guard in front of
//! the protected routes, the login handshake, and the ticket routes.

use vstd::prelude::*;

pub mod middleware_auth;
pub mod routes_login;
pub mod routes_tickets;

verus! {

/// The name of the session cookie.
pub const AUTH_TOKEN: &'static str = "auth-token";

} // verus!
