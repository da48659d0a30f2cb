//! Session-cookie authenticated ticket service: the request pipeline as
//! verified, I/O-free logic.
//!
//! The crate holds the token codec, the error taxonomy, the deferred context
//! resolution with its extractor and guard, the response mapper, the request
//! log record and the in-memory ticket store. An HTTP front end hands it plain
//! values (a cookie value, a path, a clock reading) and carries out what it
//! decides.

pub mod ctx;
pub mod decimal;
pub mod error;
pub mod log;
pub mod model;
pub mod request_id;
pub mod response;
pub mod text;
pub mod token;
pub mod web;
