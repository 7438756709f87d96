//! The lifecycle of one client-side HTTP request in the style of XMLHttpRequest.
//!
//! An [`xhr::XMLHttpRequest`] is configured, sent, fed network events and read by its caller.
//! It never calls out: what it needs done (notify observers, submit or cancel a fetch,
//! schedule or cancel a timeout) it queues as [`xhr::Action`]s for its host to take with
//! `take_actions`. A sequence of notifications stops after each one, so that observers may
//! run (and abort or re-open the request) before it goes on: the host calls `resume` until it
//! returns `false`. Every event and every queued step carries the generation it belongs to,
//! and one of a generation that `open` or `abort` has ended has no effect.

pub mod grammar;
pub mod outside;
pub mod types;
pub mod headers;
pub mod xhr;
pub mod send;
pub mod request;
pub mod events;
pub mod response;
pub mod laws;
