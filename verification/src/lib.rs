//! A minimal event-logging service core.
//!
//! Events record a requested write under a string key; the [`handler::Database`]
//! store maps keys to values with overwrite semantics, and the [`http`] module
//! holds the endpoint logic that turns store results into status codes and
//! response bodies. The network listener, routing and database driver live
//! outside this crate and hand plain values in and out.

pub mod handler;
pub mod http;
pub mod laws;
