//! Core logic of a live-preview development server: it serves a built set of
//! static documents and pushes a reload notification to connected browser
//! tabs whenever a rebuild of the sources succeeds.
//!
//! The modules model and verify the parts of the server that carry its
//! design: the reload bus (a bounded multi-subscriber broadcast), the rebuild
//! trigger that decides when a notification is published, the router that
//! decides how a request is answered, the one-shot live-reload connection
//! state machine, and the derivation of the serving context at startup.
//! The surrounding process (sockets, file watching, the document builder)
//! lives outside this crate and hands these modules plain values.

pub mod bus;
pub mod connection;
pub mod context;
pub mod router;
pub mod trigger;
