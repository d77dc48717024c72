//! The control logic of an embedded Node.js runtime.
//!
//! The library decides what is sent to which Node.js thread, what a reply means, when the runtime
//! is started and stopped, and which Node-API calls a deferred promise makes in which order. It
//! performs none of these effects itself: each function returns what is to be done as a value, and
//! the embedding program does it and hands the outcome back.

pub mod call;
pub mod deferred;
pub mod deferred_laws;
pub mod error;
pub mod events;
pub mod host;
pub mod lifecycle;
pub mod nodejs;
pub mod nodejs_worker;
pub mod options;
pub mod process;
