//! A minimal language-server core: an in-memory store of open documents, a
//! line scanner that flags every line holding the `TODO` marker, and the
//! session state machine that turns lifecycle events into store updates and
//! client-bound actions.

pub mod analyzer;
pub mod protocol;
pub mod session;
pub mod store;
