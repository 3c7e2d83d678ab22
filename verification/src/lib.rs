//! A token ledger with an access-control and multi-signature layer, written as a
//! verified state machine.
//!
//! The library holds the whole contract state as plain values and exposes one
//! method per contract entry point. Each method checks its preconditions, returns
//! a `TokenError` where the entry point would abort, and otherwise updates the
//! state and reports which accounts must authorise the call and which events it
//! emits.

pub mod types;
pub mod error;
pub mod sums;
pub mod admin;
pub mod events;
pub mod model;
pub mod token;
pub mod laws;
pub mod snapshot;
