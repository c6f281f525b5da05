//! The state machine of a single-user microblog: a list of committed entries,
//! one draft being composed, and the events that drive them.
//!
//! Contracts are stated over the mathematical model in [`model`]; the
//! executable types in [`entry`], [`msg`] and [`state`] are tied to it by
//! their views.

pub mod clock;
pub mod entry;
pub mod laws;
pub mod model;
pub mod msg;
pub mod state;

pub use entry::BlogEntry;
pub use msg::BlogMsg;
pub use state::BlogState;
