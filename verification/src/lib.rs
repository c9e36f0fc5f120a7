//! A network-triggered, user-cancellable countdown to a privileged host action.
//!
//! The crate holds the decisions only: the countdown state machine, the
//! admission of triggers, and the handling of the stored secret. Clocks,
//! sockets, windows and the privileged command itself belong to the caller,
//! which feeds signals in and carries events out.

pub mod session;
pub mod model;
pub mod engine;
pub mod laws;
pub mod secret;
pub mod gate;
