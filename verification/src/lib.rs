//! Control core of a VPN client daemon.
//!
//! The daemon keeps the single record of which tunnel state is wanted and
//! which one is observed, and decides what has to happen to bring the two
//! together. Everything here is a pure decision: a function from the current
//! state and one input to the next state and the work the caller has to
//! carry out (start a tunnel, close one, notify subscribers, answer a query).

pub mod daemon;
pub mod errors;
pub mod events;
pub mod guarantees;
pub mod model;
pub mod plugin;
pub mod remotes;
pub mod states;
