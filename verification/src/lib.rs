//! Sale controller for an open edition: a series of numbered items sold at a
//! fixed price inside a time window, each sale split into a network fee and a
//! seller payout, each item created by a separate collection contract.
//!
//! The controller is a state machine over [`state::MinterState`]. Its entry
//! points take the state, the request and what the host learned from the
//! factory, and return the messages to dispatch: [`create`] sets the sale up,
//! [`handshake`] binds the collection, [`mint`] sells, [`update`] changes the
//! sale's parameters and purges, [`contract`] dispatches, [`query`] reports,
//! [`migrate`] takes over an older state. What each entry point is owed is a
//! function of its arguments, stated beside it; a failed request leaves the
//! state as it was. [`laws`] holds what follows for sequences of requests, and
//! [`outside`] and [`version`] hold the calls into other crates.

pub mod types;
pub mod error;
pub mod outside;
pub mod version;
pub mod pricing;
pub mod counts;
pub mod msg;
pub mod response;
pub mod state;
pub mod contract;
pub mod create;
pub mod mint;
pub mod update;
pub mod handshake;
pub mod migrate;
pub mod query;
pub mod laws;
