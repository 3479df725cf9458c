//! Deal opening for an escrow-based gig marketplace.
//!
//! A freelancer posts a gig with an asking price; a client accepts it by
//! opening a deal: funding an escrow sub-account with the agreed offer plus
//! a platform fee, and committing to a deadline. This crate carries that
//! single state transition — fee policy, precondition checks, the custody
//! transfer, and the create-once deal store — over plain values, with the
//! whole transition proved atomic: a failed opening leaves no trace.
//!
//! The host runtime's own concerns (account derivation, the byte layout of
//! records, the execution of the token transfer, the clock) stay outside:
//! the transition takes the current time as an argument and works on the
//! balances and records themselves.

pub mod fee;
pub mod laws;
pub mod model;
pub mod store;
pub mod transition;
