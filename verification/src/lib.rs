//! Keeps cloud floating IPs attached to the node that currently holds the
//! lease of the service each one fronts.
//!
//! The crate is the decision core of a lease-driven failover controller. It
//! performs no I/O itself: a caller feeds it lease events and the provider's
//! replies, and carries out the cloud requests it asks for.

pub mod cache;
pub mod cloud;
pub mod engine;
pub mod event;
pub mod mapping;
pub mod outcome;
pub mod run;
