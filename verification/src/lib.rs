//! Coordination core of a fleet-wide terminate relay.
//!
//! A hub accepts peers over a persistent socket, authenticates them against an
//! access list and relays terminate requests between them. This crate holds the
//! decisions of both sides as state machines over plain values: the caller owns
//! the sockets, timers and threads, feeds each event to the machine and carries
//! out the action it answers with.

pub mod client;
pub mod frame;
pub mod json;
pub mod lifecycle;
pub mod server;
pub mod text;
