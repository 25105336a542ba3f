//! The peer: the process on a monitored machine that connects out to the hub.

pub mod config;
pub mod laws;
pub mod listener;
pub mod web;
