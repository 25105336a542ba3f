//! The hub: the always-on service that accepts peers and relays their requests.

pub mod acl;
pub mod config;
pub mod laws;
pub mod monitor;
pub mod session;
pub mod types;
