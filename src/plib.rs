//! The server list and the session-token dialect.

pub mod config;
pub mod pihole;
