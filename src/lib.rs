//! Control of a fleet of DNS-filtering appliances that speak one of two
//! HTTP dialects: a legacy key-in-query dialect and a session-token dialect.
//!
//! The library decides what to send and how to read what comes back; the
//! caller moves the bytes.

pub mod text;
pub mod json;
pub mod plib;
pub mod protocol;
pub mod reading;
pub mod pihole;
pub mod client;
pub mod fleet;
pub mod prompt;
