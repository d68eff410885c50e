//! Dynamic DNS update engine: picks the host's publishable addresses, builds one
//! atomic "replace all address records" transaction and walks the resolved name
//! servers until one of them accepts it.

pub mod attempt;
pub mod config;
pub mod credential;
pub mod dns;
pub mod error;
pub mod iface;
pub mod ip;
pub mod run;
pub mod server;
