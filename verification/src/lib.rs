//! Decision logic of a forwarding proxy for a game service that is located
//! through DNS SRV records and reached through a SOCKS5 proxy.
//!
//! Every network operation is left to the caller. The library decides which
//! query to issue, which address to dial, which credentials to present and
//! what becomes of a connection after each outcome.

pub mod address;
pub mod config;
pub mod connector;
pub mod listener;
pub mod report;
pub mod resolver;
pub mod session;
pub mod supervisor;
