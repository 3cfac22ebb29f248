//! A log collection service: clients post log records over HTTP, the records
//! are published to subscribers that store them, and the store can be
//! rotated into a compressed, base64-encoded archive.
//!
//! This crate holds the service's decisions and data handling; the network,
//! database and file work is done by the program around it.

pub mod text;
pub mod config;
pub mod router;
pub mod encoding;
pub mod reply;
pub mod rotation;
pub mod events;
pub mod ingest;
pub mod query;
pub mod clock;
pub mod middleware;
