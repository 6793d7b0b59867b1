//! A small library for building and wire-encoding monitoring events.
//!
//! A caller supplies a flat table of option values (strings, flags, and
//! positional arguments); the library resolves the numeric metric type,
//! assembles a canonical `Event` record, resolves the collector target
//! address, and encodes the finished record into its wire byte format.

pub mod codec;
pub mod errors;
pub mod event;
pub mod metric;
pub mod numtext;
pub mod options;
pub mod server;
