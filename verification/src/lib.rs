//! Binding core for a distributed pub/sub + query protocol client.
//!
//! The crate models the state that a host runtime entrusts to the native
//! layer: the process-wide registry of sessions and their declared entities,
//! the one-shot lifecycles of queries, liveliness tokens and scouts, the
//! payload codec, the option-bag decoder that configures native builders,
//! and the deadline-based aggregation used by `get` and `scout`.
//! Key-expression comparison and configuration parsing are delegated to the
//! `zenoh` crate behind narrow trusted wrappers.

pub mod collect;
pub mod config;
pub mod error;
pub mod handles;
pub mod keyexpr;
pub mod logger;
pub mod opts;
pub mod qos;
pub mod query;
pub mod registry;
pub mod sample;
pub mod scouting;
pub mod session;
pub mod value;

pub use error::Error;
