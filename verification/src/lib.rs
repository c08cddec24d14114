//! The verified core of a PostgreSQL logical replication client.
//!
//! - [`protocol`] reads the backend messages that the client needs before the
//!   replication stream starts.
//! - [`client`] decides what the client does around its background worker:
//!   which connection to open, when the stream counts as started, and what
//!   each call returns once the worker has gone.
//! - [`config`], [`error`], [`lsn`] and [`text`] hold what both share.

pub mod client;
pub mod config;
pub mod error;
pub mod lsn;
pub mod protocol;
pub mod text;
