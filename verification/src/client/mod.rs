//! What the client decides around its background worker.

pub mod connection;
pub mod laws;
pub mod lifecycle;
pub mod progress;
pub mod startup;
pub mod worker;
