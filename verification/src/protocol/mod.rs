//! Backend messages of the PostgreSQL wire protocol.

pub mod auth;
pub mod data_row;
pub mod error_fields;
pub mod error_laws;
pub mod identity_laws;
pub mod messages;
pub mod row_laws;
pub mod wire;
