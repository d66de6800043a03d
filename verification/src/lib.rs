//! Core rules of the ItChat server: permission bits, snowflake identifiers,
//! relationship transitions, error responses and the query texts of the data layer.
pub mod routes;
pub mod structures;
pub mod utils;
