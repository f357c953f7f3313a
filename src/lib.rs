//! A small user service: creating a user writes an audit log row and the user
//! row inside one database transaction. The database and the HTTP server are
//! driven from outside; this library holds the records, the decisions made at
//! each step of a request, and a model of what a transactional store keeps.

pub mod records;
pub mod routes;
pub mod creation;
pub mod transaction;
