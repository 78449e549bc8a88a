//! Flight-plan records behind an API-key gate.
//!
//! The crate verifies the authenticated data-access core of a flight-plan
//! service: a bounded connection pool, a repository that performs the
//! create/read/update/delete operations on users and flight plans against a
//! model of the relational store, the credential gate that resolves bearer
//! tokens, and the handler layer that maps repository outcomes to HTTP
//! status codes.

pub mod errors;
pub mod models;
pub mod pool;
pub mod store;
pub mod idgen;
pub mod repository;
pub mod gate;
pub mod endpoints;
pub mod config;
pub mod laws;
