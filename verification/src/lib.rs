//! Core logic of a paginated "things" resource API: normalization of optional
//! pagination parameters, the response text of each resource handler, and the
//! static route table that maps a method and path to a handler.
//!
//! HTTP parsing, serialization and the server itself are external collaborators
//! and live outside this library.

pub mod handlers;
pub mod numbers;
pub mod pagination;
pub mod routes;
