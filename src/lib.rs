//! Core of an authentication service: typed database values, resource
//! descriptors, and the builders that turn a resource type and a list of
//! field/value pairs into parameterised SQL (insert, update, find, delete or
//! archive, join), together with the logic of the login, registration,
//! password-reset and logout endpoints.
//!
//! Running the statements is left to the caller, which binds `Query::binds`
//! in order and maps the returned rows back into the record types.

pub mod api;
pub mod auth;
pub mod clock;
pub mod codes;
pub mod errors;
pub mod fields;
pub mod flows;
pub mod models;
pub mod naming;
pub mod operations;
pub mod query;
pub mod resource;
pub mod semantics;
pub mod text;
pub mod values;
