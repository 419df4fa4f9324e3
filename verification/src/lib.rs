//! Validation and request-handling rules of a small registry of people.
//!
//! `person` holds the record and the length rules that guard it, `routes`
//! the decisions an HTTP front end takes on what the store answered, and
//! `bindings` the few items of other crates that the rules lean on.

pub mod bindings;
pub mod person;
pub mod routes;
