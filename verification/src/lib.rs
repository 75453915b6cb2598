//! Core of a small Bible-reference web application: the data model the
//! handlers exchange, the lookup capability they depend on together with a
//! deterministic in-memory drill used by the test harness, and the rules
//! that map a request path to one of the application's routes.

pub mod drill;
pub mod models;
pub mod routes;
