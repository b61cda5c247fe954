//! A small CRUD service core for two document kinds, users and posts.
//!
//! `ident` parses and prints document identifiers, `store` holds an in-memory
//! collection that follows the data-access contract, `reply` maps the outcome
//! of each data-access operation to an HTTP status and body, and `service`
//! joins the two into whole request handlers. `laws` states the properties
//! that hold across several requests.
pub mod ident;
pub mod store;
pub mod reply;
pub mod service;
pub mod laws;
