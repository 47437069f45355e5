//! A small verified core for an HTTP service over artists and paintings.
//!
//! The service maps routes to statements against a relational store and
//! returns the rows as responses. The store itself, the data-access
//! operations, the handler logic and the response mapping live here, each
//! with a contract; the network edge (the HTTP server and the database
//! driver) stays outside the verified code and hands plain values in and out.

pub mod guarantees;
pub mod handlers;
pub mod model;
pub mod store;
