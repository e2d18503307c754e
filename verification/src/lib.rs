//! Verified core of a small events-and-teams HTTP service.
//!
//! The service keeps two tables, `events` and `teams`, in a relational store
//! and offers create, read and delete operations over them. This crate holds
//! everything the service decides: the parameterized statement that each
//! operation sends to the store, and the HTTP reply that each outcome of the
//! store is answered with. Talking to the store and to the network is left
//! to the binary built around this crate.

pub mod decimal;
pub mod handlers;
pub mod models;
pub mod response;
pub mod routes;
pub mod settings;
pub mod storage;
