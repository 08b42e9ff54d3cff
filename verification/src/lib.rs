//! The decisions of a multi-tenant event ingestion service.
//!
//! Requests are validated, authenticated, stamped and routed to Kafka; a
//! consumer decodes what Kafka delivers and hands it to the event store or to
//! the dead-letter topic. This crate holds every decision on that path as
//! verified functions. Identifiers, headers and JSON documents are those of the
//! crates that define them; what is believed of these, of the clock and of
//! random identifiers stands in `outside`. Sockets, databases and brokers stay
//! with the program around the crate.

pub mod auth;
pub mod config;
pub mod domain;
pub mod error;
pub mod infrastructure;
pub mod laws;
pub mod outside;
pub mod text;
pub mod transport;
