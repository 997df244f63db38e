//! A small catalog of books and authors.
//!
//! Aggregates guard their invariants and publish a domain event for every
//! effective change. The events reach an event store, which queues them in the
//! same unit of work as the rows of the aggregate, so that both become durable
//! in one commit or not at all.

pub mod application;
pub mod domain;
pub mod infrastructure;
