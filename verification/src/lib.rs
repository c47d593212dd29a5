//! Adaptive data-rate control for a LoRaWAN network server.
//!
//! The heart of the crate is the `adr` module: a request/response data
//! contract, the capability set every rate-control algorithm offers, and the
//! "netmore" algorithm with its full decision procedure, verified against a
//! mathematical statement of every step. The `messagelog` and `integration`
//! modules hold the computational core of two collaborators: the structured
//! message-transit log records and the event-topic rendering used when
//! publishing device events to a broker.

pub mod adr;
pub mod integration;
pub mod messagelog;
