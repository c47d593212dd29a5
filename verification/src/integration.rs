//! Computational core of the event-integration collaborator.

pub mod pulsar;
