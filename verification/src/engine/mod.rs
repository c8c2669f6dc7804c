//! The background side: opening and closing incidents, escalating them, and
//! clearing out what is old.

pub mod cleanup;
pub mod deliveries;
pub mod escalation;
pub mod incident_writer;
