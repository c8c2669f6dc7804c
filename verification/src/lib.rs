//! The verified core of a self-hosted status page and uptime monitor.

pub mod api;
pub mod auth;
pub mod codec;
pub mod domain;
pub mod engine;
pub mod error;
pub mod idempotency;
pub mod laws;
pub mod markup;
pub mod public;
pub mod text;
pub mod time;
pub mod ui;
