//! What the operations of the library are for, stated of their inputs and results
//! alone.

pub mod engine;
pub mod public;
pub mod snapshot;
pub mod feed;
pub mod badge;
pub mod auth;
pub mod basics;
pub mod targets;
pub mod records;
pub mod plans;
pub mod browser;
pub mod screens;
pub mod access;
pub mod upkeep;
pub mod small;
pub mod refusals;
