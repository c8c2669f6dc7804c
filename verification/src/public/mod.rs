//! The public side: what a visitor without an account can read.

pub mod badge;
pub mod feed;
pub mod incident;
pub mod links;
pub mod snapshot;
pub mod status;
