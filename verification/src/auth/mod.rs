//! Who a request comes from, and what that lets it do.

pub mod cookies;
pub mod identity;
pub mod service;
