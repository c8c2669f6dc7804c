//! What the browser shows and asks for, as plain values: the calls it makes, the
//! state of its forms, and the words, classes and marks of its pages.

pub mod client;
pub mod history;
pub mod lists;
pub mod login;
pub mod public_status_page;
pub mod shell;
pub mod status_page_detail;
pub mod target_detail;
