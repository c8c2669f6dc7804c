//! The management side: what each endpoint checks, decides and answers.

pub mod badges;
pub mod bulk;
pub mod components;
pub mod dashboard;
pub mod escalation_policies;
pub mod exports;
pub mod exposition;
pub mod incidents;
pub mod maintenance;
pub mod notification_channels;
pub mod on_call_schedules;
pub mod page_assets;
pub mod postmortems;
pub mod share_links;
pub mod status_pages;
pub mod subscribers;
pub mod targets;
pub mod variables;
