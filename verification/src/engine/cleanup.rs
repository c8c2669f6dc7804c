//! What is old enough to be cleared out.

use vstd::prelude::*;

use crate::time::{Moment, DAY};

verus! {

/// How many seconds pass between two sweeps.
pub const SWEEP_INTERVAL_SECS: u64 = 21_600;

/// How many days a delivery is kept once it is done.
pub const DELIVERY_RETENTION_DAYS: i64 = 30;

/// How many days a subscriber has to confirm their address.
pub const UNVERIFIED_SUBSCRIBER_GRACE_DAYS: i64 = 7;

/// How many seconds a rate-limit bucket may lie idle.
pub const IDLE_BUCKET_SECS: u64 = 86_400;

/// How long the configuration keeps things.
#[derive(Clone, Copy, Debug, PartialEq, Eq, Structural)]
pub struct RetentionConfig {
    pub check_results_days: u32,
    pub api_tokens_post_expiry_days: u32,
}

/// The moments before which things of each sort are cleared out.
#[derive(Clone, Copy, Debug, PartialEq, Eq, Structural)]
pub struct SweepCutoffs {
    pub deliveries: Moment,
    pub unverified_subscribers: Moment,
    pub sessions: Moment,
    pub magic_links: Moment,
    pub check_results: Moment,
    pub api_tokens: Moment,
}

/// The cutoffs of a sweep at `now`.
pub open spec fn cutoffs_at(now: Moment, retention: RetentionConfig) -> SweepCutoffs {
    SweepCutoffs {
        deliveries: (now - DELIVERY_RETENTION_DAYS * DAY) as i128,
        unverified_subscribers: (now - UNVERIFIED_SUBSCRIBER_GRACE_DAYS * DAY) as i128,
        sessions: now,
        magic_links: now,
        check_results: (now - retention.check_results_days * DAY) as i128,
        api_tokens: (now - retention.api_tokens_post_expiry_days * DAY) as i128,
    }
}

/// The cutoffs of a sweep at `now`.
pub fn sweep_cutoffs(now: Moment, retention: RetentionConfig) -> (r: SweepCutoffs)
    requires
        crate::time::on_calendar(now as int),
        crate::time::on_calendar(now - DELIVERY_RETENTION_DAYS * DAY),
        crate::time::on_calendar(now - retention.check_results_days * DAY),
        crate::time::on_calendar(now - retention.api_tokens_post_expiry_days * DAY),
    ensures
        r == cutoffs_at(now, retention),
{
    SweepCutoffs {
        deliveries: now - (DELIVERY_RETENTION_DAYS as i128) * DAY,
        unverified_subscribers: now - (UNVERIFIED_SUBSCRIBER_GRACE_DAYS as i128) * DAY,
        sessions: now,
        magic_links: now,
        check_results: now - (retention.check_results_days as i128) * DAY,
        api_tokens: now - (retention.api_tokens_post_expiry_days as i128) * DAY,
    }
}

/// How far a delivery has come.
#[derive(Clone, Copy, Debug, PartialEq, Eq, Structural)]
pub enum DeliveryStatus {
    Pending,
    Sent,
    Failed,
    DeadLetter,
}

/// Whether a delivery is cleared out: when it is done, one way or the other, and
/// older than the cutoff. One that is still to be sent never is.
pub fn delivery_is_stale(status: DeliveryStatus, created_at: Moment, cutoff: Moment) -> (r: bool)
    ensures
        r == ((status is Sent || status is DeadLetter) && created_at < cutoff),
{
    match status {
        DeliveryStatus::Sent => created_at < cutoff,
        DeliveryStatus::DeadLetter => created_at < cutoff,
        DeliveryStatus::Pending => false,
        DeliveryStatus::Failed => false,
    }
}

/// Whether a subscriber is cleared out: when they never confirmed their address
/// and are older than the cutoff.
pub fn subscriber_is_stale(
    verified_at: Option<Moment>,
    created_at: Moment,
    cutoff: Moment,
) -> (r: bool)
    ensures
        r == (verified_at is None && created_at < cutoff),
{
    verified_at.is_none() && created_at < cutoff
}

/// Whether a check result is cleared out: when it is older than the cutoff.
pub fn result_is_stale(timestamp: Moment, cutoff: Moment) -> (r: bool)
    ensures
        r == (timestamp < cutoff),
{
    timestamp < cutoff
}

/// Whether a session or a sign-in link is cleared out: when it has expired before
/// the cutoff.
pub fn expiry_is_past(expires_at: Moment, cutoff: Moment) -> (r: bool)
    ensures
        r == (expires_at < cutoff),
{
    expires_at < cutoff
}

/// Whether an API token is cleared out: when it expired before the cutoff. A token
/// without an expiry never is.
pub fn token_is_stale(expires_at: Option<Moment>, cutoff: Moment) -> (r: bool)
    ensures
        r == (expires_at matches Some(t) && t < cutoff),
{
    match expires_at {
        Some(t) => t < cutoff,
        None => false,
    }
}

/// A sweep reaches into the past alone: nothing that is dated at or after it, and
/// nothing within the retention of its sort, is before a cutoff. And a later sweep
/// reaches as far or further.
pub proof fn law_sweeps_clear_the_past_only(
    now: Moment,
    later: Moment,
    retention: RetentionConfig,
)
    requires
        crate::time::on_calendar(now as int),
        crate::time::on_calendar(later as int),
        now <= later,
    ensures
        cutoffs_at(now, retention).deliveries <= now,
        cutoffs_at(now, retention).unverified_subscribers <= now,
        cutoffs_at(now, retention).sessions <= now,
        cutoffs_at(now, retention).magic_links <= now,
        cutoffs_at(now, retention).check_results <= now,
        cutoffs_at(now, retention).api_tokens <= now,
        cutoffs_at(now, retention).deliveries <= cutoffs_at(later, retention).deliveries,
        cutoffs_at(now, retention).check_results <= cutoffs_at(later, retention).check_results,
        cutoffs_at(now, retention).api_tokens <= cutoffs_at(later, retention).api_tokens,
{
}

} // verus!
