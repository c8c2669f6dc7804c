//! All that is configured, in one piece.

use vstd::prelude::*;

use crate::api::maintenance::SilenceRule;
use crate::api::notification_channels::NotificationChannel;
use crate::domain::{Incident, MaintenanceWindow, StatusPage, StatusPageComponent, Target};
use crate::time::Moment;

verus! {

/// The form that an export has.
pub const EXPORT_VERSION: u32 = 1;

/// All that is configured.
#[derive(Clone, Debug)]
pub struct AccountExport {
    pub exported_at: Moment,
    pub version: u32,
    pub targets: Vec<Target>,
    pub status_pages: Vec<StatusPage>,
    pub components: Vec<StatusPageComponent>,
    pub incidents: Vec<Incident>,
    pub maintenance_windows: Vec<MaintenanceWindow>,
    pub notification_channels: Vec<NotificationChannel>,
    pub silence_rules: Vec<SilenceRule>,
}

/// What was read of each part; `None` stands for a part that could not be read.
#[derive(Clone, Debug)]
pub struct ExportReadings {
    pub targets: Option<Vec<Target>>,
    pub status_pages: Option<Vec<StatusPage>>,
    /// One reading for each page, in order.
    pub components: Vec<Option<Vec<StatusPageComponent>>>,
    pub incidents: Option<Vec<Incident>>,
    pub maintenance_windows: Option<Vec<MaintenanceWindow>>,
    pub notification_channels: Option<Vec<NotificationChannel>>,
    pub silence_rules: Option<Vec<SilenceRule>>,
}

/// What was read, or nothing where it could not be.
pub open spec fn read_or_empty<T>(reading: Option<Vec<T>>) -> Seq<T> {
    match reading {
        Some(v) => v@,
        None => Seq::empty(),
    }
}

/// All that was read, one reading after the other.
pub open spec fn all_read<T>(readings: Seq<Option<Vec<T>>>) -> Seq<T>
    decreases readings.len(),
{
    if readings.len() == 0 {
        Seq::empty()
    } else {
        all_read(readings.drop_last()) + read_or_empty(readings.last())
    }
}

/// What was read, or nothing where it could not be.
fn or_empty<T>(reading: Option<Vec<T>>) -> (r: Vec<T>)
    ensures
        r@ == read_or_empty(reading),
{
    match reading {
        Some(v) => v,
        None => Vec::new(),
    }
}

/// Puts an export together. A part that could not be read is left empty, and does
/// not spoil the rest.
pub fn export_account(readings: ExportReadings, now: Moment) -> (r: AccountExport)
    ensures
        r.exported_at == now,
        r.version == EXPORT_VERSION,
        r.targets@ == read_or_empty(readings.targets),
        r.status_pages@ == read_or_empty(readings.status_pages),
        r.components@ == all_read(readings.components@),
        r.incidents@ == read_or_empty(readings.incidents),
        r.maintenance_windows@ == read_or_empty(readings.maintenance_windows),
        r.notification_channels@ == read_or_empty(readings.notification_channels),
        r.silence_rules@ == read_or_empty(readings.silence_rules),
{
    let ghost all = readings.components@;
    let mut rest = readings.components;
    let mut components: Vec<StatusPageComponent> = Vec::new();
    let ghost mut n: int = 0;
    while rest.len() > 0
        invariant
            0 <= n <= all.len(),
            rest@ == all.skip(n),
            components@ == all_read(all.take(n)),
        decreases rest.len(),
    {
        let mut part = or_empty(rest.remove(0));
        proof {
            let next = all.take(n + 1);
            assert(next.last() == all[n]);
            assert(next.drop_last() =~= all.take(n));
        }
        components.append(&mut part);
        proof {
            n = n + 1;
        }
        assert(rest@ =~= all.skip(n));
    }
    assert(all.take(n) =~= all);
    AccountExport {
        exported_at: now,
        version: EXPORT_VERSION,
        targets: or_empty(readings.targets),
        status_pages: or_empty(readings.status_pages),
        components,
        incidents: or_empty(readings.incidents),
        maintenance_windows: or_empty(readings.maintenance_windows),
        notification_channels: or_empty(readings.notification_channels),
        silence_rules: or_empty(readings.silence_rules),
    }
}

} // verus!
