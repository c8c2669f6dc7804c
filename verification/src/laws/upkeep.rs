//! What the server does on its own: paging, clearing up, and ranking what it found.

use vstd::prelude::*;
use vstd::string::*;

use crate::codec::Id;
use crate::domain::{
    CheckStatus, Incident, IncidentSeverity, MaintenanceWindow, OverallState,
    PublicComponentStatus, PublicIncident,
};
use crate::engine::cleanup::{
    delivery_is_stale, expiry_is_past, result_is_stale, subscriber_is_stale, token_is_stale,
    DeliveryStatus,
};
use crate::engine::deliveries::delivery_payload;
use crate::engine::escalation::{
    after_lookup, channel_is_paged, dispatch_target, host_of, incident_alert_email, is_due,
    AfterLookup, AlertEmail, EscalationTarget, EscalationTargetType, Recipient,
};
use crate::engine::incident_writer::{
    after_create, follow_ups, put_off_by, DeliveryReason, FollowUp, IncidentEscalationState,
};
use crate::error::AppError;
use crate::public::incident::{get_public_incident, public_record, IncidentRecord};
use crate::public::links::{
    after_consume, after_write, begin_link, share_key, shared_target, unsubscribe_subscriber,
    ChannelLink, Consumed, LinkAction, VerificationOutcome,
};
use crate::public::status::{
    badge_color, component_severity_rank, component_status_from_result, in_maintenance,
    needs_latest_result, overall_from_component, overall_label, overall_severity_rank,
    status_from_incidents, worst_incident_status,
};
use crate::time::Moment;

verus! {

/// An escalation is looked at once its time has come, unless somebody acknowledged.
pub proof fn law_escalations_are_due_at_their_time(
    state: &IncidentEscalationState,
    now: Moment,
    r: bool,
)
    requires
        call_ensures(is_due, (state, now), r),
    ensures
        state.acked ==> !r,
        now < state.next_check_at ==> !r,
        !state.acked && now >= state.next_check_at ==> r,
{
}

/// An escalation goes on while its incident is open, is forgotten once that has ended or is
/// gone, and waits where nothing can be learnt of it.
pub proof fn law_escalations_end_with_their_incident(
    found: Result<Option<Moment>, AppError>,
    r: AfterLookup,
)
    requires
        call_ensures(after_lookup, (found,), r),
    ensures
        r is AskLadder <==> found == Ok::<Option<Moment>, AppError>(None),
        found is Ok && found->Ok_0 is Some ==> r is DropState,
        found is Err && found->Err_0 is NotFound ==> r is DropState,
        found is Err && !(found->Err_0 is NotFound) ==> r is Fail,
{
}

/// A target of a step pages whom it names by its own type, and nobody else.
pub proof fn law_targets_page_whom_they_name(target: &EscalationTarget, r: Recipient)
    requires
        call_ensures(dispatch_target, (target,), r),
    ensures
        r matches Recipient::Channel(id) ==> target.target_type == EscalationTargetType::Channel
            && target.channel_id == Some(id),
        r matches Recipient::User(id) ==> target.target_type == EscalationTargetType::User
            && target.user_id == Some(id),
        r matches Recipient::Schedule(id) ==> target.target_type
            == EscalationTargetType::Schedule && target.schedule_id == Some(id),
        target.target_type == EscalationTargetType::Channel && target.channel_id is Some ==> r
            is Channel,
        target.target_type == EscalationTargetType::User && target.user_id is Some ==> r is User,
        target.target_type == EscalationTargetType::Schedule && target.schedule_id is Some ==> r
            is Schedule,
{
}

/// A channel is paged where it is switched on and nothing is left to confirm.
pub proof fn law_channels_are_paged_when_ready(enabled: bool, awaiting: bool, r: bool)
    requires
        call_ensures(channel_is_paged, (enabled, awaiting), r),
    ensures
        r ==> enabled,
        r ==> !awaiting,
        enabled && !awaiting ==> r,
{
}

/// An alert goes to whom it is for, from the server's own host, and tells of the incident
/// and where to look it up.
pub proof fn law_alerts_tell_of_their_incident(
    incident: &Incident,
    base: &str,
    to: &str,
    host: String,
    bare: String,
    severity: &'static str,
    date: String,
    r: AlertEmail,
)
    requires
        call_ensures(incident_alert_email, (incident, base, to), r),
        call_ensures(host_of, (base,), host),
        call_ensures(crate::text::trim_end_slashes, (base,), bare),
        call_ensures(IncidentSeverity::as_db_str, (incident.severity,), severity),
        call_ensures(crate::time::display_date, (incident.started_at,), date),
    ensures
        r.to@ == to@,
        r.from@ == "no-reply@"@ + host@,
        r.body@ == "incident escalated (id="@ + crate::codec::id_text(incident.id) + ", target="@
            + crate::codec::id_text(incident.target_id) + ", severity="@ + severity@
            + ", started="@ + date@ + ")\n\nview: "@ + bare@ + "/api/public/v1/incidents"@,
{
}

/// An incident that somebody else opened first is no failure, but is not opened twice; any
/// other error is one.
pub proof fn law_incidents_are_not_opened_twice(
    created: Result<Incident, AppError>,
    r: Result<Option<Incident>, AppError>,
)
    requires
        call_ensures(after_create, (created,), r),
    ensures
        created matches Ok(inc) ==> r == Ok::<Option<Incident>, AppError>(Some(inc)),
        created is Err && created->Err_0 is Conflict ==> r == Ok::<Option<Incident>, AppError>(
            None,
        ),
        created is Err && !(created->Err_0 is Conflict) ==> r == Err::<Option<Incident>, AppError>(
            created->Err_0,
        ),
{
}

/// Once an incident is opened, subscribers and channels are told and paging begins; once it
/// is closed, they are told so and paging ends.
pub proof fn law_opening_and_closing_are_told(opened: bool, r: Vec<FollowUp>)
    requires
        call_ensures(follow_ups, (opened,), r),
    ensures
        r@.len() == 3,
        opened ==> r@[0] == FollowUp::EnqueueDeliveries(DeliveryReason::IncidentOpened) && r@[1]
            == FollowUp::DispatchToChannels(DeliveryReason::IncidentOpened) && r@[2]
            == FollowUp::SeedEscalation,
        !opened ==> r@[0] == FollowUp::EnqueueDeliveries(DeliveryReason::IncidentResolved)
            && r@[1] == FollowUp::DispatchToChannels(DeliveryReason::IncidentResolved) && r@[2]
            == FollowUp::DropEscalation,
{
}

/// Something put off by so many seconds comes that much later; it is never brought forward.
pub proof fn law_delays_are_in_seconds(now: Moment, delay: i32, r: Moment)
    requires
        call_ensures(put_off_by, (now, delay), r),
    ensures
        delay >= 0 ==> r - now == delay * 1_000_000_000,
        delay < 0 ==> r == now,
{
}

/// What is cleared up is older than the limit: of deliveries those that are done with, of
/// subscriptions those that nobody confirmed, and of tokens those that run out.
pub proof fn law_only_the_old_is_cleared_up(
    status: DeliveryStatus,
    verified_at: Option<Moment>,
    expires_at: Option<Moment>,
    at: Moment,
    cutoff: Moment,
    delivery: bool,
    subscriber: bool,
    result: bool,
    expiry: bool,
    token: bool,
)
    requires
        call_ensures(delivery_is_stale, (status, at, cutoff), delivery),
        call_ensures(subscriber_is_stale, (verified_at, at, cutoff), subscriber),
        call_ensures(result_is_stale, (at, cutoff), result),
        call_ensures(expiry_is_past, (at, cutoff), expiry),
        call_ensures(token_is_stale, (expires_at, cutoff), token),
    ensures
        at >= cutoff ==> !delivery && !subscriber && !result && !expiry,
        at < cutoff ==> result && expiry,
        at < cutoff ==> (delivery <==> status == DeliveryStatus::Sent || status
            == DeliveryStatus::DeadLetter),
        at < cutoff ==> (subscriber <==> verified_at is None),
        token <==> expires_at is Some && expires_at->0 < cutoff,
{
}

/// A message names what happened, its incident and target, how bad it is and since when.
pub proof fn law_messages_tell_of_their_incident(
    incident: &Incident,
    reason: DeliveryReason,
    severity: &'static str,
    date: String,
    r: String,
)
    requires
        call_ensures(delivery_payload, (incident, reason), r),
        call_ensures(IncidentSeverity::as_db_str, (incident.severity,), severity),
        call_ensures(crate::time::display_date, (incident.started_at,), date),
    ensures
        ({
            let rest = " "@ + crate::codec::id_text(incident.id) + " (target="@
                + crate::codec::id_text(incident.target_id) + ", severity="@ + severity@
                + ", started="@ + date@ + ")"@;
            &&& reason == DeliveryReason::IncidentOpened ==> r@ == "incident "@ + "opened"@ + rest
            &&& reason == DeliveryReason::IncidentResolved ==> r@ == "incident "@ + "resolved"@
                + rest
            &&& reason == DeliveryReason::IncidentUpdated ==> r@ == "incident "@ + "updated"@
                + rest
        }),
{
    let rest = " "@ + crate::codec::id_text(incident.id) + " (target="@ + crate::codec::id_text(
        incident.target_id,
    ) + ", severity="@ + severity@ + ", started="@ + date@ + ")"@;
    let word = crate::engine::deliveries::reason_word(reason);
    assert(r@ =~= "incident "@ + word + rest);
}

/// States are ranked from operational over maintenance, degraded and partial outages to
/// major ones.
pub proof fn law_states_are_ranked(
    a: PublicComponentStatus,
    b: PublicComponentStatus,
    x: u8,
    y: u8,
)
    requires
        call_ensures(component_severity_rank, (a,), x),
        call_ensures(component_severity_rank, (b,), y),
    ensures
        a == PublicComponentStatus::Operational && b == PublicComponentStatus::Maintenance ==> x
            < y,
        a == PublicComponentStatus::Maintenance && b == PublicComponentStatus::Degraded ==> x < y,
        a == PublicComponentStatus::Degraded && b == PublicComponentStatus::PartialOutage ==> x
            < y,
        a == PublicComponentStatus::PartialOutage && b == PublicComponentStatus::MajorOutage ==> x
            < y,
        a == PublicComponentStatus::Unknown ==> x <= y,
        a == b ==> x == y,
{
}

/// The states of pages are ranked alike, a minor disruption below a partial outage.
pub proof fn law_page_states_are_ranked(a: OverallState, b: OverallState, x: u8, y: u8)
    requires
        call_ensures(overall_severity_rank, (a,), x),
        call_ensures(overall_severity_rank, (b,), y),
    ensures
        a == OverallState::Operational && b == OverallState::Maintenance ==> x < y,
        a == OverallState::Maintenance && b == OverallState::MinorDisruption ==> x < y,
        a == OverallState::MinorDisruption && b == OverallState::PartialOutage ==> x < y,
        a == OverallState::PartialOutage && b == OverallState::MajorOutage ==> x < y,
        a == OverallState::Unknown ==> x <= y,
        a == b ==> x == y,
{
}

/// What a page is where one component is so, and what it is called and coloured.
pub proof fn law_page_states_follow_their_components(
    s: PublicComponentStatus,
    r: OverallState,
    label: &'static str,
    color: &'static str,
)
    requires
        call_ensures(overall_from_component, (s,), r),
        call_ensures(overall_label, (r,), label),
        call_ensures(badge_color, (r,), color),
    ensures
        s == PublicComponentStatus::Operational ==> r == OverallState::Operational && label@
            == "All Systems Operational"@ && color@ == "#22C55E"@,
        s == PublicComponentStatus::Maintenance ==> r == OverallState::Maintenance && label@
            == "Under Maintenance"@ && color@ == "#F59E0B"@,
        s == PublicComponentStatus::Degraded || s == PublicComponentStatus::PartialOutage ==> r
            == OverallState::PartialOutage && label@ == "Partial Outage"@ && color@ == "#F97316"@,
        s == PublicComponentStatus::MajorOutage ==> r == OverallState::MajorOutage && label@
            == "Major Outage"@ && color@ == "#EF4444"@,
{
}

/// What a check's outcome says of its component: all is well only where it is up.
pub proof fn law_outcomes_say_how_a_component_is(status: CheckStatus, r: PublicComponentStatus)
    requires
        call_ensures(component_status_from_result, (status,), r),
    ensures
        r == PublicComponentStatus::Operational <==> status == CheckStatus::Up,
        r == PublicComponentStatus::Degraded <==> status == CheckStatus::Degraded,
        r == PublicComponentStatus::MajorOutage <==> status == CheckStatus::Down,
        r == PublicComponentStatus::PartialOutage <==> status == CheckStatus::Error || status
            == CheckStatus::Unknown,
{
}

/// A target is under maintenance where some window names it.
pub proof fn law_windows_cover_what_they_name(
    windows: &Vec<MaintenanceWindow>,
    t: Id,
    r: bool,
    k: int,
    j: int,
)
    requires
        call_ensures(in_maintenance, (windows, t), r),
    ensures
        0 <= k < windows@.len() && 0 <= j < windows@[k].component_ids@.len()
            && windows@[k].component_ids@[j] == t ==> r,
        (forall|i: int|
            0 <= i < windows@.len() ==> !(#[trigger] windows@[i]).component_ids@.contains(t))
            ==> !r,
{
    if 0 <= k < windows@.len() && 0 <= j < windows@[k].component_ids@.len()
        && windows@[k].component_ids@[j] == t {
        assert(windows@[k].component_ids@.contains(t));
    }
}

/// Of several incidents the worst counts: one that is critical or major is a major outage,
/// and any other a partial one.
pub proof fn law_the_worst_incident_counts(
    severities: &Vec<IncidentSeverity>,
    r: Option<PublicComponentStatus>,
)
    requires
        call_ensures(worst_incident_status, (severities,), r),
    ensures
        r is None <==> severities@.len() == 0,
        r == Some(PublicComponentStatus::MajorOutage) <==> exists|i: int|
            0 <= i < severities@.len() && (#[trigger] severities@[i]
                == IncidentSeverity::Critical || severities@[i] == IncidentSeverity::Major),
        r is Some && r != Some(PublicComponentStatus::MajorOutage) ==> r == Some(
            PublicComponentStatus::PartialOutage,
        ),
{
    if exists|i: int|
        0 <= i < severities@.len() && (#[trigger] severities@[i] == IncidentSeverity::Critical
            || severities@[i] == IncidentSeverity::Major) {
        let i = choose|i: int|
            0 <= i < severities@.len() && (#[trigger] severities@[i] == IncidentSeverity::Critical
                || severities@[i] == IncidentSeverity::Major);
        assert(crate::public::status::component_rank(
            crate::public::status::status_for_severity(severities@[i]),
        ) == 4);
    }
}

/// Only open incidents of a target say how it is; the latest result is asked for only where
/// neither they nor a window do.
pub proof fn law_open_incidents_say_how_a_target_is(
    windows: &Vec<MaintenanceWindow>,
    records: &Vec<IncidentRecord>,
    t: Id,
    covered: bool,
    r: Option<PublicComponentStatus>,
    asked: bool,
    k: int,
)
    requires
        call_ensures(in_maintenance, (windows, t), covered),
        call_ensures(status_from_incidents, (records, t), r),
        call_ensures(needs_latest_result, (windows, records, t), asked),
    ensures
        asked <==> !covered && r is None,
        0 <= k < records@.len() && records@[k].incident.target_id == t
            && records@[k].incident.ended_at is None ==> r is Some,
        0 <= k < records@.len() && records@[k].incident.target_id == t
            && records@[k].incident.ended_at is None && (records@[k].incident.severity
            == IncidentSeverity::Critical || records@[k].incident.severity
            == IncidentSeverity::Major) ==> r == Some(PublicComponentStatus::MajorOutage),
        (forall|i: int|
            0 <= i < records@.len() && (#[trigger] records@[i]).incident.target_id == t
                ==> records@[i].incident.ended_at is Some) ==> r is None,
        (forall|i: int|
            0 <= i < records@.len() && (#[trigger] records@[i]).incident.target_id == t
                && records@[i].incident.ended_at is None ==> records@[i].incident.severity
                == IncidentSeverity::Minor) && r is Some ==> r == Some(
            PublicComponentStatus::PartialOutage,
        ),
{
    if 0 <= k < records@.len() && records@[k].incident.target_id == t
        && records@[k].incident.ended_at is None {
        assert(crate::public::status::is_open_on(records@[k], t));
    }
}

/// An incident may be looked up by the public where it has a public title or description,
/// and is then told as in lists; any other is as if it were not there.
pub proof fn law_internal_incidents_are_not_found(
    record: &IncidentRecord,
    r: Result<PublicIncident, AppError>,
    listed: Option<PublicIncident>,
)
    requires
        call_ensures(get_public_incident, (record,), r),
        call_ensures(public_record, (record,), listed),
    ensures
        r is Ok <==> record.incident.public_title is Some || record.incident.public_description
            is Some,
        listed is Some <==> r is Ok,
        r matches Err(e) ==> e is NotFound,
        r matches Ok(p) ==> p.id == record.incident.id && p.component_id
            == record.incident.target_id && p.started_at == record.incident.started_at
            && p.ended_at == record.incident.ended_at && p.severity == record.incident.severity
            && p.updates@ == record.incident.updates@,
        r is Ok && record.incident.public_title is Some ==> r->Ok_0.title@
            == record.incident.public_title->0@,
        r is Ok && record.incident.public_title is None ==> r->Ok_0.title@
            == record.incident.public_description->0@,
        r is Ok ==> (r->Ok_0.postmortem is Some <==> record.postmortem is Some
            && record.postmortem->0.published_at is Some),
        r is Ok && record.incident.updates@.len() > 0 ==> r->Ok_0.status_phase
            == record.incident.updates@.last().phase,
{
}

/// A link with a blank token is invalid; any other leads on by the digest of its token
/// without the blanks around it.
pub proof fn law_links_lead_on_by_their_digest(
    token: &str,
    stripped: String,
    began: LinkAction,
    key: Result<String, AppError>,
)
    requires
        call_ensures(begin_link, (token,), began),
        call_ensures(share_key, (token,), key),
        call_ensures(crate::text::trim, (token,), stripped),
    ensures
        stripped@.len() == 0 ==> began == (LinkAction::Respond {
            outcome: VerificationOutcome::Invalid,
        }),
        stripped@.len() == 0 ==> (key matches Err(e) && e is NotFound),
        stripped@.len() > 0 ==> (began matches LinkAction::Consume { token_hash } && token_hash@
            == crate::codec::hex_text(
            crate::codec::sha256(vstd::utf8::encode_utf8(stripped@)),
        )),
        stripped@.len() > 0 ==> (key matches Ok(k) && k@ == crate::codec::hex_text(
            crate::codec::sha256(vstd::utf8::encode_utf8(stripped@)),
        )),
{
}

/// A good link to verify marks its channel, one to decline disables it, and each is then
/// answered as what it did; a link that is no good does nothing.
pub proof fn law_links_do_what_they_are_for(
    link: ChannelLink,
    consumed: Consumed,
    action: LinkAction,
    written: bool,
    outcome: VerificationOutcome,
)
    requires
        call_ensures(after_consume, (link, consumed), action),
        call_ensures(after_write, (link, written), outcome),
    ensures
        consumed is Nothing ==> action == (LinkAction::Respond {
            outcome: VerificationOutcome::Invalid,
        }),
        consumed is Failed ==> action == (LinkAction::Respond {
            outcome: VerificationOutcome::ServerError,
        }),
        consumed matches Consumed::Channel(id) ==> (link is Verify ==> action
            == (LinkAction::MarkVerified { channel_id: id })) && (link is Decline ==> (action
            matches LinkAction::Disable { channel_id, .. } && channel_id == id)),
        !written ==> outcome == VerificationOutcome::ServerError,
        written && link is Verify ==> outcome == VerificationOutcome::Verified,
        written && link is Decline ==> outcome == VerificationOutcome::Declined,
{
}

/// A subscription is gone after it was removed, and one that is not there is not found; a
/// shared monitor is the one its link leads to.
pub proof fn law_removed_subscriptions_are_gone(
    deleted: Result<(), AppError>,
    r: Result<u16, AppError>,
    resolved: Option<Id>,
    target: Result<Id, AppError>,
)
    requires
        call_ensures(unsubscribe_subscriber, (deleted,), r),
        call_ensures(shared_target, (resolved,), target),
    ensures
        deleted is Ok ==> r == Ok::<u16, AppError>(204),
        deleted is Err && deleted->Err_0 is NotFound ==> r == Ok::<u16, AppError>(404),
        deleted is Err && !(deleted->Err_0 is NotFound) ==> r is Err,
        resolved matches Some(id) ==> target == Ok::<Id, AppError>(id),
        resolved is None ==> (target matches Err(e) && e is NotFound),
{
}

} // verus!
