//! Small rules: limits, single fields, calls, words and switches.

use vstd::prelude::*;
use vstd::string::*;

use crate::api::bulk::{acted_error, switch_to, switched, Acted, BulkActionKind};
use crate::api::components::{add_component, NewStatusPageComponent};
use crate::api::exposition::{custom_css_handler, latency_buckets};
use crate::api::incidents::{
    add_incident_update, incident_metrics_days, opened_message, NewIncidentUpdateBody,
};
use crate::api::maintenance::{create_maintenance_window, NewMaintenanceWindow};
use crate::api::notification_channels::{
    check_channel, notifier_failure, redact, unbind_channel, ChannelConfig, NotifierFault,
};
use crate::api::on_call_schedules::{
    create_override, validate_new_schedule, validate_schedule_in, NewOnCallOverride,
    NewOnCallSchedule, OnCallOverride,
};
use crate::api::page_assets::{get_asset, PageAsset};
use crate::api::postmortems::{
    get_postmortem, publish_postmortem, unpublish_postmortem, upsert_postmortem, PostmortemUpsert,
};
use crate::api::share_links::{delete_share, MonitorShare};
use crate::api::status_pages::{create_status_page, NewStatusPage};
use crate::api::subscribers::{confirmed, create_subscriber, NewSubscriberBody, PageSubscriber};
use crate::api::targets::{
    check_target_now, record_heartbeat_ping, results_limit, test_target_spec,
};
use crate::codec::Id;
use crate::domain::{
    CheckResult, CheckSpec, Incident, IncidentPostmortem, IncidentSeverity, MaintenanceWindow,
    PublicIncidentUpdate, StatusPage, StatusPageComponent, Target,
};
use crate::error::AppError;
use crate::markup::TextReply;
use crate::time::Moment;
use crate::ui::client::{
    delete_status_page, delete_target, format_error_response, get_incident, get_session,
    get_status_page, get_target, is_success, list_target_results, logout, ApiErrorBody,
    BootstrapStatus, Call,
};
use crate::ui::lists::{monitor_row, MonitorRow};
use crate::ui::login::{bootstrap_state, BootstrapState};
use crate::ui::shell::{
    auth_next, error_callout, theme_toggle, AuthEvent, AuthState, CalloutBody, ThemeView,
};
use crate::ui::status_page_detail::{active_incidents_heading, id_from_path};
use crate::ui::target_detail::{fetch_target_detail, TargetDetailView};

verus! {

/// A switch is thrown only where it stands otherwise, to where it was asked to be; and
/// nothing else of its target changes but the time of its last change.
pub proof fn law_switches_are_thrown_where_they_stand_otherwise(
    action: BulkActionKind,
    target: Target,
    r: Option<bool>,
    enable: bool,
    now: Moment,
    s: Target,
)
    requires
        call_ensures(switch_to, (action, target.enabled), r),
        call_ensures(switched, (target, enable, now), s),
    ensures
        action == BulkActionKind::Enable ==> (r == Some(true) <==> !target.enabled) && r != Some(
            false,
        ),
        action == BulkActionKind::Disable ==> (r == Some(false) <==> target.enabled) && r != Some(
            true,
        ),
        action == BulkActionKind::Delete ==> r is None,
        s.enabled == enable,
        s.updated_at == now,
        s.id == target.id && s.name == target.name && s.check == target.check && s.tags
            == target.tags && s.interval_secs == target.interval_secs && s.alerts == target.alerts
            && s.created_at == target.created_at && s.group_name == target.group_name,
{
}

/// A target that is not there is missing, and any other error is a failure.
pub proof fn law_missing_targets_are_told_apart(error: &AppError, shown: String, r: Acted)
    requires
        call_ensures(acted_error, (error, shown), r),
    ensures
        r is Missing <==> *error is NotFound,
        !(*error is NotFound) ==> r == Acted::Failed(shown),
{
}

/// At most 1000 results are given, 100 where nobody says; a chart has at most 1000 points,
/// 60 where nobody says; and metrics look back over a year at most, 30 days where nobody
/// says.
pub proof fn law_requests_have_their_limits(n: Option<u32>, a: u32, b: u32, c: u32)
    requires
        call_ensures(results_limit, (n,), a),
        call_ensures(latency_buckets, (n,), b),
        call_ensures(incident_metrics_days, (n,), c),
    ensures
        n is None ==> a == 100 && b == 60 && c == 30,
        a <= 1000 && b <= 1000 && c <= 365,
        n is Some && n->0 <= 1000 ==> a == n->0 && b == n->0,
        n is Some && n->0 > 1000 ==> a == 1000 && b == 1000,
        n is Some && n->0 <= 365 ==> c == n->0,
        n is Some && n->0 > 365 ==> c == 365,
{
}

/// Only enabled targets are checked at once, only heartbeats take pings, and what needs a
/// target that is kept cannot be tried.
pub proof fn law_targets_are_used_as_they_can_be(
    enabled: bool,
    check: CheckSpec,
    now: Moment,
    now_check: Result<(), AppError>,
    ping: Result<(), AppError>,
    trial: Result<Target, AppError>,
)
    requires
        call_ensures(check_target_now, (enabled,), now_check),
        call_ensures(record_heartbeat_ping, (&check,), ping),
        call_ensures(test_target_spec, (check, now), trial),
    ensures
        now_check is Ok <==> enabled,
        ping is Ok <==> check is Heartbeat,
        trial is Err <==> check is Heartbeat || check is DomainExpiry,
        trial matches Ok(t) ==> t.check == check && t.id == 0 && t.enabled && t.alerts@.len() == 0
            && t.created_at == now,
        now_check matches Err(e) ==> e is BadRequest,
        ping matches Err(e) ==> e is BadRequest,
        trial matches Err(e) ==> e is BadRequest,
{
}

/// A component is put on a page as it was asked for, and remembers its target's own name.
pub proof fn law_components_remember_their_target(
    new: NewStatusPageComponent,
    name: String,
    r: StatusPageComponent,
)
    requires
        call_ensures(add_component, (new, name), r),
    ensures
        r.target_id == new.target_id,
        r.monitor_name == name,
        r.public_name == new.public_name,
        r.public_description == new.public_description,
        r.public_group == new.public_group,
        r.sort_order == new.sort_order,
{
}

/// An entry is of the time it names, or else of now.
pub proof fn law_entries_are_of_their_time(
    body: NewIncidentUpdateBody,
    now: Moment,
    r: PublicIncidentUpdate,
)
    requires
        call_ensures(add_incident_update, (body, now), r),
    ensures
        body.posted_at is Some ==> body.posted_at == Some(r.posted_at),
        body.posted_at is None ==> r.posted_at == now,
        r.phase == body.phase,
        r.message == body.message,
{
}

/// What is sent out of a new incident names it, how bad it is, its target and its title.
pub proof fn law_new_incidents_are_announced(
    incident: &Incident,
    severity: &'static str,
    r: String,
)
    requires
        call_ensures(opened_message, (incident,), r),
        call_ensures(IncidentSeverity::as_db_str, (incident.severity,), severity),
    ensures
        ({
            let head = "incident "@ + crate::codec::id_text(incident.id) + " opened: severity="@
                + severity@ + " target="@ + crate::codec::id_text(incident.target_id)
                + " title="@;
            &&& incident.public_title is Some ==> r@ == head + incident.public_title->0@
            &&& incident.public_title is None ==> r@ == head + "(none)"@
        }),
{
}

/// A window is made as it was asked for, where it ends after it starts.
pub proof fn law_windows_are_made_as_asked_for(
    new: NewMaintenanceWindow,
    id: Id,
    now: Moment,
    r: Result<MaintenanceWindow, AppError>,
)
    requires
        call_ensures(create_maintenance_window, (new, id, now), r),
    ensures
        r is Ok <==> new.ends_at > new.starts_at,
        r matches Err(e) ==> e is BadRequest,
        r matches Ok(w) ==> w.id == id && w.title == new.title && w.description == new.description
            && w.starts_at == new.starts_at && w.ends_at == new.ends_at && w.component_ids
            == new.component_ids && w.created_at == now && w.updated_at == now,
{
}

/// An address is masked where it is a secret; a fault of a name goes before one of an
/// address; and a channel that is gone is bound to no target any more, all others still.
pub proof fn law_channels_are_checked_and_unbound(
    config: ChannelConfig,
    masked: ChannelConfig,
    name_check: Result<(), String>,
    config_check: Result<(), String>,
    r: Result<(), AppError>,
    alerts: Vec<Id>,
    gone: Id,
    left: Vec<Id>,
    other: Id,
)
    requires
        call_ensures(redact, (config,), masked),
        call_ensures(check_channel, (name_check, config_check), r),
        call_ensures(unbind_channel, (alerts, gone), left),
    ensures
        config is Email ==> masked == config,
        config is Secret ==> (masked matches ChannelConfig::Secret { url } && url@
            == "********"@),
        r is Ok <==> name_check is Ok && config_check is Ok,
        name_check is Err && r is Err ==> (r->Err_0 matches AppError::BadRequest {
            message,
            ..
        } && message@ == name_check->Err_0@),
        name_check is Ok && config_check is Err && r is Err ==> (r->Err_0 matches
            AppError::BadRequest { message, .. } && message@ == config_check->Err_0@),
        !left@.contains(gone),
        other != gone && alerts@.contains(other) ==> left@.contains(other),
{
    let keep = |a: Id| a != gone;
    if other != gone && alerts@.contains(other) {
        let k = choose|k: int| 0 <= k < alerts@.len() && alerts@[k] == other;
        alerts@.lemma_filter_contains(keep, k);
    }
}

/// What went wrong with a message is told by how far it got, and the reason stays in the
/// log.
pub proof fn law_faults_of_messages_stay_in_the_log(
    fault: NotifierFault,
    reason: String,
    e: AppError,
    r: crate::error::ErrorReply,
)
    requires
        call_ensures(notifier_failure, (fault, reason), e),
        call_ensures(crate::error::ApiError::into_response, (crate::error::ApiError(e),), r),
    ensures
        r.status == 500,
        r.message@ == "internal error"@,
        fault == NotifierFault::Build ==> r.code@ == "NOTIFIER_BUILD"@,
        fault == NotifierFault::Send ==> r.code@ == "NOTIFIER_SEND"@,
        fault == NotifierFault::VerificationMail ==> r.code@ == "VERIFICATION_EMAIL_SEND"@,
{
}

/// A schedule is judged by its own time zone; an override has to end after it starts.
pub proof fn law_schedules_are_judged_by_their_zone(
    new: &NewOnCallSchedule,
    r: Result<(), AppError>,
    zone_known: bool,
    judged: Result<(), AppError>,
    span: &NewOnCallOverride,
    id: Id,
    now: Moment,
    o: Result<OnCallOverride, AppError>,
)
    requires
        call_ensures(validate_new_schedule, (new,), r),
        zone_known == crate::codec::known_zone(new.timezone@),
        call_ensures(validate_schedule_in, (new, zone_known), judged),
        call_ensures(create_override, (span, id, now), o),
    ensures
        r is Ok <==> judged is Ok,
        o is Ok <==> span.ends_at > span.starts_at,
        o matches Ok(x) ==> x.id == id && x.user_id == span.user_id && x.starts_at
            == span.starts_at && x.ends_at == span.ends_at && x.created_at == now,
{
}

/// A file that is kept is given as it is, and one that is not there is not found.
pub proof fn law_files_are_given_as_kept(
    stored: Option<PageAsset>,
    slot: &str,
    page_id: Id,
    r: Result<(String, Vec<u8>), AppError>,
)
    requires
        call_ensures(get_asset, (stored, slot, page_id), r),
    ensures
        stored is Some ==> (r matches Ok(f) && f.0 == stored->0.content_type && f.1
            == stored->0.data),
        stored is None ==> (r matches Err(e) && e is NotFound),
{
}

/// A postmortem is public from when it is published until it is taken back; writing it
/// anew changes what it says and who wrote it, and nothing of that.
pub proof fn law_postmortems_are_public_while_published(
    stored: Option<IncidentPostmortem>,
    id: Id,
    now: Moment,
    author: Option<Id>,
    body: PostmortemUpsert,
    got: Result<IncidentPostmortem, AppError>,
    written: IncidentPostmortem,
    published: Result<IncidentPostmortem, AppError>,
    hidden: Result<IncidentPostmortem, AppError>,
)
    requires
        call_ensures(get_postmortem, (stored, id), got),
        call_ensures(upsert_postmortem, (stored, author, body), written),
        call_ensures(publish_postmortem, (stored, id, now), published),
        call_ensures(unpublish_postmortem, (stored, id), hidden),
    ensures
        stored is None ==> got is Err && published is Err && hidden is Err,
        stored is None ==> written.published_at is None,
        written.summary == body.summary && written.root_cause == body.root_cause && written.impact
            == body.impact && written.action_items == body.action_items && written.author_id
            == author,
        stored matches Some(pm) ==> {
            &&& got == Ok::<IncidentPostmortem, AppError>(pm)
            &&& written.published_at == pm.published_at
            &&& published matches Ok(p) && p.published_at == Some(now) && p.summary == pm.summary
                && p.root_cause == pm.root_cause && p.impact == pm.impact && p.action_items
                == pm.action_items && p.author_id == pm.author_id
            &&& hidden matches Ok(h) && h.published_at is None && h.summary == pm.summary
        },
        got matches Err(e) ==> e is NotFound,
{
}

/// A link that was taken back is gone, and all others stay.
pub proof fn law_links_are_taken_back_one_by_one(
    shares: Vec<MonitorShare>,
    id: Id,
    r: Vec<MonitorShare>,
    k: int,
)
    requires
        call_ensures(delete_share, (shares, id), r),
    ensures
        forall|i: int| 0 <= i < r@.len() ==> (#[trigger] r@[i]).id != id,
        0 <= k < shares@.len() && shares@[k].id != id ==> r@.contains(shares@[k]),
{
    let keep = |s: MonitorShare| s.id != id;
    assert forall|i: int| 0 <= i < r@.len() implies (#[trigger] r@[i]).id != id by {
        shares@.lemma_filter_pred(keep, i);
    }
    if 0 <= k < shares@.len() && shares@[k].id != id {
        shares@.lemma_filter_contains(keep, k);
    }
}

/// A new page is as it was asked for, with no branding of its own.
pub proof fn law_new_pages_are_as_asked_for(
    new: NewStatusPage,
    id: Id,
    now: Moment,
    r: StatusPage,
)
    requires
        call_ensures(create_status_page, (new, id, now), r),
    ensures
        r.id == id,
        r.slug == new.slug,
        r.name == new.name,
        r.enabled == new.enabled,
        r.created_at == now,
        r.updated_at == now,
        r.branding.public_display_name is None,
        r.branding.public_about is None,
{
}

/// A subscription is to its page and not confirmed; confirming it notes when, and changes
/// nothing else.
pub proof fn law_subscriptions_start_unconfirmed(
    page: &StatusPage,
    body: NewSubscriberBody,
    id: Id,
    now: Moment,
    r: PageSubscriber,
    later: Moment,
    c: PageSubscriber,
)
    requires
        call_ensures(create_subscriber, (page, body, id, now), r),
        call_ensures(confirmed, (r, later), c),
    ensures
        r.id == id,
        r.status_page_id == page.id,
        r.org_id == page.org_id,
        r.channel == body.channel,
        r.target == body.target,
        r.config == body.config,
        r.verified_at is None,
        r.created_at == now,
        c.verified_at == Some(later),
        c.updated_at == later,
        c.id == r.id && c.status_page_id == r.status_page_id && c.channel == r.channel && c.target
            == r.target && c.config == r.config && c.created_at == r.created_at,
{
}

/// The operator's own style sheet is given as it is, or an empty one.
pub proof fn law_style_sheets_are_given_as_they_are(css: &Option<String>, r: TextReply)
    requires
        call_ensures(custom_css_handler, (css,), r),
    ensures
        r.status == 200,
        *css is Some ==> r.body@ == (*css)->0@,
        *css is None ==> r.body@.len() == 0,
{
}

/// Calls go to where their things are: to be read, or to be removed.
pub proof fn law_calls_go_to_their_things(
    id: Id,
    limit: u32,
    digits: String,
    a: Call,
    b: Call,
    c: Call,
    d: Call,
    e: Call,
    f: Call,
    g: Call,
    h: Call,
)
    requires
        call_ensures(get_status_page, (id,), a),
        call_ensures(delete_status_page, (id,), b),
        call_ensures(get_target, (id,), c),
        call_ensures(delete_target, (id,), d),
        call_ensures(get_incident, (id,), e),
        call_ensures(list_target_results, (id, limit), f),
        call_ensures(crate::text::decimal_text, (limit as u64,), digits),
        call_ensures(get_session, (), g),
        call_ensures(logout, (), h),
    ensures
        a.method@ == "GET"@ && a.url@ == "/api/v1/status-pages/"@ + crate::codec::id_text(id),
        b.method@ == "DELETE"@ && b.url@ == a.url@,
        c.method@ == "GET"@ && c.url@ == "/api/v1/targets/"@ + crate::codec::id_text(id),
        d.method@ == "DELETE"@ && d.url@ == c.url@,
        e.method@ == "GET"@ && e.url@ == "/api/v1/incidents/"@ + crate::codec::id_text(id),
        f.method@ == "GET"@ && f.url@ == c.url@ + "/results?limit="@ + digits@,
        g.method@ == "GET"@ && g.url@ == "/api/v1/auth/session"@,
        h.method@ == "DELETE"@ && h.url@ == g.url@,
{
}

/// An answer is a success from 200 to 299; any other is told by what the server said of
/// it, or else by its status.
pub proof fn law_failed_calls_are_told(
    status: u16,
    body: &str,
    parsed: &Option<ApiErrorBody>,
    digits: String,
    good: bool,
    r: String,
)
    requires
        call_ensures(is_success, (status,), good),
        call_ensures(format_error_response, (status, body, parsed), r),
        call_ensures(crate::text::decimal_text, (status as u64,), digits),
    ensures
        good <==> 200 <= status < 300,
        *parsed matches Some(e) ==> r@ == "["@ + e.code@ + "] "@ + e.message@,
        *parsed is None && body@.len() == 0 ==> r@ == "HTTP "@ + digits@,
        *parsed is None && body@.len() > 0 ==> r@ == "HTTP "@ + digits@ + ": "@ + body@,
{
}

/// A monitor in a list has the last of its results, where it has any.
pub proof fn law_monitors_have_the_last_of_their_results(
    target: Target,
    results: Option<Vec<CheckResult>>,
    r: MonitorRow,
)
    requires
        call_ensures(monitor_row, (target, results), r),
    ensures
        r.target == target,
        results is None ==> r.latest is None,
        results is Some && results->0@.len() == 0 ==> r.latest is None,
        results is Some && results->0@.len() > 0 ==> r.latest == Some(
            results->0@[results->0@.len() - 1],
        ),
{
}

/// Which form is shown goes by whether the first user is still to be made; who is signed in
/// goes by the last that was heard.
pub proof fn law_forms_and_sessions_follow_the_news(
    asked: Option<BootstrapStatus>,
    form: BootstrapState,
    event: AuthEvent,
    state: AuthState,
)
    requires
        call_ensures(bootstrap_state, (asked,), form),
        call_ensures(auth_next, (event,), state),
    ensures
        form == BootstrapState::Error <==> asked is None,
        form == BootstrapState::Needed <==> asked is Some && asked->0.bootstrap_needed,
        form == BootstrapState::NotNeeded <==> asked is Some && !asked->0.bootstrap_needed,
        event == AuthEvent::LoggedIn || event == (AuthEvent::SessionChecked { found: true })
            ==> state == AuthState::Authenticated,
        event == AuthEvent::LoggedOut || event == (AuthEvent::SessionChecked { found: false })
            ==> state == AuthState::Unauthenticated,
{
}

/// The button for light and dark says where it leads, and what is kept is where one is.
pub proof fn law_the_theme_that_is_shown_is_kept(dark: bool, r: ThemeView)
    requires
        call_ensures(theme_toggle, (dark,), r),
    ensures
        dark ==> r.stored@ == "dark"@ && r.label@ == "Switch to light mode"@,
        !dark ==> r.stored@ == "light"@ && r.label@ == "Switch to dark mode"@,
{
}

/// One error is told as a text, several as a list, and a message before either.
pub proof fn law_errors_are_told_together(
    message: Option<String>,
    errors: Vec<String>,
    r: CalloutBody,
)
    requires
        call_ensures(error_callout, (message, errors), r),
    ensures
        message is Some ==> r == CalloutBody::Text(message->0),
        message is None && errors@.len() == 1 ==> r == CalloutBody::Text(errors@[0]),
        message is None && errors@.len() != 1 ==> r == CalloutBody::List(errors),
{
}

/// The heading of active incidents tells how many there are, where there are several; and an
/// address that names nothing names nothing.
pub proof fn law_headings_tell_how_many(
    count: usize,
    digits: String,
    r: String,
    param: Option<&str>,
    id: Id,
)
    requires
        call_ensures(active_incidents_heading, (count,), r),
        call_ensures(crate::text::decimal_text, (count as u64,), digits),
        call_ensures(id_from_path, (param,), id),
    ensures
        count == 1 ==> r@ == "Active incident"@,
        count != 1 ==> r@ == "Active incidents ("@ + digits@ + ")"@,
        param is None ==> id == 0,
        param is Some && crate::codec::parsed_id(param->0@) is Some ==> Some(id)
            == crate::codec::parsed_id(param->0@),
        param is Some && crate::codec::parsed_id(param->0@) is None ==> id == 0,
{
}

/// What could be read of a monitor is shown, and what went wrong is told.
pub proof fn law_what_was_read_of_a_monitor_is_shown(
    target: Result<Target, String>,
    results: Result<Vec<CheckResult>, String>,
    r: TargetDetailView,
)
    requires
        call_ensures(fetch_target_detail, (target, results), r),
    ensures
        r.target is Some <==> target is Ok,
        target matches Ok(t) ==> r.target == Some(t),
        target is Err ==> r.error == Some(target->Err_0) && r.results@.len() == 0,
        target is Ok && results is Ok ==> r.results == results->Ok_0 && r.error is None,
        target is Ok && results is Err ==> r.results@.len() == 0 && (r.error matches Some(m) && m@
            == "Check results: "@ + results->Err_0@),
{
}

/// Calls that are the same for all go to where all things are.
pub proof fn law_common_calls_have_their_addresses(
    a: Call,
    b: Call,
    c: Call,
    d: Call,
    e: Call,
    f: Call,
    g: Call,
    h: Call,
    i: Call,
    j: Call,
)
    requires
        call_ensures(crate::ui::client::get_public_status, (), a),
        call_ensures(crate::ui::client::list_status_pages, (), b),
        call_ensures(crate::ui::client::create_status_page, (), c),
        call_ensures(crate::ui::client::list_targets, (), d),
        call_ensures(crate::ui::client::create_target, (), e),
        call_ensures(crate::ui::client::list_incidents, (), f),
        call_ensures(crate::ui::client::bootstrap_status, (), g),
        call_ensures(crate::ui::client::bootstrap_create, (), h),
        call_ensures(crate::ui::client::magic_link_request, (), i),
        call_ensures(crate::ui::client::magic_link_verify, (), j),
    ensures
        a.method@ == "GET"@ && a.url@ == "/api/public/v1/status"@,
        b.method@ == "GET"@ && b.url@ == "/api/v1/status-pages"@,
        c.method@ == "POST"@ && c.url@ == b.url@,
        d.method@ == "GET"@ && d.url@ == "/api/v1/targets"@,
        e.method@ == "POST"@ && e.url@ == d.url@,
        f.method@ == "GET"@ && f.url@ == "/api/v1/incidents"@,
        g.method@ == "GET"@ && g.url@ == "/api/v1/auth/bootstrap"@,
        h.method@ == "POST"@ && h.url@ == g.url@,
        i.method@ == "POST"@ && i.url@ == "/api/v1/auth/magic-link/request"@,
        j.method@ == "POST"@ && j.url@ == "/api/v1/auth/magic-link/verify"@,
{
}

/// Calls that change a thing go to where it is read.
pub proof fn law_changes_go_where_things_are_read(
    id: Id,
    a: Call,
    b: Call,
    c: Call,
    d: Call,
)
    requires
        call_ensures(crate::ui::client::update_status_page, (id,), a),
        call_ensures(crate::ui::client::get_status_page_history, (id,), b),
        call_ensures(crate::ui::client::update_target, (id,), c),
        call_ensures(crate::ui::client::add_incident_update, (id,), d),
    ensures
        a.method@ == "PATCH"@ && a.url@ == "/api/v1/status-pages/"@ + crate::codec::id_text(id),
        b.method@ == "GET"@ && b.url@ == a.url@ + "/history"@,
        c.method@ == "PATCH"@ && c.url@ == "/api/v1/targets/"@ + crate::codec::id_text(id),
        d.method@ == "POST"@ && d.url@ == "/api/v1/incidents/"@ + crate::codec::id_text(id)
            + "/updates"@,
{
}

/// What was listed is shown as it is; where it could not be listed, nothing is but why.
pub proof fn law_what_was_listed_is_shown(
    incidents: Result<Vec<Incident>, String>,
    a: crate::ui::lists::IncidentsView,
    pages: Result<Vec<StatusPage>, String>,
    b: crate::ui::lists::PagesView,
    rows: Result<Vec<MonitorRow>, String>,
    c: crate::ui::lists::TargetsView,
)
    requires
        call_ensures(crate::ui::lists::incidents_view, (incidents,), a),
        call_ensures(crate::ui::lists::pages_view, (pages,), b),
        call_ensures(crate::ui::lists::fetch_target_rows, (rows,), c),
    ensures
        incidents is Ok ==> a.incidents == incidents->Ok_0 && a.error is None,
        incidents is Err ==> a.incidents@.len() == 0 && a.error == Some(incidents->Err_0),
        pages is Ok ==> b.pages == pages->Ok_0 && b.error is None,
        pages is Err ==> b.pages@.len() == 0 && b.error == Some(pages->Err_0),
        rows is Ok ==> c.rows == rows->Ok_0 && c.error is None,
        rows is Err ==> c.rows@.len() == 0 && c.error == Some(rows->Err_0),
{
}

/// New forms are empty, and their buttons say what they do or are doing.
pub proof fn law_forms_start_empty(
    f: crate::ui::login::BootstrapForm,
    g: crate::ui::login::MagicLinkForm,
    x: &crate::ui::login::BootstrapForm,
    y: &crate::ui::login::MagicLinkForm,
    xl: &'static str,
    yl: &'static str,
)
    requires
        call_ensures(crate::ui::login::new_bootstrap_form, (), f),
        call_ensures(crate::ui::login::new_magic_link_form, (), g),
        call_ensures(crate::ui::login::BootstrapForm::button_label, (x,), xl),
        call_ensures(crate::ui::login::MagicLinkForm::button_label, (y,), yl),
    ensures
        f.email@.len() == 0 && f.display_name@.len() == 0 && f.error is None && !f.loading,
        g.email@.len() == 0 && g.token@.len() == 0 && g.error is None && g.info is None
            && !g.loading && g.step == crate::ui::login::MagicLinkStep::Request,
        x.loading ==> xl@ == "Creating..."@,
        !x.loading ==> xl@ == "Create admin account"@,
        y.step == crate::ui::login::MagicLinkStep::Request && y.loading ==> yl@ == "Sending..."@,
        y.step == crate::ui::login::MagicLinkStep::Request && !y.loading ==> yl@
            == "Send sign-in link"@,
        y.step == crate::ui::login::MagicLinkStep::Verify && y.loading ==> yl@ == "Verifying..."@,
        y.step == crate::ui::login::MagicLinkStep::Verify && !y.loading ==> yl@ == "Sign in"@,
{
    assert(f@.email.len() == 0 && f@.display_name.len() == 0 && f@.error is None);
    assert(g@.email.len() == 0 && g@.token.len() == 0 && g@.error is None && g@.info is None);
}

/// Charts are named one by one and drawn where they are named; pages say what they wait
/// for, and how many incidents are ongoing.
pub proof fn law_charts_are_drawn_where_they_are_named(
    n: u64,
    digits: String,
    name: String,
    id: &str,
    plot: &str,
    html: String,
    label: Option<String>,
    waiting: String,
    count: usize,
    many: String,
    ongoing: String,
)
    requires
        call_ensures(crate::ui::shell::chart_id, (n,), name),
        call_ensures(crate::text::decimal_text, (n,), digits),
        call_ensures(crate::ui::shell::chart_html, (id, plot), html),
        call_ensures(crate::ui::shell::loading_text, (label,), waiting),
        call_ensures(crate::ui::public_status_page::ongoing_label, (count,), ongoing),
        call_ensures(crate::text::decimal_text, (count as u64,), many),
    ensures
        name@ == "latency-chart-"@ + digits@,
        html@ == "<div id=\""@ + id@
            + "\" class=\"w-full h-64\" role=\"img\" aria-label=\"Latency over time line chart\"></div><script>(function() {var el = document.getElementById('"@
            + id@ + "');if (el && window.Plotly) {window.Plotly.newPlot(el, "@ + plot@
            + ");}})();</script>"@,
        label is Some ==> waiting == label->0,
        label is None ==> waiting@ == "Loading..."@,
        ongoing@ == many@ + " ongoing"@,
{
}

/// A badge that is asked for is always drawn, and one of which nothing is known says so.
pub proof fn law_badges_are_always_drawn(
    payload: crate::public::badge::BadgePayload,
    label: &str,
    value: &str,
    color: &str,
    svg: String,
    r: TextReply,
    none: TextReply,
    blank: String,
)
    requires
        call_ensures(crate::public::badge::get_badge, (Some(payload),), r),
        label@ == payload.label@,
        value@ == payload.value@,
        color@ == payload.color@,
        call_ensures(crate::public::badge::render_badge_svg, (label, value, color), svg),
        call_ensures(crate::public::badge::get_badge, (None,), none),
        call_ensures(
            crate::public::badge::render_badge_svg,
            ("status", "no data", "#9CA3AF"),
            blank,
        ),
    ensures
        r.status == 200 && none.status == 200,
        r.body@ == svg@,
        none.body@ == blank@,
{
}

/// The history of a component is of the target and of the time asked for.
pub proof fn law_histories_are_of_their_target(
    target_id: Id,
    window: (Moment, Moment),
    history: Vec<crate::domain::DayState>,
    r: crate::public::links::ComponentHistoryResponse,
)
    requires
        call_ensures(
            crate::public::links::get_component_history,
            (target_id, window, history),
            r,
        ),
    ensures
        r.target_id == target_id,
        r.from == window.0,
        r.to == window.1,
        r.history == history,
{
}

/// Without maintenance a target is judged by its results alone.
pub proof fn law_without_maintenance_results_decide(
    target_id: Id,
    results: &Vec<CheckResult>,
    open: Option<Incident>,
    id: Id,
    now: Moment,
    a: crate::engine::incident_writer::IncidentChange,
    b: crate::engine::incident_writer::IncidentChange,
)
    requires
        call_ensures(
            crate::engine::incident_writer::decide_incident_state,
            (target_id, results, open, id, now),
            a,
        ),
        call_ensures(
            crate::engine::incident_writer::evaluate_target,
            (false, target_id, results, open, id, now),
            b,
        ),
    ensures
        a is Open <==> b is Open,
        a is Close <==> b is Close,
        a is Nothing <==> b is Nothing,
{
}

} // verus!
