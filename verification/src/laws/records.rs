//! What operators keep: links, windows, channels, components, incidents, pages,
//! subscriptions and variables.

use vstd::prelude::*;
use vstd::string::*;

use crate::api::components::{
    check_reorder, reorder_components, update_component, StatusPageComponentUpdate,
};
use crate::api::exports::{export_account, AccountExport, ExportReadings};
use crate::api::incidents::{
    apply_incident_ops, create_incident, update_incident, Bookkeeping, IncidentOpsPatch,
    IncidentUpdateBody, NewIncidentBody, Transition,
};
use crate::api::maintenance::{
    active_windows, create_silence_rule, upcoming_windows, update_maintenance_window,
    MaintenanceWindowUpdate, NewSilenceRule,
};
use crate::api::notification_channels::{
    get_channel, list_channels, merge_config, request_verification, test_channel, update_channel,
    ChannelConfig, ChannelKind, NotificationChannel, NotificationChannelUpdate,
    VerificationRequest,
};
use crate::api::page_assets::{
    check_upload, content_type_from_headers, get_public_asset, list_assets, parse_slot,
    uploaded_meta, AssetMeta, AssetPolicy, AssetSlot, PageAsset,
};
use crate::api::share_links::{create_share, MonitorShare};
use crate::api::status_pages::{get_status_page_history, update_status_page, StatusPageUpdate};
use crate::api::subscribers::{verify_subscriber, PageSubscriber, VerifyStep};
use crate::api::variables::{
    create_variable, get_variable, update_variable, CreateVariableBody, Variable,
};
use crate::auth::identity::AuthIdentity;
use crate::codec::Id;
use crate::domain::{
    CheckResult, CheckStatus, Incident, MaintenanceWindow, StatusPage, StatusPageComponent,
};
use crate::error::AppError;
use crate::time::Moment;

verus! {

/// A link keeps of its token the digest alone, and starts without a look.
pub proof fn law_a_link_keeps_the_digest_of_its_token(
    target_id: Id,
    label: Option<String>,
    expires_at: Option<Moment>,
    token: &str,
    id: Id,
    now: Moment,
    r: MonitorShare,
)
    requires
        call_ensures(create_share, (target_id, label, expires_at, token, id, now), r),
    ensures
        r.token_hash@ == crate::codec::hex_text(
            crate::codec::sha256(vstd::utf8::encode_utf8(token@)),
        ),
        r.target_id == target_id,
        r.expires_at == expires_at,
        r.view_count == 0,
        r.last_viewed_at is None,
{
}

/// Whether the key is that of the link, and the link has not run out.
pub open spec fn is_open_to(s: MonitorShare, key: Seq<char>, now: Moment) -> bool {
    s.token_hash@ == key && (s.expires_at is None || now <= s.expires_at->0)
}

/// A key leads to the monitor of the first link it opens, one look is counted there at
/// that time, and nothing else changes; a key that opens none leads nowhere.
pub proof fn law_a_key_leads_to_its_monitor(
    before: Seq<MonitorShare>,
    key: Seq<char>,
    now: Moment,
    r: Option<Id>,
    after: Seq<MonitorShare>,
) -> (k: int)
    requires
        crate::api::share_links::is_resolved(before, key, now, r, after),
    ensures
        after.len() == before.len(),
        r is None ==> after == before && forall|j: int|
            0 <= j < before.len() ==> !is_open_to(#[trigger] before[j], key, now),
        r is Some ==> {
            &&& 0 <= k < before.len()
            &&& is_open_to(before[k], key, now)
            &&& r == Some(before[k].target_id)
            &&& forall|j: int| 0 <= j < k ==> !is_open_to(#[trigger] before[j], key, now)
            &&& forall|j: int| 0 <= j < before.len() && j != k ==> #[trigger] after[j] == before[j]
            &&& before[k].view_count < u64::MAX ==> after[k].view_count == before[k].view_count
                + 1
            &&& before[k].view_count == u64::MAX ==> after[k].view_count == u64::MAX
            &&& after[k].last_viewed_at == Some(now)
            &&& after[k].id == before[k].id
            &&& after[k].target_id == before[k].target_id
            &&& after[k].label == before[k].label
            &&& after[k].token_hash == before[k].token_hash
            &&& after[k].expires_at == before[k].expires_at
            &&& after[k].created_at == before[k].created_at
        },
{
    match r {
        Some(t) => {
            let k = choose|k: int|
                {
                    &&& #[trigger] crate::api::share_links::is_first_opened(before, key, now, k)
                    &&& t == before[k].target_id
                    &&& after == before.update(
                        k,
                        crate::api::share_links::viewed(before[k], now),
                    )
                };
            assert forall|j: int| 0 <= j < k implies !is_open_to(
                #[trigger] before[j],
                key,
                now,
            ) by {
                assert(!crate::api::share_links::opens(before[j], key, now));
            }
            k
        },
        None => {
            assert forall|j: int| 0 <= j < before.len() implies !is_open_to(
                #[trigger] before[j],
                key,
                now,
            ) by {
                assert(!crate::api::share_links::opens(before[j], key, now));
            }
            0
        },
    }
}

/// A window that was changed has what was asked for, and the rest as before.
pub proof fn law_windows_change_as_asked_for(
    window: MaintenanceWindow,
    update: MaintenanceWindowUpdate,
    now: Moment,
    r: Result<MaintenanceWindow, AppError>,
)
    requires
        call_ensures(update_maintenance_window, (window, update, now), r),
    ensures
        r matches Ok(w) ==> {
            &&& w.id == window.id
            &&& w.created_at == window.created_at
            &&& w.updated_at == now
            &&& w.starts_at < w.ends_at
            &&& update.title is Some ==> update.title == Some(w.title)
            &&& update.title is None ==> w.title == window.title
            &&& update.description is Some ==> w.description == update.description
            &&& update.description is None ==> w.description == window.description
            &&& update.starts_at is Some ==> update.starts_at == Some(w.starts_at)
            &&& update.starts_at is None ==> w.starts_at == window.starts_at
            &&& update.ends_at is Some ==> update.ends_at == Some(w.ends_at)
            &&& update.ends_at is None ==> w.ends_at == window.ends_at
            &&& update.component_ids is Some ==> update.component_ids == Some(w.component_ids)
            &&& update.component_ids is None ==> w.component_ids == window.component_ids
        },
        update.starts_at is None && update.ends_at is None && window.starts_at < window.ends_at
            ==> r is Ok,
        update.starts_at is Some && update.ends_at is Some ==> (r is Ok <==> update.starts_at->0
            < update.ends_at->0),
        update.starts_at is Some && update.ends_at is None ==> (r is Ok <==> update.starts_at->0
            < window.ends_at),
        update.starts_at is None && update.ends_at is Some ==> (r is Ok <==> window.starts_at
            < update.ends_at->0),
{
}

/// A window is running from its start on until before its end, and is yet to come before
/// its start: at no time both. Those that are found keep their order.
pub proof fn law_windows_are_found_by_their_time(
    windows: Vec<MaintenanceWindow>,
    now: Moment,
    active: Vec<MaintenanceWindow>,
    upcoming: Vec<MaintenanceWindow>,
)
    requires
        call_ensures(active_windows, (windows, now), active),
        call_ensures(upcoming_windows, (windows, now), upcoming),
    ensures
        active@ == windows@.filter(|w: MaintenanceWindow| w.starts_at <= now < w.ends_at),
        upcoming@ == windows@.filter(|w: MaintenanceWindow| w.starts_at > now),
{
    let running = |w: MaintenanceWindow| crate::api::maintenance::is_running(w, now);
    let at = |w: MaintenanceWindow| w.starts_at <= now < w.ends_at;
    assert(running =~= at);
    let coming = |w: MaintenanceWindow| crate::api::maintenance::is_upcoming(w, now);
    let later = |w: MaintenanceWindow| w.starts_at > now;
    assert(coming =~= later);
}

/// A silence has to end after it starts, and only a browser session may silence all.
pub proof fn law_silences_have_their_terms(
    new: &NewSilenceRule,
    identity: &AuthIdentity,
    r: Result<(), AppError>,
)
    requires
        call_ensures(create_silence_rule, (new, identity), r),
    ensures
        r is Ok <==> new.ends_at > new.starts_at && (new.target_id is None ==> *identity
            is Session),
        r is Err && new.ends_at > new.starts_at ==> r->Err_0 is ForbiddenCoded,
        r is Err && new.ends_at <= new.starts_at ==> r->Err_0 is BadRequest,
{
}

/// What is shown of a channel hides its secret, and only that.
pub proof fn law_channels_are_shown_without_their_secrets(
    channel: NotificationChannel,
    r: NotificationChannel,
)
    requires
        call_ensures(get_channel, (channel,), r),
    ensures
        r.id == channel.id,
        r.name == channel.name,
        r.kind == channel.kind,
        r.enabled == channel.enabled,
        r.verified_at == channel.verified_at,
        r.disabled_reason == channel.disabled_reason,
        channel.config is Email ==> r.config == channel.config,
        channel.config is Secret ==> (r.config matches ChannelConfig::Secret { url } && url@
            == "********"@),
{
}

/// Channels are listed as each is shown alone.
pub proof fn law_channels_are_listed_without_their_secrets(
    channels: Vec<NotificationChannel>,
    r: Vec<NotificationChannel>,
    i: int,
)
    requires
        call_ensures(list_channels, (channels,), r),
        0 <= i < channels@.len(),
    ensures
        r@.len() == channels@.len(),
        r@[i].id == channels@[i].id,
        r@[i].name == channels@[i].name,
        r@[i].kind == channels@[i].kind,
        r@[i].enabled == channels@[i].enabled,
        r@[i].verified_at == channels@[i].verified_at,
        channels@[i].config is Email ==> r@[i].config == channels@[i].config,
        channels@[i].config is Secret ==> (r@[i].config matches ChannelConfig::Secret { url }
            && url@ == "********"@),
{
    assert(crate::api::notification_channels::shown_as(channels@[i], r@[i]));
}

/// A channel that is sent in as it was shown keeps its address; any other address that is
/// sent in takes its place.
pub proof fn law_a_mask_stands_for_what_it_hides(
    stored: ChannelConfig,
    submitted: ChannelConfig,
    r: ChannelConfig,
)
    requires
        call_ensures(merge_config, (stored, submitted), r),
    ensures
        submitted is Email ==> r == submitted,
        submitted is Secret && submitted->url@ == "********"@ && stored is Secret ==> r == stored,
        submitted is Secret && submitted->url@ != "********"@ ==> r == submitted,
{
}

/// A change of a channel sets what it names and leaves the rest; faults of the name or of
/// the address refuse it only where that is to be changed.
pub proof fn law_channels_change_as_asked_for(
    channel: NotificationChannel,
    update: NotificationChannelUpdate,
    name_check: Result<(), String>,
    config_check: Result<(), String>,
    r: Result<NotificationChannel, AppError>,
)
    requires
        call_ensures(update_channel, (channel, update, name_check, config_check), r),
    ensures
        r is Err <==> (update.name is Some && name_check is Err) || (update.config is Some
            && config_check is Err),
        r matches Ok(c) ==> {
            &&& c.id == channel.id
            &&& c.kind == channel.kind
            &&& c.verified_at == channel.verified_at
            &&& c.disabled_reason == channel.disabled_reason
            &&& update.name is Some ==> update.name == Some(c.name)
            &&& update.name is None ==> c.name == channel.name
            &&& update.enabled is Some ==> update.enabled == Some(c.enabled)
            &&& update.enabled is None ==> c.enabled == channel.enabled
            &&& update.config is None ==> c.config == channel.config
            &&& update.config is Some ==> update.config == Some(c.config) || c.config
                == channel.config
            &&& update.config is Some && update.config->0 is Email ==> update.config == Some(
                c.config,
            )
        },
{
}

/// A channel is tried only where it is switched on; its address is to be confirmed only
/// where it is a mail channel that is switched on and was not confirmed before.
pub proof fn law_channels_are_tried_and_confirmed_when_on(
    channel: &NotificationChannel,
    token: &str,
    base_url: &str,
    now: Moment,
    tried: Result<String, AppError>,
    asked: Result<VerificationRequest, AppError>,
)
    requires
        call_ensures(test_channel, (channel,), tried),
        call_ensures(request_verification, (channel, token, base_url, now), asked),
    ensures
        tried is Ok <==> channel.enabled,
        asked is Ok <==> channel.kind is Email && channel.verified_at is None && channel.enabled
            && channel.config is Email,
        asked matches Ok(v) ==> {
            &&& v.channel_id == channel.id
            &&& v.channel_name@ == channel.name@
            &&& v.to@ == channel.config->to@
            &&& v.expires_at - now == 24 * 3_600 * 1_000_000_000
            &&& v.expires_hours == 24
            &&& v.token_hash@ == crate::codec::hex_text(
                crate::codec::sha256(vstd::utf8::encode_utf8(token@)),
            )
        },
        asked is Err && !(channel.kind is Email) ==> asked->Err_0 is Conflict,
        asked is Err && channel.kind is Email && channel.verified_at is Some ==> asked->Err_0
            is Conflict,
{
}

/// Both links of a confirmation lead back to the server and end with the token; one is to
/// confirm, the other to decline.
pub proof fn law_confirmations_lead_back(
    channel: &NotificationChannel,
    token: &str,
    base_url: &str,
    bare: String,
    now: Moment,
    asked: Result<VerificationRequest, AppError>,
)
    requires
        call_ensures(request_verification, (channel, token, base_url, now), asked),
        call_ensures(crate::text::trim_end_slashes, (base_url,), bare),
    ensures
        asked matches Ok(v) ==> v.verify_url@ == bare@
            + "/api/public/v1/notification-channels/verify?token="@ + token@ && v.decline_url@
            == bare@ + "/api/public/v1/notification-channels/decline?token="@ + token@,
{
}

/// Channels are stored under the names of their sorts.
pub proof fn law_channels_are_stored_under_their_names(kind: &ChannelKind, r: &str)
    requires
        call_ensures(ChannelKind::as_db_str, (kind,), r),
    ensures
        *kind is Email ==> r@ == "email"@,
        *kind is Webhook ==> r@ == "webhook"@,
        *kind is Slack ==> r@ == "slack"@,
        *kind matches ChannelKind::Other { name } ==> r@ == name@,
{
}

/// Whether the first component of a target stands at `k`.
pub open spec fn is_first_of(components: Seq<StatusPageComponent>, target_id: Id, k: int) -> bool {
    &&& 0 <= k < components.len()
    &&& components[k].target_id == target_id
    &&& forall|j: int| 0 <= j < k ==> (#[trigger] components[j]).target_id != target_id
}

/// Where a component is found, it is the first of its target.
proof fn lemma_component_of(components: Seq<StatusPageComponent>, target_id: Id, i: nat, k: int)
    requires
        is_first_of(components, target_id, k),
        i <= k,
    ensures
        crate::api::components::component_of(components, target_id, i) == Some(components[k]),
    decreases components.len() - i,
{
    if i < k {
        assert(components[i as int].target_id != target_id);
        lemma_component_of(components, target_id, i + 1, k);
    }
}

/// A component that is found is one of the target.
proof fn lemma_component_found(components: Seq<StatusPageComponent>, target_id: Id, i: nat)
    ensures
        crate::api::components::component_of(components, target_id, i) is Some ==> exists|k: int|
            i <= k < components.len() && (#[trigger] components[k]).target_id == target_id,
    decreases components.len() - i,
{
    if i < components.len() && components[i as int].target_id != target_id {
        lemma_component_found(components, target_id, i + 1);
    }
}

/// A change of a component sets what it names, clears what it clears and leaves the rest;
/// a target that is not on the page is not found.
pub proof fn law_components_change_as_asked_for(
    components: Vec<StatusPageComponent>,
    page_id: Id,
    target_id: Id,
    update: StatusPageComponentUpdate,
    r: Result<StatusPageComponent, AppError>,
    k: int,
)
    requires
        call_ensures(update_component, (components, page_id, target_id, update), r),
    ensures
        is_first_of(components@, target_id, k) ==> (r matches Ok(c) && {
            let old_c = components@[k];
            &&& c.target_id == target_id
            &&& c.monitor_name == old_c.monitor_name
            &&& update.public_name is Some ==> c.public_name == update.public_name->0
            &&& update.public_name is None ==> c.public_name == old_c.public_name
            &&& update.public_description is Some ==> c.public_description
                == update.public_description->0
            &&& update.public_description is None ==> c.public_description
                == old_c.public_description
            &&& update.public_group is Some ==> c.public_group == update.public_group->0
            &&& update.public_group is None ==> c.public_group == old_c.public_group
            &&& update.sort_order is Some ==> c.sort_order == update.sort_order->0
            &&& update.sort_order is None ==> c.sort_order == old_c.sort_order
        }),
        (forall|j: int|
            0 <= j < components@.len() ==> (#[trigger] components@[j]).target_id != target_id)
            ==> (r matches Err(e) && e is NotFound),
{
    if is_first_of(components@, target_id, k) {
        lemma_component_of(components@, target_id, 0, k);
    }
    lemma_component_found(components@, target_id, 0);
}

/// One request puts from 1 to 500 components in order.
pub proof fn law_orders_have_their_limits(count: usize, r: Result<(), AppError>)
    requires
        call_ensures(check_reorder, (count,), r),
    ensures
        r is Ok <==> 1 <= count <= 500,
{
}

/// A component takes the place at which its target is named last, and keeps its own where
/// its target is not named; nothing else of it changes.
pub proof fn law_components_take_their_places(
    components: Vec<StatusPageComponent>,
    ids: &Vec<Id>,
    r: Vec<StatusPageComponent>,
    i: int,
    place: int,
)
    requires
        1 <= ids@.len() <= 500,
        call_ensures(reorder_components, (components, ids), r),
        0 <= i < components@.len(),
    ensures
        r@.len() == components@.len(),
        r@[i].target_id == components@[i].target_id,
        r@[i].monitor_name == components@[i].monitor_name,
        r@[i].public_name == components@[i].public_name,
        r@[i].public_description == components@[i].public_description,
        r@[i].public_group == components@[i].public_group,
        !ids@.contains(components@[i].target_id) ==> r@[i].sort_order
            == components@[i].sort_order,
        0 <= place < ids@.len() && ids@[place] == components@[i].target_id && (forall|j: int|
            place < j < ids@.len() ==> #[trigger] ids@[j] != components@[i].target_id)
            ==> r@[i].sort_order == place,
{
    let id = components@[i].target_id;
    assert(r@[i] == crate::api::components::placed(components@[i], ids@));
    lemma_place(ids@, id);
    if 0 <= place < ids@.len() && ids@[place] == id && (forall|j: int|
        place < j < ids@.len() ==> #[trigger] ids@[j] != id) {
        let p = crate::api::components::place_of(ids@, id);
        assert(p is Some);
        if p->0 < place {
            assert(ids@[place] != id);
        }
        if place < p->0 {
            assert(ids@[p->0] != id);
        }
    }
}

/// The place of what is named is the last at which it is.
proof fn lemma_place(ids: Seq<Id>, id: Id)
    ensures
        match crate::api::components::place_of(ids, id) {
            Some(p) => 0 <= p < ids.len() && ids[p] == id && forall|j: int|
                p < j < ids.len() ==> #[trigger] ids[j] != id,
            None => forall|j: int| 0 <= j < ids.len() ==> #[trigger] ids[j] != id,
        },
    decreases ids.len(),
{
    if ids.len() > 0 && ids.last() != id {
        let head = ids.drop_last();
        lemma_place(head, id);
        let from: int = match crate::api::components::place_of(head, id) {
            Some(p) => p + 1,
            None => 0,
        };
        assert forall|j: int| from <= j < ids.len() implies #[trigger] ids[j] != id by {
            if j < head.len() {
                assert(head[j] != id);
            }
        }
    }
}

/// An incident that is opened by hand is of now, down, open, and tells nothing but what
/// it was opened with.
pub proof fn law_incidents_are_opened_as_asked_for(
    body: NewIncidentBody,
    id: Id,
    now: Moment,
    r: Incident,
)
    requires
        call_ensures(create_incident, (body, id, now), r),
    ensures
        r.id == id,
        body.target_id is Some ==> body.target_id == Some(r.target_id),
        body.target_id is None ==> r.target_id == 0,
        r.started_at == now,
        r.ended_at is None,
        r.status == CheckStatus::Down,
        r.duration_secs is None,
        r.check_count == 0,
        r.error_sample is None,
        r.severity == body.severity,
        r.public_title == body.public_title,
        r.public_description == body.public_description,
        r.created_at == Some(now),
        r.updated_at == Some(now),
        r.updates@.len() == 0,
{
}

/// A change of an incident sets what it names and leaves the rest.
pub proof fn law_incidents_change_as_asked_for(
    incident: Incident,
    body: IncidentUpdateBody,
    now: Moment,
    r: Incident,
)
    requires
        call_ensures(update_incident, (incident, body, now), r),
    ensures
        r.id == incident.id,
        r.target_id == incident.target_id,
        r.started_at == incident.started_at,
        r.created_at == incident.created_at,
        r.updates == incident.updates,
        r.duration_secs == incident.duration_secs,
        r.check_count == incident.check_count,
        r.error_sample == incident.error_sample,
        r.regions_down == incident.regions_down,
        r.regions_up == incident.regions_up,
        r.updated_at == Some(now),
        body.severity is Some ==> body.severity == Some(r.severity),
        body.severity is None ==> r.severity == incident.severity,
        body.status is Some ==> body.status == Some(r.status),
        body.status is None ==> r.status == incident.status,
        body.ended_at is Some ==> r.ended_at == body.ended_at,
        body.ended_at is None ==> r.ended_at == incident.ended_at,
        body.public_title is Some ==> r.public_title == body.public_title,
        body.public_title is None ==> r.public_title == incident.public_title,
        body.public_description is Some ==> r.public_description == body.public_description,
        body.public_description is None ==> r.public_description == incident.public_description,
{
}

/// What an operator does to an incident reaches its escalation: paging stops once it is
/// acknowledged, the escalation is over once it is resolved, and nothing else touches it.
pub proof fn law_operators_reach_the_escalation(
    transition: Transition,
    patch: IncidentOpsPatch,
    r: Bookkeeping,
)
    requires
        call_ensures(Transition::to_patch, (transition,), patch),
        call_ensures(apply_incident_ops, (&patch,), r),
    ensures
        transition == Transition::Acknowledge <==> r == Bookkeeping::Acknowledge,
        transition == Transition::Resolve <==> r == Bookkeeping::Delete,
        transition == Transition::Reopen <==> r == Bookkeeping::Leave,
        transition == Transition::Acknowledge ==> patch.transition->0@ == "acknowledge"@,
        transition == Transition::Resolve ==> patch.transition->0@ == "resolve"@,
        transition == Transition::Reopen ==> patch.transition->0@ == "reopen"@,
{
    crate::api::incidents::law_transitions_are_told_apart(transition, Transition::Acknowledge);
}

/// A change of a page sets what it names and leaves the rest.
pub proof fn law_pages_change_as_asked_for(
    page: StatusPage,
    update: StatusPageUpdate,
    now: Moment,
    r: StatusPage,
)
    requires
        call_ensures(update_status_page, (page, update, now), r),
    ensures
        r.id == page.id,
        r.org_id == page.org_id,
        r.created_at == page.created_at,
        r.updated_at == now,
        update.slug is Some ==> update.slug == Some(r.slug),
        update.slug is None ==> r.slug == page.slug,
        update.name is Some ==> update.name == Some(r.name),
        update.name is None ==> r.name == page.name,
        update.enabled is Some ==> update.enabled == Some(r.enabled),
        update.enabled is None ==> r.enabled == page.enabled,
        update.branding is Some ==> update.branding == Some(r.branding),
        update.branding is None ==> r.branding == page.branding,
{
}

/// A chart has a point for each result, the one given last first.
pub proof fn law_charts_start_with_the_last_result(
    results: &Vec<CheckResult>,
    r: Vec<(String, u32)>,
    i: int,
    date: String,
)
    requires
        call_ensures(get_status_page_history, (results,), r),
        0 <= i < results@.len(),
        call_ensures(crate::time::to_rfc3339, (results@[results@.len() - 1 - i].timestamp,), date),
    ensures
        r@.len() == results@.len(),
        r@[i].0@ == date@,
        r@[i].1 == results@[results@.len() - 1 - i].duration_ms,
{
    assert(r@[i].1 == results@[results@.len() - 1 - i].duration_ms);
}

/// A subscriber is found by identifier: one that was confirmed stands, one that was not is
/// to be confirmed, and one that is not there is not found.
pub proof fn law_subscribers_are_confirmed_once(
    subscribers: Vec<PageSubscriber>,
    page_id: Id,
    id: Id,
    r: Result<VerifyStep, AppError>,
    k: int,
)
    requires
        call_ensures(verify_subscriber, (subscribers, page_id, id), r),
    ensures
        0 <= k < subscribers@.len() && subscribers@[k].id == id && (forall|j: int|
            0 <= j < k ==> (#[trigger] subscribers@[j]).id != id) ==> {
            &&& subscribers@[k].verified_at is Some ==> r == Ok::<VerifyStep, AppError>(
                VerifyStep::Already(subscribers@[k]),
            )
            &&& subscribers@[k].verified_at is None ==> r == Ok::<VerifyStep, AppError>(
                VerifyStep::Confirm,
            )
        },
        (forall|j: int| 0 <= j < subscribers@.len() ==> (#[trigger] subscribers@[j]).id != id)
            ==> (r matches Err(e) && e is NotFound),
{
    if 0 <= k < subscribers@.len() && subscribers@[k].id == id && (forall|j: int|
        0 <= j < k ==> (#[trigger] subscribers@[j]).id != id) {
        lemma_subscriber_of(subscribers@, id, 0, k);
    }
    lemma_subscriber_found(subscribers@, id, 0);
}

/// A subscriber is found at the first place of its identifier.
proof fn lemma_subscriber_of(subscribers: Seq<PageSubscriber>, id: Id, i: nat, k: int)
    requires
        i <= k < subscribers.len(),
        subscribers[k].id == id,
        forall|j: int| 0 <= j < k ==> (#[trigger] subscribers[j]).id != id,
    ensures
        crate::api::subscribers::subscriber_of(subscribers, id, i) == Some(subscribers[k]),
    decreases subscribers.len() - i,
{
    if i < k {
        assert(subscribers[i as int].id != id);
        lemma_subscriber_of(subscribers, id, i + 1, k);
    }
}

/// A subscriber that is found has the identifier.
proof fn lemma_subscriber_found(subscribers: Seq<PageSubscriber>, id: Id, i: nat)
    ensures
        crate::api::subscribers::subscriber_of(subscribers, id, i) is Some ==> exists|k: int|
            i <= k < subscribers.len() && (#[trigger] subscribers[k]).id == id,
    decreases subscribers.len() - i,
{
    if i < subscribers.len() && subscribers[i as int].id != id {
        lemma_subscriber_found(subscribers, id, i + 1);
    }
}

/// A variable is found by identifier and a new value takes the place of the old one, but
/// that of a secret is neither shown nor changed here; one that is not there is not found.
pub proof fn law_variables_are_found_and_changed(
    variables: Vec<Variable>,
    id: Id,
    value: Option<String>,
    now: Moment,
    got: Result<Variable, AppError>,
    r: Result<Variable, AppError>,
    k: int,
)
    requires
        call_ensures(get_variable, (variables, id), got),
        call_ensures(update_variable, (variables, id, value, now), r),
    ensures
        0 <= k < variables@.len() && variables@[k].id == id && (forall|j: int|
            0 <= j < k ==> (#[trigger] variables@[j]).id != id) ==> {
            &&& got == Ok::<Variable, AppError>(variables@[k])
            &&& r matches Ok(v) && {
                let was = variables@[k];
                &&& v.id == was.id
                &&& v.org_id == was.org_id
                &&& v.key == was.key
                &&& v.is_secret == was.is_secret
                &&& v.updated_by == was.updated_by
                &&& v.updated_at == now
                &&& value is Some && !was.is_secret ==> v.value == value
                &&& value is None || was.is_secret ==> v.value == was.value
            }
        },
        (forall|j: int| 0 <= j < variables@.len() ==> (#[trigger] variables@[j]).id != id) ==> {
            &&& got matches Err(e) && e is NotFound
            &&& r matches Err(e) && e is NotFound
        },
{
    if 0 <= k < variables@.len() && variables@[k].id == id && (forall|j: int|
        0 <= j < k ==> (#[trigger] variables@[j]).id != id) {
        lemma_variable_of(variables@, id, 0, k);
    }
    lemma_variable_found(variables@, id, 0);
}

/// A variable is found at the first place of its identifier.
proof fn lemma_variable_of(variables: Seq<Variable>, id: Id, i: nat, k: int)
    requires
        i <= k < variables.len(),
        variables[k].id == id,
        forall|j: int| 0 <= j < k ==> (#[trigger] variables[j]).id != id,
    ensures
        crate::api::variables::variable_of(variables, id, i) == Some(variables[k]),
    decreases variables.len() - i,
{
    if i < k {
        assert(variables[i as int].id != id);
        lemma_variable_of(variables, id, i + 1, k);
    }
}

/// A variable that is found has the identifier.
proof fn lemma_variable_found(variables: Seq<Variable>, id: Id, i: nat)
    ensures
        crate::api::variables::variable_of(variables, id, i) is Some ==> exists|k: int|
            i <= k < variables.len() && (#[trigger] variables[k]).id == id,
    decreases variables.len() - i,
{
    if i < variables.len() && variables[i as int].id != id {
        lemma_variable_found(variables, id, i + 1);
    }
}

/// The value of a variable is told back when it is made, unless it is a secret.
pub proof fn law_new_secrets_are_not_told_back(
    body: CreateVariableBody,
    key_check: Result<(), String>,
    id: Id,
    now: Moment,
    r: Result<Variable, AppError>,
)
    requires
        call_ensures(create_variable, (body, key_check, id, now), r),
    ensures
        r is Ok <==> key_check is Ok,
        r matches Ok(v) ==> v.key == body.key && v.is_secret == body.is_secret && v.id == id
            && v.updated_at == now && (body.is_secret ==> v.value is None) && (!body.is_secret
            ==> v.value == Some(body.value)),
{
}

/// An export holds each part that was read, and nothing for one that was not; each page's
/// components follow those of the pages before it.
pub proof fn law_exports_hold_what_was_read(
    readings: ExportReadings,
    now: Moment,
    r: AccountExport,
)
    requires
        call_ensures(export_account, (readings, now), r),
    ensures
        r.exported_at == now,
        r.version == 1,
        readings.targets is Some ==> r.targets@ == readings.targets->0@,
        readings.targets is None ==> r.targets@.len() == 0,
        readings.status_pages is Some ==> r.status_pages@ == readings.status_pages->0@,
        readings.status_pages is None ==> r.status_pages@.len() == 0,
        readings.incidents is Some ==> r.incidents@ == readings.incidents->0@,
        readings.incidents is None ==> r.incidents@.len() == 0,
        readings.maintenance_windows is Some ==> r.maintenance_windows@
            == readings.maintenance_windows->0@,
        readings.maintenance_windows is None ==> r.maintenance_windows@.len() == 0,
        readings.notification_channels is Some ==> r.notification_channels@
            == readings.notification_channels->0@,
        readings.notification_channels is None ==> r.notification_channels@.len() == 0,
        readings.silence_rules is Some ==> r.silence_rules@ == readings.silence_rules->0@,
        readings.silence_rules is None ==> r.silence_rules@.len() == 0,
        readings.components@.len() == 0 ==> r.components@.len() == 0,
{
}

/// Each component that was read of some page is in the export.
pub proof fn law_exports_hold_every_component(
    readings: ExportReadings,
    now: Moment,
    r: AccountExport,
    p: int,
    k: int,
) -> (place: int)
    requires
        call_ensures(export_account, (readings, now), r),
        0 <= p < readings.components@.len(),
        readings.components@[p] is Some,
        0 <= k < readings.components@[p]->0@.len(),
    ensures
        0 <= place < r.components@.len(),
        r.components@[place] == readings.components@[p]->0@[k],
{
    lemma_all_read(readings.components@, p, k)
}

/// Where a component that was read stands among all that were.
proof fn lemma_all_read(readings: Seq<Option<Vec<StatusPageComponent>>>, p: int, k: int) -> (place:
    int)
    requires
        0 <= p < readings.len(),
        readings[p] is Some,
        0 <= k < readings[p]->0@.len(),
    ensures
        0 <= place < crate::api::exports::all_read(readings).len(),
        crate::api::exports::all_read(readings)[place] == readings[p]->0@[k],
    decreases readings.len(),
{
    let head = readings.drop_last();
    if p < readings.len() - 1 {
        assert(head[p] == readings[p]);
        lemma_all_read(head, p, k)
    } else {
        crate::api::exports::all_read(head).len() + k
    }
}

/// A file goes into a slot where its type is among those taken and it is no larger than
/// the slot takes.
pub proof fn law_slots_take_what_they_allow(
    slot: AssetSlot,
    policy: &AssetPolicy,
    content_type: &str,
    size: u64,
    r: Result<(), AppError>,
)
    requires
        call_ensures(check_upload, (slot, policy, content_type, size), r),
    ensures
        r is Ok <==> size <= policy.max_byte_size && exists|i: int|
            0 <= i < policy.allowed_content_types@.len() && (
            #[trigger] policy.allowed_content_types@[i])@ == content_type@,
        r is Err ==> r->Err_0 is BadRequest || r->Err_0 is PayloadTooLarge,
{
}

/// The only slot is the logo's, and the public may ask for it on published pages alone.
pub proof fn law_the_logo_is_the_only_slot(
    page_enabled: bool,
    slot: &str,
    parsed: Result<AssetSlot, AppError>,
    public: Result<AssetSlot, AppError>,
)
    requires
        call_ensures(parse_slot, (slot,), parsed),
        call_ensures(get_public_asset, (page_enabled, slot), public),
    ensures
        parsed is Ok <==> slot@ == "logo"@,
        public is Ok <==> page_enabled && slot@ == "logo"@,
        !page_enabled ==> public is Err && public->Err_0 is NotFound,
{
}

/// The type of a file is what its header says before the first semicolon, trimmed.
pub proof fn law_the_type_stands_before_the_parameters(
    header: &[u8],
    mime: &str,
    bare: String,
    rest: Seq<char>,
    r: Result<String, AppError>,
)
    requires
        call_ensures(content_type_from_headers, (Some(header),), r),
        crate::codec::all_visible(header@),
        forall|i: int| 0 <= i < mime@.len() ==> mime@[i] != ';',
        crate::codec::ascii_text(header@) == mime@ || crate::codec::ascii_text(header@) == mime@
            + seq![';'] + rest,
        call_ensures(crate::text::trim, (mime,), bare),
    ensures
        bare@.len() > 0 ==> (r matches Ok(t) && t@ == bare@),
        bare@.len() == 0 ==> r is Err,
{
    let text = crate::codec::ascii_text(header@);
    let n = mime@.len() as int;
    if text != mime@ {
        assert(text[n] == ';');
        assert forall|j: int| 0 <= j < n implies text[j] != ';' by {
            assert(text[j] == mime@[j]);
        }
    }
    crate::text::lemma_first_index_is(text, ';', n);
    assert(text.take(n) =~= mime@);
}

/// What is told of a file is as it is kept; its content comes along only right after it
/// was sent in.
pub proof fn law_files_are_told_of_as_kept(
    assets: Vec<PageAsset>,
    listed: Vec<AssetMeta>,
    i: int,
    told: AssetMeta,
)
    requires
        call_ensures(list_assets, (assets,), listed),
        0 <= i < assets@.len(),
        call_ensures(uploaded_meta, (assets@[i],), told),
    ensures
        listed@.len() == assets@.len(),
        listed@[i].data is None,
        told.data matches Some(d) && d@ == crate::codec::base64_text(assets@[i].data@),
        listed@[i].slot@ == "logo"@,
        told.slot@ == "logo"@,
        listed@[i].content_type == assets@[i].content_type,
        told.content_type == assets@[i].content_type,
        listed@[i].hash == assets@[i].hash,
        told.hash == assets@[i].hash,
        listed@[i].created_at == assets@[i].created_at,
        told.created_at == assets@[i].created_at,
        listed@[i].updated_at == assets@[i].updated_at,
        told.updated_at == assets@[i].updated_at,
{
    assert(crate::api::page_assets::tells_of(listed@[i], assets@[i]));
}

/// What was read of one page more comes after all the rest.
pub proof fn law_exports_keep_the_order_of_pages(
    readings: ExportReadings,
    now: Moment,
    r: AccountExport,
    more: ExportReadings,
    s: AccountExport,
    part: Option<Vec<StatusPageComponent>>,
)
    requires
        call_ensures(export_account, (readings, now), r),
        call_ensures(export_account, (more, now), s),
        more.components@ == readings.components@.push(part),
    ensures
        part is Some ==> s.components@ == r.components@ + part->0@,
        part is None ==> s.components@ == r.components@,
{
    assert(more.components@.drop_last() =~= readings.components@);
    assert(more.components@.last() == part);
    assert(r.components@ + Seq::<StatusPageComponent>::empty() =~= r.components@);
}

} // verus!
