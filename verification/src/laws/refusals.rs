//! What those are told whose requests are refused.

use vstd::prelude::*;
use vstd::string::*;

use crate::api::bulk::{
    check_bulk_action, check_bulk_create, invalid_action_body, invalid_create_body,
};
use crate::api::components::{check_reorder, update_component, StatusPageComponentUpdate};
use crate::api::escalation_policies::{
    validate_new_policy, validate_target, NewEscalationPolicy, NewEscalationTarget,
};
use crate::api::maintenance::{
    create_maintenance_window, create_silence_rule, update_maintenance_window,
    MaintenanceWindowUpdate, NewMaintenanceWindow, NewSilenceRule,
};
use crate::api::notification_channels::{
    check_channel, request_verification, test_channel, update_channel, NotificationChannel,
    NotificationChannelUpdate, VerificationRequest,
};
use crate::api::on_call_schedules::{
    create_override, validate_schedule_in, NewOnCallOverride, NewOnCallSchedule, OnCallOverride,
};
use crate::api::page_assets::{
    check_upload, content_type_from_headers, get_asset, get_public_asset, parse_slot, AssetPolicy,
    AssetSlot, PageAsset,
};
use crate::api::postmortems::{get_postmortem, publish_postmortem, unpublish_postmortem};
use crate::api::subscribers::{verify_subscriber, PageSubscriber, VerifyStep};
use crate::api::targets::{
    check_target_now, list_targets, parse_status, record_failure, record_heartbeat_ping,
    test_target_spec, TargetRollup, TargetsQuery,
};
use crate::api::variables::{
    create_variable, get_variable, update_variable, CreateVariableBody, Variable,
};
use crate::auth::identity::{
    csrf_guard, csrf_guard_middleware, require_session, AuthIdentity, Rejection, RequireSession,
    User,
};
use crate::auth::service::{get_token, ApiTokenInfo, AuthService, NewUser, SessionInfo};
use crate::codec::Id;
use crate::domain::{
    CheckSpec, CheckStatus, IncidentPostmortem, MaintenanceWindow, PublicIncident,
    StatusPageComponent, Target,
};
use crate::engine::escalation::EscalationTargetType;
use crate::error::{
    bad_request, conflict, forbidden_code, not_found, payload_too_large, ApiError, AppError,
};
use crate::public::incident::{get_public_incident, IncidentRecord};
use crate::public::links::{share_key, shared_target};
use crate::time::Moment;

verus! {

/// `e` is of this status, and tells this code and message. What a fault of the server tells
/// is for the log.
pub open spec fn tells(e: AppError, status: int, code: Seq<char>, message: Seq<char>) -> bool {
    match e {
        AppError::BadRequest { code: c, message: m, field: f } => status == 400 && c@ == code && m@
            == message && f is None,
        AppError::ForbiddenCoded { code: c, message: m } => status == 403 && c@ == code && m@
            == message,
        AppError::NotFound { code: c, message: m } => status == 404 && c@ == code && m@
            == message,
        AppError::Conflict { code: c, message: m } => status == 409 && c@ == code && m@
            == message,
        AppError::PayloadTooLarge { code: c, message: m } => status == 413 && c@ == code && m@
            == message,
        AppError::Internal { code: c, log: l } => status == 500 && c@ == code && l@ == message,
        _ => false,
    }
}

/// Errors are made of the code and the message given.
pub proof fn law_errors_tell_what_they_are_made_of(
    code: &'static str,
    message: String,
    a: AppError,
    b: AppError,
    c: AppError,
    d: AppError,
    e: AppError,
)
    requires
        call_ensures(bad_request, (code, message), a),
        call_ensures(forbidden_code, (code, message), b),
        call_ensures(not_found, (code, message), c),
        call_ensures(conflict, (code, message), d),
        call_ensures(payload_too_large, (code, message), e),
    ensures
        tells(a, 400, code@, message@),
        tells(b, 403, code@, message@),
        tells(c, 404, code@, message@),
        tells(d, 409, code@, message@),
        tells(e, 413, code@, message@),
{
}

/// What is told of a rejection that is neither 401 nor 403 goes to the log.
pub proof fn law_other_rejections_go_to_the_log(
    status: u16,
    message: String,
    digits: String,
    r: ApiError,
)
    requires
        call_ensures(ApiError::from_rejection, (status, message), r),
        call_ensures(crate::text::decimal_text, (status as u64,), digits),
    ensures
        status == 403 ==> tells(r.0, 403, "FORBIDDEN"@, message@),
        status != 401 && status != 403 ==> tells(
            r.0,
            500,
            "HTTP_MIDDLEWARE"@,
            digits@ + ": "@ + message@,
        ),
{
}

/// What is told of batches that are empty or too large, or that cannot be read.
pub proof fn law_refused_batches_are_told(
    count: usize,
    create: Result<(), AppError>,
    action: Result<(), AppError>,
    order: Result<(), AppError>,
    reason: &str,
    a: AppError,
    b: AppError,
)
    requires
        call_ensures(check_bulk_create, (count,), create),
        call_ensures(check_bulk_action, (count,), action),
        call_ensures(check_reorder, (count,), order),
        call_ensures(invalid_create_body, (reason,), a),
        call_ensures(invalid_action_body, (reason,), b),
    ensures
        count == 0 ==> create is Err && tells(
            create->Err_0,
            400,
            "EMPTY_BATCH"@,
            "bulk create requires at least one target spec"@,
        ),
        count > 200 ==> create is Err && tells(
            create->Err_0,
            400,
            "BATCH_TOO_LARGE"@,
            "bulk create accepts at most 200 targets per request"@,
        ),
        count == 0 ==> action is Err && tells(
            action->Err_0,
            400,
            "EMPTY_BATCH"@,
            "bulk action requires at least one target id"@,
        ),
        count > 500 ==> action is Err && tells(
            action->Err_0,
            400,
            "BATCH_TOO_LARGE"@,
            "bulk action accepts at most 500 target ids per request"@,
        ),
        count == 0 ==> order is Err && tells(
            order->Err_0,
            400,
            "EMPTY_REORDER"@,
            "reorder requires at least one target id"@,
        ),
        count > 500 ==> order is Err && tells(
            order->Err_0,
            400,
            "REORDER_TOO_LARGE"@,
            "reorder accepts at most 500 target ids per request"@,
        ),
        tells(a, 400, "INVALID_JSON"@, "failed to parse bulk create body: "@ + reason@),
        tells(b, 400, "INVALID_JSON"@, "failed to parse bulk action body: "@ + reason@),
{
}

/// What is told of targets that cannot be used as asked for.
pub proof fn law_refused_uses_of_targets_are_told(
    s: &str,
    status: Result<CheckStatus, AppError>,
    enabled: bool,
    now_check: Result<(), AppError>,
    check: CheckSpec,
    now: Moment,
    trial: Result<Target, AppError>,
    ping: Result<(), AppError>,
    reason: &str,
    failure: AppError,
)
    requires
        call_ensures(parse_status, (s,), status),
        call_ensures(check_target_now, (enabled,), now_check),
        call_ensures(test_target_spec, (check, now), trial),
        call_ensures(record_heartbeat_ping, (&check,), ping),
        call_ensures(record_failure, (reason,), failure),
    ensures
        status matches Err(e) ==> tells(
            e,
            400,
            "INVALID_STATUS"@,
            "unknown status `"@ + s@ + "`; expected one of: up, down, degraded, error"@,
        ),
        now_check matches Err(e) ==> tells(
            e,
            400,
            "TARGET_DISABLED"@,
            "target is disabled; enable it before triggering a check"@,
        ),
        trial matches Err(e) ==> tells(
            e,
            400,
            "NOT_TESTABLE"@,
            "heartbeat and domain_expiry checks require a persisted target; create the target and use POST /targets/{id}/check-now instead"@,
        ),
        trial matches Ok(t) ==> t.name@ == "__test__"@ && t.interval_secs == 60
            && t.alert_confirmations == 1 && !t.notify_recovery && t.renotify_interval_secs == 0
            && t.tags@.len() == 0 && t.region_policy@.len() == 0 && t.group_name is None
            && t.owner_user_id is None && t.escalation_policy_id is None && t.updated_at == now,
        ping matches Err(e) ==> tells(
            e,
            400,
            "NOT_HEARTBEAT_TARGET"@,
            "target check kind is not heartbeat"@,
        ),
        tells(failure, 500, "RECORD_RESULT"@, "failed to record check result: "@ + reason@),
{
}

/// A list is refused only for a status that nobody knows, and tells which.
pub proof fn law_refused_lists_are_told(
    targets: Vec<Target>,
    query: &TargetsQuery,
    rollup: &Vec<TargetRollup>,
    r: Result<Vec<Target>, AppError>,
)
    requires
        call_ensures(list_targets, (targets, query, rollup), r),
    ensures
        r matches Err(e) ==> query.status is Some && tells(
            e,
            400,
            "INVALID_STATUS"@,
            "unknown status `"@ + query.status->0@
                + "`; expected one of: up, down, degraded, error"@,
        ),
{
}

/// What is told of a component that is not on a page.
pub proof fn law_missing_components_are_told(
    components: Vec<StatusPageComponent>,
    page_id: Id,
    target_id: Id,
    update: StatusPageComponentUpdate,
    r: Result<StatusPageComponent, AppError>,
)
    requires
        call_ensures(update_component, (components, page_id, target_id, update), r),
    ensures
        r matches Err(e) ==> tells(
            e,
            404,
            "COMPONENT_NOT_FOUND"@,
            "component "@ + crate::codec::id_text(target_id) + " not found on page "@
                + crate::codec::id_text(page_id),
        ),
{
}

/// What is wrong with a target of a step: how many identifiers it has where that is not
/// one, or else which type its own does not match.
pub proof fn law_faulty_targets_of_steps_are_told(
    t: &NewEscalationTarget,
    n: u64,
    digits: String,
    r: Result<(), String>,
)
    requires
        call_ensures(validate_target, (t,), r),
        n == (if t.user_id is Some {
            1int
        } else {
            0
        }) + (if t.schedule_id is Some {
            1int
        } else {
            0
        }) + (if t.channel_id is Some {
            1int
        } else {
            0
        }),
        call_ensures(crate::text::decimal_text, (n,), digits),
    ensures
        n != 1 ==> (r matches Err(m) && m@
            == "expected exactly one of user_id/schedule_id/channel_id set, got "@ + digits@),
        n == 1 && r is Err ==> {
            let m = r->Err_0@;
            &&& t.target_type == EscalationTargetType::User ==> m
                == "set id does not match target_type "@ + "User"@
            &&& t.target_type == EscalationTargetType::Schedule ==> m
                == "set id does not match target_type "@ + "Schedule"@
            &&& t.target_type == EscalationTargetType::Channel ==> m
                == "set id does not match target_type "@ + "Channel"@
            &&& t.target_type == EscalationTargetType::Unknown ==> m
                == "set id does not match target_type "@ + "Unknown"@
        },
{
}

/// Of a policy the first fault is told: a blank name, or else the first step whose level is
/// not positive or one of whose targets is faulty.
pub proof fn law_the_first_fault_of_a_policy_is_told(
    new: &NewEscalationPolicy,
    name: &str,
    stripped: String,
    i: u64,
    step: String,
    level: String,
    j: u64,
    target: String,
    fault: Result<(), String>,
    r: Result<(), AppError>,
)
    requires
        call_ensures(validate_new_policy, (new,), r),
        name@ == new.name@,
        call_ensures(crate::text::trim, (name,), stripped),
        i < new.steps@.len(),
        forall|k: int| 0 <= k < i ==> crate::api::escalation_policies::is_good_step(
            #[trigger] new.steps@[k],
        ),
        call_ensures(crate::text::decimal_text, (i,), step),
        call_ensures(crate::text::signed_decimal_text, (new.steps@[i as int].level as i64,), level),
        call_ensures(crate::text::decimal_text, (j,), target),
        j < new.steps@[i as int].targets@.len() ==> call_ensures(
            validate_target,
            (&new.steps@[i as int].targets@[j as int],),
            fault,
        ),
    ensures
        stripped@.len() == 0 ==> r is Err && tells(
            r->Err_0,
            400,
            "INVALID_POLICY_NAME"@,
            "name is required"@,
        ),
        stripped@.len() > 0 && new.steps@[i as int].level <= 0 ==> r is Err && tells(
            r->Err_0,
            400,
            "INVALID_STEP_LEVEL"@,
            "step at index "@ + step@ + " has non-positive level "@ + level@,
        ),
        stripped@.len() > 0 && new.steps@[i as int].level > 0 && j
            < new.steps@[i as int].targets@.len() && fault is Err && (forall|k: int|
            0 <= k < j ==> crate::api::escalation_policies::is_good_target(
                #[trigger] new.steps@[i as int].targets@[k],
            )) ==> r is Err && tells(
            r->Err_0,
            400,
            "INVALID_ESCALATION_TARGET"@,
            "step "@ + step@ + " target "@ + target@ + ": "@ + fault->Err_0@,
        ),
{
    lemma_first_step(new.steps@, 0, i as nat);
    let targets = new.steps@[i as int].targets@;
    if j < targets.len() && (forall|k: int|
        0 <= k < j ==> crate::api::escalation_policies::is_good_target(#[trigger] targets[k])) {
        lemma_first_target(targets, i as nat, 0, j as nat);
    }
}

/// Good steps are passed over.
proof fn lemma_first_step(
    steps: Seq<crate::api::escalation_policies::NewEscalationStep>,
    from: nat,
    i: nat,
)
    requires
        from <= i < steps.len(),
        forall|k: int| from <= k < i ==> crate::api::escalation_policies::is_good_step(
            #[trigger] steps[k],
        ),
    ensures
        crate::api::escalation_policies::steps_fault(steps, from)
            == crate::api::escalation_policies::steps_fault(steps, i),
    decreases i - from,
{
    if from < i {
        assert(crate::api::escalation_policies::is_good_step(steps[from as int]));
        lemma_no_fault(steps[from as int].targets@, from, 0);
        lemma_first_step(steps, from + 1, i);
    }
}

/// Where all targets are good, none is faulty.
proof fn lemma_no_fault(targets: Seq<NewEscalationTarget>, i: nat, j: nat)
    requires
        forall|k: int| j <= k < targets.len() ==> crate::api::escalation_policies::is_good_target(
            #[trigger] targets[k],
        ),
    ensures
        crate::api::escalation_policies::targets_fault(targets, i, j) is None,
    decreases targets.len() - j,
{
    if j < targets.len() {
        assert(crate::api::escalation_policies::is_good_target(targets[j as int]));
        lemma_no_fault(targets, i, j + 1);
    }
}

/// Good targets are passed over.
proof fn lemma_first_target(targets: Seq<NewEscalationTarget>, i: nat, from: nat, j: nat)
    requires
        from <= j < targets.len(),
        forall|k: int| from <= k < j ==> crate::api::escalation_policies::is_good_target(
            #[trigger] targets[k],
        ),
    ensures
        crate::api::escalation_policies::targets_fault(targets, i, from)
            == crate::api::escalation_policies::targets_fault(targets, i, j),
    decreases j - from,
{
    if from < j {
        assert(crate::api::escalation_policies::is_good_target(targets[from as int]));
        lemma_first_target(targets, i, from + 1, j);
    }
}

/// Of a schedule the first fault is told: a blank name, an unknown time zone, or else the
/// first rotation that takes no time or has nobody in it.
pub proof fn law_the_first_fault_of_a_schedule_is_told(
    new: &NewOnCallSchedule,
    zone_known: bool,
    name: &str,
    stripped: String,
    i: u64,
    place: String,
    length: String,
    r: Result<(), AppError>,
)
    requires
        call_ensures(validate_schedule_in, (new, zone_known), r),
        name@ == new.name@,
        call_ensures(crate::text::trim, (name,), stripped),
        i < new.layers@.len(),
        forall|k: int|
            0 <= k < i ==> (#[trigger] new.layers@[k]).rotation_length_secs > 0
                && new.layers@[k].participants@.len() > 0,
        call_ensures(crate::text::decimal_text, (i,), place),
        call_ensures(
            crate::text::signed_decimal_text,
            (new.layers@[i as int].rotation_length_secs,),
            length,
        ),
    ensures
        stripped@.len() == 0 ==> r is Err && tells(
            r->Err_0,
            400,
            "INVALID_SCHEDULE_NAME"@,
            "name is required"@,
        ),
        stripped@.len() > 0 && !zone_known ==> r is Err && tells(
            r->Err_0,
            400,
            "INVALID_TIMEZONE"@,
            "timezone "@ + crate::codec::quoted_text(new.timezone@)
                + " is not a valid IANA zone"@,
        ),
        stripped@.len() > 0 && zone_known && new.layers@[i as int].rotation_length_secs <= 0
            ==> r is Err && tells(
            r->Err_0,
            400,
            "INVALID_ROTATION_LENGTH"@,
            "layer at index "@ + place@ + " has non-positive rotation_length_secs "@ + length@,
        ),
        stripped@.len() > 0 && zone_known && new.layers@[i as int].rotation_length_secs > 0
            && new.layers@[i as int].participants@.len() == 0 ==> r is Err && tells(
            r->Err_0,
            400,
            "EMPTY_PARTICIPANTS"@,
            "layer at index "@ + place@ + " must have at least one participant"@,
        ),
{
    lemma_first_layer(new.layers@, 0, i as nat);
}

/// Good rotations are passed over.
proof fn lemma_first_layer(
    layers: Seq<crate::api::on_call_schedules::NewOnCallLayer>,
    from: nat,
    i: nat,
)
    requires
        from <= i < layers.len(),
        forall|k: int|
            from <= k < i ==> (#[trigger] layers[k]).rotation_length_secs > 0
                && layers[k].participants@.len() > 0,
    ensures
        crate::api::on_call_schedules::layers_fault(layers, from)
            == crate::api::on_call_schedules::layers_fault(layers, i),
    decreases i - from,
{
    if from < i {
        assert(layers[from as int].rotation_length_secs > 0);
        lemma_first_layer(layers, from + 1, i);
    }
}

/// What is told of spans that do not end after they start, and of silences that only a
/// session may ask for.
pub proof fn law_refused_spans_are_told(
    new: NewMaintenanceWindow,
    id: Id,
    now: Moment,
    made: Result<MaintenanceWindow, AppError>,
    window: MaintenanceWindow,
    update: MaintenanceWindowUpdate,
    changed: Result<MaintenanceWindow, AppError>,
    rule: &NewSilenceRule,
    identity: &AuthIdentity,
    silence: Result<(), AppError>,
    span: &NewOnCallOverride,
    o: Result<OnCallOverride, AppError>,
)
    requires
        call_ensures(create_maintenance_window, (new, id, now), made),
        call_ensures(update_maintenance_window, (window, update, now), changed),
        call_ensures(create_silence_rule, (rule, identity), silence),
        call_ensures(create_override, (span, id, now), o),
    ensures
        made matches Err(e) ==> tells(
            e,
            400,
            "INVALID_WINDOW"@,
            "ends_at must be after starts_at"@,
        ),
        changed matches Err(e) ==> tells(
            e,
            400,
            "INVALID_WINDOW"@,
            "ends_at must be after starts_at"@,
        ),
        silence is Err && rule.ends_at <= rule.starts_at ==> tells(
            silence->Err_0,
            400,
            "INVALID_WINDOW"@,
            "ends_at must be after starts_at"@,
        ),
        silence is Err && rule.ends_at > rule.starts_at ==> tells(
            silence->Err_0,
            403,
            "GLOBAL_SILENCE_REQUIRES_SESSION"@,
            "global silence rules require a browser session (API tokens are not permitted)"@,
        ),
        o matches Err(e) ==> tells(
            e,
            400,
            "INVALID_OVERRIDE_WINDOW"@,
            "ends_at must be strictly after starts_at"@,
        ),
{
}

/// What is told of channels that may not be made, changed, tried or confirmed.
pub proof fn law_refused_channels_are_told(
    channel: &NotificationChannel,
    name_check: Result<(), String>,
    config_check: Result<(), String>,
    checked: Result<(), AppError>,
    tried: Result<String, AppError>,
    words: &str,
    token: &str,
    base: &str,
    now: Moment,
    asked: Result<VerificationRequest, AppError>,
)
    requires
        call_ensures(check_channel, (name_check, config_check), checked),
        call_ensures(test_channel, (channel,), tried),
        call_ensures(
            crate::api::notification_channels::ChannelKind::as_db_str,
            (&channel.kind,),
            words,
        ),
        call_ensures(request_verification, (channel, token, base, now), asked),
    ensures
        name_check is Err ==> checked is Err && tells(
            checked->Err_0,
            400,
            "INVALID_CHANNEL_NAME"@,
            name_check->Err_0@,
        ),
        name_check is Ok && config_check is Err ==> checked is Err && tells(
            checked->Err_0,
            400,
            "INVALID_CHANNEL_CONFIG"@,
            config_check->Err_0@,
        ),
        tried matches Err(e) ==> tells(
            e,
            400,
            "CHANNEL_DISABLED"@,
            "channel is disabled; enable it before testing"@,
        ),
        tried matches Ok(m) ==> m@ == "Test notification from channel "@ + channel.name@ + " ("@
            + words@ + ")"@,
        !(channel.kind is Email) ==> asked is Err && tells(
            asked->Err_0,
            409,
            "CHANNEL_NOT_EMAIL"@,
            "only email channels require verification"@,
        ),
        channel.kind is Email && channel.verified_at is Some ==> asked is Err && tells(
            asked->Err_0,
            409,
            "CHANNEL_ALREADY_VERIFIED"@,
            "channel is already verified"@,
        ),
        channel.kind is Email && channel.verified_at is None && !channel.enabled ==> asked is Err
            && tells(
            asked->Err_0,
            409,
            "CHANNEL_DISABLED"@,
            "channel is disabled; re-enable before requesting verification"@,
        ),
        channel.kind is Email && channel.verified_at is None && channel.enabled && asked is Err
            ==> tells(
            asked->Err_0,
            500,
            "CHANNEL_CONFIG_MISMATCH"@,
            "channel kind is email but config is not EmailConfig"@,
        ),
{
}

/// A change of a channel is refused for its name before it is for its address.
pub proof fn law_refused_changes_of_channels_are_told(
    channel: NotificationChannel,
    update: NotificationChannelUpdate,
    name_check: Result<(), String>,
    config_check: Result<(), String>,
    r: Result<NotificationChannel, AppError>,
)
    requires
        call_ensures(update_channel, (channel, update, name_check, config_check), r),
    ensures
        update.name is Some && name_check is Err ==> r is Err && tells(
            r->Err_0,
            400,
            "INVALID_CHANNEL_NAME"@,
            name_check->Err_0@,
        ),
        !(update.name is Some && name_check is Err) && update.config is Some && config_check
            is Err ==> r is Err && tells(
            r->Err_0,
            400,
            "INVALID_CHANNEL_CONFIG"@,
            config_check->Err_0@,
        ),
{
}

/// What is told of files that cannot be taken or found.
pub proof fn law_refused_files_are_told(
    slot: &str,
    page_enabled: bool,
    parsed: Result<AssetSlot, AppError>,
    public: Result<AssetSlot, AppError>,
    header: Option<&[u8]>,
    typed: Result<String, AppError>,
    stored: Option<PageAsset>,
    page_id: Id,
    got: Result<(String, Vec<u8>), AppError>,
)
    requires
        call_ensures(parse_slot, (slot,), parsed),
        call_ensures(get_public_asset, (page_enabled, slot), public),
        call_ensures(content_type_from_headers, (header,), typed),
        call_ensures(get_asset, (stored, slot, page_id), got),
    ensures
        parsed matches Err(e) ==> tells(
            e,
            400,
            "UNKNOWN_ASSET_SLOT"@,
            "unknown asset slot `"@ + slot@ + "`; supported slots: logo"@,
        ),
        !page_enabled ==> public is Err && tells(
            public->Err_0,
            404,
            "PAGE_DISABLED"@,
            "status page is not published"@,
        ),
        page_enabled && public is Err ==> tells(
            public->Err_0,
            400,
            "UNKNOWN_ASSET_SLOT"@,
            "unknown asset slot `"@ + slot@ + "`; supported slots: logo"@,
        ),
        header is None ==> typed is Err && tells(
            typed->Err_0,
            400,
            "MISSING_CONTENT_TYPE"@,
            "asset upload requires a Content-Type header"@,
        ),
        header is Some && typed is Err && crate::codec::all_visible(header->0@) ==> tells(
            typed->Err_0,
            400,
            "INVALID_CONTENT_TYPE"@,
            "Content-Type header is empty"@,
        ),
        header is Some && !crate::codec::all_visible(header->0@) ==> typed is Err && tells(
            typed->Err_0,
            400,
            "INVALID_CONTENT_TYPE"@,
            "Content-Type header is not valid UTF-8"@,
        ),
        got matches Err(e) ==> tells(
            e,
            404,
            "ASSET_NOT_FOUND"@,
            "no asset in slot `"@ + slot@ + "` for page "@ + crate::codec::id_text(page_id),
        ),
{
}

/// The texts with a comma and a blank between them.
pub open spec fn with_commas(parts: Seq<String>) -> Seq<char>
    decreases parts.len(),
{
    if parts.len() == 0 {
        Seq::empty()
    } else if parts.len() == 1 {
        parts[0]@
    } else {
        with_commas(parts.drop_last()) + ", "@ + parts.last()@
    }
}

/// Both ways to put commas between texts.
proof fn lemma_listed(parts: Seq<String>, n: nat)
    requires
        n <= parts.len(),
    ensures
        crate::api::page_assets::listed(parts, n) == with_commas(parts.take(n as int)),
    decreases n,
{
    let head = parts.take(n as int);
    if n > 1 {
        lemma_listed(parts, (n - 1) as nat);
        assert(head.drop_last() =~= parts.take(n - 1));
        assert(head.last() == parts[n - 1]);
    }
}

/// A file that a slot does not take is told what it takes: which types, or how many bytes.
pub proof fn law_slots_tell_what_they_take(
    slot: AssetSlot,
    policy: &AssetPolicy,
    content_type: &str,
    size: u64,
    most: String,
    much: String,
    r: Result<(), AppError>,
)
    requires
        call_ensures(check_upload, (slot, policy, content_type, size), r),
        call_ensures(crate::text::decimal_text, (policy.max_byte_size,), most),
        call_ensures(crate::text::decimal_text, (size,), much),
    ensures
        r is Err && (forall|i: int|
            0 <= i < policy.allowed_content_types@.len() ==> (
            #[trigger] policy.allowed_content_types@[i])@ != content_type@) ==> tells(
            r->Err_0,
            400,
            "UNSUPPORTED_ASSET_MIME"@,
            "slot `"@ + "logo"@ + "` does not accept `"@ + content_type@ + "`; allowed: "@
                + with_commas(policy.allowed_content_types@),
        ),
        r is Err && (exists|i: int|
            0 <= i < policy.allowed_content_types@.len() && (
            #[trigger] policy.allowed_content_types@[i])@ == content_type@) ==> tells(
            r->Err_0,
            413,
            "ASSET_TOO_LARGE"@,
            "slot `"@ + "logo"@ + "` accepts at most "@ + most@ + " bytes; got "@ + much@,
        ),
{
    let types = policy.allowed_content_types@;
    lemma_listed(types, types.len());
    assert(types.take(types.len() as int) =~= types);
}

/// What is told of postmortems, subscribers, variables, tokens and sessions that are not
/// there.
pub proof fn law_missing_things_are_told(
    stored: Option<IncidentPostmortem>,
    incident_id: Id,
    now: Moment,
    got: Result<IncidentPostmortem, AppError>,
    published: Result<IncidentPostmortem, AppError>,
    hidden: Result<IncidentPostmortem, AppError>,
    subscribers: Vec<PageSubscriber>,
    page_id: Id,
    id: Id,
    step: Result<VerifyStep, AppError>,
    tokens: Vec<ApiTokenInfo>,
    token: Result<ApiTokenInfo, AppError>,
)
    requires
        call_ensures(get_postmortem, (stored, incident_id), got),
        call_ensures(publish_postmortem, (stored, incident_id, now), published),
        call_ensures(unpublish_postmortem, (stored, incident_id), hidden),
        call_ensures(verify_subscriber, (subscribers, page_id, id), step),
        call_ensures(get_token, (tokens, id), token),
    ensures
        ({
            let missing = "no postmortem for incident "@ + crate::codec::id_text(incident_id);
            &&& got matches Err(e) ==> tells(e, 404, "POSTMORTEM_NOT_FOUND"@, missing)
            &&& published matches Err(e) ==> tells(e, 404, "POSTMORTEM_NOT_FOUND"@, missing)
            &&& hidden matches Err(e) ==> tells(e, 404, "POSTMORTEM_NOT_FOUND"@, missing)
        }),
        step matches Err(e) ==> tells(
            e,
            404,
            "SUBSCRIBER_NOT_FOUND"@,
            "subscriber "@ + crate::codec::id_text(id) + " not found on page "@
                + crate::codec::id_text(page_id),
        ),
        token matches Err(e) ==> tells(
            e,
            404,
            "TOKEN_NOT_FOUND"@,
            "no API token with that id for the current user"@,
        ),
{
}

/// What is told of variables that are not there or whose key is none.
pub proof fn law_refused_variables_are_told(
    variables: Vec<Variable>,
    id: Id,
    value: Option<String>,
    now: Moment,
    got: Result<Variable, AppError>,
    changed: Result<Variable, AppError>,
    body: CreateVariableBody,
    key_check: Result<(), String>,
    made: Result<Variable, AppError>,
)
    requires
        call_ensures(get_variable, (variables, id), got),
        call_ensures(update_variable, (variables, id, value, now), changed),
        call_ensures(create_variable, (body, key_check, id, now), made),
    ensures
        got matches Err(e) ==> tells(
            e,
            404,
            "VARIABLE_NOT_FOUND"@,
            "variable "@ + crate::codec::id_text(id) + " not found"@,
        ),
        changed matches Err(e) ==> tells(
            e,
            404,
            "VARIABLE_NOT_FOUND"@,
            "variable "@ + crate::codec::id_text(id) + " not found"@,
        ),
        made matches Err(e) ==> key_check is Err && tells(
            e,
            400,
            "INVALID_VAR_KEY"@,
            key_check->Err_0@,
        ),
{
}

/// What is told to those who may not sign in first, end a session, or go on.
pub proof fn law_refused_users_are_told(
    service: &AuthService,
    claimed: bool,
    count: Result<u64, AppError>,
    email: String,
    name: Option<String>,
    first: Result<NewUser, AppError>,
    own: &Vec<SessionInfo>,
    id_hash: &str,
    ended: Result<(), AppError>,
    identity: AuthIdentity,
    owed: Result<&User, AppError>,
    session: Result<RequireSession, Rejection>,
    has_header: bool,
    guarded: Result<(), Rejection>,
    method: &str,
    has_authorization: bool,
    door: Result<(), Rejection>,
)
    requires
        call_ensures(
            AuthService::create_first_user,
            (service, claimed, count, email, name),
            first,
        ),
        call_ensures(AuthService::revoke_session, (service, own, id_hash), ended),
        call_ensures(AuthIdentity::require_user, (&identity,), owed),
        call_ensures(require_session, (identity,), session),
        call_ensures(csrf_guard, (&identity, has_header), guarded),
        call_ensures(csrf_guard_middleware, (method, has_header, has_authorization), door),
    ensures
        !claimed ==> first is Err && tells(
            first->Err_0,
            409,
            "BOOTSTRAP_IN_PROGRESS"@,
            "bootstrap is already in progress; retry shortly"@,
        ),
        claimed && count is Ok && first is Err ==> tells(
            first->Err_0,
            409,
            "BOOTSTRAP_DONE"@,
            "the first user has already been created; use the login flow instead"@,
        ),
        ended matches Err(e) ==> tells(
            e,
            404,
            "SESSION_NOT_FOUND"@,
            "no active session with that id_hash for the current user"@,
        ) || tells(
            e,
            400,
            "CURRENT_SESSION"@,
            "the current session cannot revoke itself; log out instead"@,
        ),
        owed matches Err(e) ==> tells(
            e,
            500,
            "AUTH_INVARIANT"@,
            "RequireAuth resolved without an authenticated user"@,
        ),
        session is Err && identity is ApiToken ==> session->Err_0.message@
            == "browser session required; API tokens are not accepted here"@,
        session is Err && identity is Anonymous ==> session->Err_0.message@
            == "authentication required"@,
        guarded matches Err(e) ==> e.message@
            == "CSRF check failed: missing X-Requested-With header"@,
        door matches Err(e) ==> e.message@ == "CSRF check failed"@,
{
}

/// What the public is told of a page that is not published, and where there is none.
pub proof fn law_missing_pages_are_told(
    readings: &crate::public::snapshot::PageReadings,
    to: Moment,
    generated_at: Moment,
    shown: Result<crate::domain::PublicStatusPage, AppError>,
    requested: Option<Id>,
    pages: &Vec<crate::domain::StatusPage>,
    found: Result<Id, AppError>,
)
    requires
        call_ensures(
            crate::public::snapshot::compute_status_snapshot,
            (readings, to, generated_at),
            shown,
        ),
        call_ensures(crate::public::snapshot::resolve_page_id, (requested, pages), found),
    ensures
        shown matches Err(e) ==> tells(
            e,
            404,
            "PAGE_DISABLED"@,
            "status page is not published"@,
        ),
        found matches Err(e) ==> tells(
            e,
            404,
            "NO_STATUS_PAGE"@,
            "no enabled status page found"@,
        ),
{
}

/// What the public is told of incidents and links that are none of theirs.
pub proof fn law_hidden_things_are_told_as_missing(
    record: &IncidentRecord,
    r: Result<PublicIncident, AppError>,
    token: &str,
    key: Result<String, AppError>,
    resolved: Option<Id>,
    target: Result<Id, AppError>,
)
    requires
        call_ensures(get_public_incident, (record,), r),
        call_ensures(share_key, (token,), key),
        call_ensures(shared_target, (resolved,), target),
    ensures
        r matches Err(e) ==> tells(
            e,
            404,
            "INCIDENT_NOT_PUBLIC"@,
            "incident has no public title"@,
        ),
        key matches Err(e) ==> tells(
            e,
            404,
            "SHARE_NOT_FOUND"@,
            "share token is invalid or expired"@,
        ),
        target matches Err(e) ==> tells(
            e,
            404,
            "SHARE_NOT_FOUND"@,
            "share token is invalid or expired"@,
        ),
{
}

} // verus!
