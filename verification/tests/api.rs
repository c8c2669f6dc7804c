use statuspage::api::bulk::{
    acted, acted_error, bulk_action_targets, bulk_create_targets, check_bulk_action, check_bulk_create,
    invalid_action_body, invalid_create_body, switch_to, switched, unique_ids, Acted,
    BulkActionKind, CreateOutcome,
};
use statuspage::api::components::{
    add_component, check_reorder, reorder_components, update_component, NewStatusPageComponent,
    StatusPageComponentUpdate,
};
use statuspage::api::escalation_policies::{
    build_policy, validate_new_policy, NewEscalationPolicy, NewEscalationStep, NewEscalationTarget,
};
use statuspage::api::exports::{export_account, ExportReadings};
use statuspage::api::exposition::{
    custom_css_handler, default_buckets, latency_buckets, metrics, metrics_handler,
};
use statuspage::api::incidents::{
    add_incident_update, apply_incident_ops, create_incident, default_metrics_days,
    incident_metrics_days, opened_message, update_incident, Bookkeeping, IncidentOpsPatch,
    IncidentUpdateBody, NewIncidentBody, NewIncidentUpdateBody, Transition,
};
use statuspage::api::dashboard::{dashboard_summary, DashboardSummary};
use statuspage::api::maintenance::{
    active_windows, create_maintenance_window, create_silence_rule, upcoming_windows,
    update_maintenance_window,
    MaintenanceWindowUpdate, NewMaintenanceWindow, NewSilenceRule, SilenceRule,
};
use statuspage::api::notification_channels::{
    check_channel, get_channel, list_channels, merge_config, notifier_failure,
    request_verification, test_channel, unbind_channel, update_channel, ChannelConfig, ChannelKind,
    NotificationChannel, NotificationChannelUpdate, NotifierFault,
};
use statuspage::api::on_call_schedules::{
    build_schedule_detail, create_override, validate_new_schedule, NewOnCallLayer,
    NewOnCallOverride, NewOnCallParticipant, NewOnCallSchedule,
};
use statuspage::api::page_assets::{
    check_upload, content_type_from_headers, get_asset, get_public_asset, list_assets, parse_slot,
    uploaded_meta, AssetPolicy, AssetSlot, PageAsset,
};
use statuspage::api::postmortems::{
    get_postmortem, publish_postmortem, unpublish_postmortem, upsert_postmortem, PostmortemUpsert,
};
use statuspage::api::share_links::{create_share, delete_share, resolve_share};
use statuspage::api::status_pages::{
    create_status_page, get_status_page_history, update_status_page, NewStatusPage,
    StatusPageUpdate,
};
use statuspage::api::subscribers::{
    confirmed, create_subscriber, verify_subscriber, NewSubscriberBody, VerifyStep,
};
use statuspage::api::targets::{
    check_target_now, create_target, heartbeat_status, list_targets, record_failure, record_heartbeat_ping,
    results_limit, status_of_name, test_target_spec, update_target, NewTarget, TargetRollup,
    TargetUpdate, TargetsQuery,
};
use statuspage::api::variables::{
    create_variable, get_variable, update_variable, CreateVariableBody, Variable,
};
use statuspage::auth::identity::{ApiTokenRow, AuthIdentity, User};
use statuspage::domain::{
    CheckResult, CheckSpec, CheckStatus, Incident, IncidentSeverity, IncidentStatusPhase,
    StatusPageComponent, Target,
};
use statuspage::engine::deliveries::SubscriberChannel;
use statuspage::engine::escalation::EscalationTargetType;
use statuspage::error::{ApiError, AppError};
use statuspage::public::links::share_key;
use statuspage::time::{Moment, DAY, HOUR, SECOND};

const NOW: Moment = 1_785_067_200 * SECOND;

fn failure<T>(r: Result<T, AppError>) -> (u16, String, String) {
    match r {
        Ok(_) => panic!("an error was expected"),
        Err(e) => {
            let r = ApiError(e).into_response();
            (r.status, r.code.to_string(), r.message)
        }
    }
}

fn success<T>(r: Result<T, AppError>) -> T {
    match r {
        Ok(v) => v,
        Err(_) => panic!("no error was expected"),
    }
}

fn refused(status: u16, code: &str, message: &str) -> (u16, String, String) {
    (status, code.to_string(), message.to_string())
}

fn new_target(name: &str) -> NewTarget {
    NewTarget {
        name: name.to_string(),
        check: CheckSpec::Http { url: "https://x".to_string() },
        interval_secs: 60,
        enabled: true,
        tags: vec!["Prod-EU".to_string()],
        alerts: vec![3],
        alert_confirmations: 2,
        notify_recovery: true,
        renotify_interval_secs: 5,
        region_policy: None,
        group_name: None,
        owner_user_id: None,
        escalation_policy_id: None,
    }
}

fn target(id: u128) -> Target {
    create_target(new_target("t"), id, NOW)
}

fn incident(id: u128) -> Incident {
    create_incident(
        NewIncidentBody {
            target_id: None,
            severity: IncidentSeverity::Minor,
            public_title: None,
            public_description: None,
        },
        id,
        NOW,
    )
}

#[test]
fn every_error_has_one_answer() {
    let text = || "m".to_string();
    let all: Vec<(AppError, u16, &str, &str)> = vec![
        (AppError::NotFound { code: "A", message: text() }, 404, "A", "m"),
        (AppError::Conflict { code: "A", message: text() }, 409, "A", "m"),
        (AppError::BadRequest { code: "A", message: text(), field: None }, 400, "A", "m"),
        (AppError::PayloadTooLarge { code: "A", message: text() }, 413, "A", "m"),
        (AppError::Unprocessable { code: "A", message: text() }, 422, "A", "m"),
        (
            AppError::UnprocessableDetails { code: "A", message: text(), details: text() },
            422,
            "A",
            "m",
        ),
        (AppError::Gone { code: "A", message: text() }, 410, "A", "m"),
        (AppError::ServiceUnavailable { code: "A", message: text() }, 503, "A", "m"),
        (AppError::QuotaExceeded { code: "A", message: text(), limit: 3 }, 422, "A", "m"),
        (
            AppError::RateLimited { scope: "ip".to_string(), retry_after_secs: 7 },
            429,
            "RATE_LIMITED",
            "rate limited on ip",
        ),
        (AppError::Unauthorized, 401, "UNAUTHORIZED", "authentication required"),
        (AppError::SessionRequired, 401, "SESSION_REQUIRED", "browser session required"),
        (AppError::Forbidden, 403, "FORBIDDEN", "access denied"),
        (AppError::ForbiddenCoded { code: "A", message: text() }, 403, "A", "m"),
        (AppError::Internal { code: "A", log: text() }, 500, "A", "internal error"),
        (AppError::Other(text()), 500, "INTERNAL", "internal error"),
        (AppError::Config(text()), 500, "INTERNAL", "internal error"),
        (AppError::Io(text()), 500, "INTERNAL", "internal error"),
        (
            AppError::BindAddr { addr: text(), source: text() },
            500,
            "INTERNAL",
            "internal error",
        ),
    ];
    for (e, status, code, message) in all {
        let limited = matches!(e, AppError::RateLimited { .. });
        let r = ApiError(e).into_response();
        assert_eq!((r.status, r.code, r.message.as_str()), (status, code, message));
        assert_eq!(r.details.is_some(), limited);
    }
    assert!(matches!(ApiError::from_rejection(401, text()).0, AppError::Unauthorized));
    let r = ApiError::from_rejection(403, text()).into_response();
    assert_eq!((r.status, r.code, r.message.as_str()), (403, "FORBIDDEN", "m"));
    match ApiError::from_rejection(502, text()).0 {
        AppError::Internal { code, log } => {
            assert_eq!((code, log.as_str()), ("HTTP_MIDDLEWARE", "502: m"));
        }
        _ => panic!("a fault of the server"),
    }
}

#[test]
fn targets_are_made_as_asked_for() {
    let t = target(4);
    assert_eq!(t.id, 4);
    assert_eq!(t.name, "t");
    assert_eq!(t.alerts, vec![3]);
    assert_eq!(t.region_policy, "");
    assert_eq!((t.created_at, t.updated_at), (NOW, NOW));
    assert_eq!(t.check.kind(), "http");
}

fn query(tag: Option<&str>, group: Option<&str>, status: Option<&str>) -> TargetsQuery {
    TargetsQuery {
        tag: tag.map(String::from),
        group: group.map(String::from),
        enabled: None,
        status: status.map(String::from),
    }
}

#[test]
fn lists_of_targets_meet_every_wish() {
    let all = || {
        let mut b = target(2);
        b.group_name = Some("core".to_string());
        b.tags = vec!["staging".to_string()];
        b.enabled = false;
        vec![target(1), b, target(3)]
    };
    let rollup = vec![
        TargetRollup { target_id: 1, current_status: CheckStatus::Down },
        TargetRollup { target_id: 1, current_status: CheckStatus::Up },
        TargetRollup { target_id: 2, current_status: CheckStatus::Up },
    ];
    let ids = |q: TargetsQuery| {
        success(list_targets(all(), &q, &rollup)).iter().map(|t| t.id).collect::<Vec<_>>()
    };
    assert_eq!(ids(query(None, None, None)), vec![1, 2, 3]);
    assert_eq!(ids(query(Some("prod"), None, None)), vec![1, 3]);
    assert_eq!(ids(query(Some("STAG"), None, None)), vec![2]);
    assert_eq!(ids(query(None, Some(""), None)), vec![1, 3]);
    assert_eq!(ids(query(None, Some("core"), None)), vec![2]);
    assert_eq!(ids(query(None, None, Some("UP"))), vec![1, 2]);
    assert_eq!(ids(query(None, None, Some("down"))), Vec::<u128>::new());
    let mut only_off = query(None, None, None);
    only_off.enabled = Some(false);
    assert_eq!(ids(only_off), vec![2]);
    assert_eq!(
        failure(list_targets(all(), &query(None, None, Some("odd")), &rollup)),
        refused(
            400,
            "INVALID_STATUS",
            "unknown status `odd`; expected one of: up, down, degraded, error"
        )
    );
    assert_eq!(status_of_name("degraded"), Some(CheckStatus::Degraded));
    assert_eq!(status_of_name("error"), Some(CheckStatus::Error));
    let twice = vec![target(1), target(1)];
    assert_eq!(success(list_targets(twice, &query(None, None, Some("up")), &rollup)).len(), 1);
}

#[test]
fn targets_are_checked_and_tried_within_limits() {
    assert_eq!(results_limit(None), 100);
    assert_eq!(results_limit(Some(7)), 7);
    assert_eq!(results_limit(Some(5000)), 1000);
    assert!(check_target_now(true).is_ok());
    assert_eq!(failure(check_target_now(false)).1, "TARGET_DISABLED");
    match record_failure("disk") {
        AppError::Internal { code, log } => {
            assert_eq!(code, "RECORD_RESULT");
            assert_eq!(log, "failed to record check result: disk");
        }
        _ => panic!("a fault of the server"),
    }
    let tried = success(test_target_spec(CheckSpec::Ping { host: "h".to_string() }, NOW));
    assert_eq!(tried.name, "__test__");
    assert_eq!(tried.id, 0);
    assert_eq!(tried.interval_secs, 60);
    assert_eq!(failure(test_target_spec(CheckSpec::Heartbeat, NOW)).1, "NOT_TESTABLE");
    let expiry = CheckSpec::DomainExpiry { domain: "d".to_string() };
    assert_eq!(failure(test_target_spec(expiry, NOW)).1, "NOT_TESTABLE");
    assert!(record_heartbeat_ping(&CheckSpec::Heartbeat).is_ok());
    let other = CheckSpec::Other { kind: "x".to_string() };
    assert_eq!(
        failure(record_heartbeat_ping(&other)),
        refused(400, "NOT_HEARTBEAT_TARGET", "target check kind is not heartbeat")
    );
}

#[test]
fn bulk_creation_accounts_for_every_target() {
    assert!(check_bulk_create(1).is_ok());
    assert!(check_bulk_create(200).is_ok());
    assert_eq!(failure(check_bulk_create(0)).1, "EMPTY_BATCH");
    assert_eq!(failure(check_bulk_create(201)).1, "BATCH_TOO_LARGE");
    let outcomes = vec![
        CreateOutcome::Refused {
            error: AppError::Conflict { code: "DUP", message: "taken".to_string() },
            shown: "shown".to_string(),
        },
        CreateOutcome::Created(target(1)),
        CreateOutcome::Refused {
            error: AppError::Io("disk".to_string()),
            shown: "io: disk".to_string(),
        },
    ];
    let (r, changed) = bulk_create_targets(outcomes);
    assert!(changed);
    assert_eq!(r.created.len(), 1);
    let errors: Vec<(usize, &str, &str)> =
        r.errors.iter().map(|e| (e.index, e.code.as_str(), e.message.as_str())).collect();
    assert_eq!(errors, vec![(0, "DUP", "taken"), (2, "STORAGE_ERROR", "io: disk")]);
    let (_, changed) = bulk_create_targets(vec![]);
    assert!(!changed);
    assert_eq!(
        failure::<()>(Err(invalid_create_body("eof"))).2,
        "failed to parse bulk create body: eof"
    );
}

#[test]
fn a_failed_write_is_told_apart_from_a_missing_target() {
    let gone = || AppError::NotFound { code: "X", message: "m".to_string() };
    let disk = || AppError::Io("disk".to_string());
    let told = |action, found, written| {
        match acted(action, found, written, "why".to_string()) {
            Acted::Unchanged => "unchanged".to_string(),
            Acted::Changed => "changed".to_string(),
            Acted::Missing => "missing".to_string(),
            Acted::Failed(shown) => shown,
        }
    };
    assert_eq!(told(BulkActionKind::Enable, Ok(true), None), "unchanged");
    assert_eq!(told(BulkActionKind::Enable, Ok(false), Some(Ok(()))), "changed");
    assert_eq!(told(BulkActionKind::Disable, Ok(false), None), "unchanged");
    assert_eq!(told(BulkActionKind::Disable, Ok(true), Some(Err(gone()))), "why");
    assert_eq!(told(BulkActionKind::Disable, Ok(true), Some(Err(disk()))), "why");
    assert_eq!(told(BulkActionKind::Enable, Err(gone()), None), "missing");
    assert_eq!(told(BulkActionKind::Enable, Err(disk()), None), "why");
    assert_eq!(told(BulkActionKind::Delete, Ok(true), Some(Ok(()))), "changed");
    assert_eq!(told(BulkActionKind::Delete, Ok(true), Some(Err(gone()))), "missing");
    assert_eq!(told(BulkActionKind::Delete, Ok(true), Some(Err(disk()))), "why");
}

#[test]
fn bulk_actions_touch_each_target_once() {
    assert_eq!(unique_ids(&vec![3, 1, 3, 2, 1]), vec![3, 1, 2]);
    assert!(check_bulk_action(500).is_ok());
    assert_eq!(failure(check_bulk_action(0)).1, "EMPTY_BATCH");
    assert_eq!(failure(check_bulk_action(501)).1, "BATCH_TOO_LARGE");
    assert_eq!(switch_to(BulkActionKind::Enable, true), None);
    assert_eq!(switch_to(BulkActionKind::Enable, false), Some(true));
    assert_eq!(switch_to(BulkActionKind::Disable, true), Some(false));
    assert_eq!(switch_to(BulkActionKind::Delete, true), None);
    let t = switched(target(1), false, NOW + DAY);
    assert!(!t.enabled);
    assert_eq!(t.updated_at, NOW + DAY);
    let missing = AppError::NotFound { code: "X", message: "m".to_string() };
    assert!(matches!(acted_error(&missing, "s".to_string()), Acted::Missing));
    let (r, changed) = bulk_action_targets(vec![
        (1, Acted::Unchanged),
        (2, Acted::Missing),
        (3, Acted::Failed("disk".to_string())),
    ]);
    assert!(!changed);
    let told: Vec<(u128, &str, &str)> =
        r.iter().map(|x| (x.id, x.status.as_str(), x.message.as_str())).collect();
    assert_eq!(
        told,
        vec![(1, "ok", ""), (2, "not_found", "target not found"), (3, "storage_error", "disk")]
    );
    assert!(bulk_action_targets(vec![(1, Acted::Changed)]).1);
    assert_eq!(
        failure::<()>(Err(invalid_action_body("eof"))).2,
        "failed to parse bulk action body: eof"
    );
}

fn policy(name: &str, level: i32, targets: Vec<NewEscalationTarget>) -> NewEscalationPolicy {
    NewEscalationPolicy {
        name: name.to_string(),
        description: None,
        repeat_count: 1,
        steps: vec![NewEscalationStep { level, delay_secs: 60, targets }],
    }
}

#[test]
fn policies_are_accepted_only_when_they_can_page() {
    let good = NewEscalationTarget {
        target_type: EscalationTargetType::User,
        user_id: Some(1),
        schedule_id: None,
        channel_id: None,
    };
    assert!(validate_new_policy(&policy("p", 1, vec![good])).is_ok());
    assert_eq!(
        failure(validate_new_policy(&policy("  ", 1, vec![good]))),
        refused(400, "INVALID_POLICY_NAME", "name is required")
    );
    assert_eq!(
        failure(validate_new_policy(&policy("p", -3, vec![]))).2,
        "step at index 0 has non-positive level -3"
    );
    let two = NewEscalationTarget { channel_id: Some(2), ..good };
    assert_eq!(
        failure(validate_new_policy(&policy("p", 1, vec![good, two]))),
        refused(
            400,
            "INVALID_ESCALATION_TARGET",
            "step 0 target 1: expected exactly one of user_id/schedule_id/channel_id set, got 2"
        )
    );
    let wrong =
        NewEscalationTarget { target_type: EscalationTargetType::Schedule, ..good };
    assert_eq!(
        failure(validate_new_policy(&policy("p", 1, vec![wrong]))).2,
        "step 0 target 0: set id does not match target_type Schedule"
    );
    let built = build_policy(9, &policy("p", 1, vec![good]), &vec![(10, vec![11])], NOW);
    assert_eq!(built.id, 9);
    assert_eq!(built.steps[0].id, 10);
    assert_eq!(built.steps[0].targets[0].id, 11);
    assert_eq!(built.steps[0].targets[0].user_id, Some(1));
    assert_eq!(built.created_at, NOW);
}

fn schedule(name: &str, zone: &str, length: i64, people: usize) -> NewOnCallSchedule {
    NewOnCallSchedule {
        name: name.to_string(),
        timezone: zone.to_string(),
        layers: vec![NewOnCallLayer {
            name: "l".to_string(),
            rotation_type: "weekly".to_string(),
            rotation_length_secs: length,
            handoff_at: NOW,
            layer_order: 0,
            participants: (0..people)
                .map(|i| NewOnCallParticipant { user_id: i as u128 + 100 })
                .collect(),
        }],
    }
}

#[test]
fn schedules_are_accepted_only_when_they_can_rotate() {
    assert!(validate_new_schedule(&schedule("s", "Europe/Berlin", 60, 1)).is_ok());
    assert!(validate_new_schedule(&schedule("s", "UTC", 60, 1)).is_ok());
    assert_eq!(
        failure(validate_new_schedule(&schedule("", "UTC", 60, 1))).1,
        "INVALID_SCHEDULE_NAME"
    );
    assert_eq!(
        failure(validate_new_schedule(&schedule("s", "Mars/\"Base\"", 60, 1))),
        refused(
            400,
            "INVALID_TIMEZONE",
            "timezone \"Mars/\\\"Base\\\"\" is not a valid IANA zone"
        )
    );
    assert_eq!(
        failure(validate_new_schedule(&schedule("s", "UTC", -5, 1))).2,
        "layer at index 0 has non-positive rotation_length_secs -5"
    );
    assert_eq!(
        failure(validate_new_schedule(&schedule("s", "UTC", 5, 0))).2,
        "layer at index 0 must have at least one participant"
    );
    let d = build_schedule_detail(1, &schedule("s", "UTC", 5, 2), &vec![(2, vec![3, 4])], NOW);
    assert_eq!(d.schedule.id, 1);
    assert_eq!(d.layers[0].participants[1].position, 1);
    assert_eq!(d.layers[0].participants[1].user_id, 101);
    assert!(d.overrides.is_empty());
    let o = NewOnCallOverride { user_id: 5, starts_at: NOW, ends_at: NOW + 1 };
    assert_eq!(success(create_override(&o, 6, NOW)).user_id, 5);
    let empty = NewOnCallOverride { user_id: 5, starts_at: NOW, ends_at: NOW };
    assert_eq!(failure(create_override(&empty, 6, NOW)).1, "INVALID_OVERRIDE_WINDOW");
}

fn component(target_id: u128) -> StatusPageComponent {
    add_component(
        NewStatusPageComponent {
            target_id,
            public_name: Some("n".to_string()),
            public_description: None,
            public_group: Some("g".to_string()),
            sort_order: 7,
        },
        "monitor".to_string(),
    )
}

#[test]
fn components_are_changed_and_put_in_order() {
    let update = StatusPageComponentUpdate {
        public_name: Some(None),
        public_description: Some(Some("d".to_string())),
        public_group: None,
        sort_order: None,
    };
    let c = success(update_component(vec![component(1), component(2)], 9, 2, update));
    assert_eq!(c.target_id, 2);
    assert_eq!(c.public_name, None);
    assert_eq!(c.public_description.as_deref(), Some("d"));
    assert_eq!(c.public_group.as_deref(), Some("g"));
    assert_eq!(c.monitor_name, "monitor");
    let nothing = StatusPageComponentUpdate {
        public_name: None,
        public_description: None,
        public_group: None,
        sort_order: None,
    };
    assert_eq!(
        failure(update_component(vec![], 1, 2, nothing)),
        refused(
            404,
            "COMPONENT_NOT_FOUND",
            "component 00000000-0000-0000-0000-000000000002 not found on page \
             00000000-0000-0000-0000-000000000001"
        )
    );
    assert_eq!(failure(check_reorder(0)).1, "EMPTY_REORDER");
    assert_eq!(failure(check_reorder(501)).1, "REORDER_TOO_LARGE");
    assert!(check_reorder(500).is_ok());
    let placed = reorder_components(
        vec![component(1), component(2), component(3)],
        &vec![3, 99, 1, 3],
    );
    assert_eq!(placed.iter().map(|c| c.sort_order).collect::<Vec<_>>(), vec![2, 7, 3]);
}

#[test]
fn spans_have_to_end_after_they_start() {
    let new = |ends_at| NewMaintenanceWindow {
        title: "w".to_string(),
        description: None,
        starts_at: NOW,
        ends_at,
        component_ids: vec![1],
    };
    let w = success(create_maintenance_window(new(NOW + 1), 5, NOW));
    assert_eq!((w.id, w.starts_at, w.ends_at), (5, NOW, NOW + 1));
    assert_eq!(
        failure(create_maintenance_window(new(NOW), 5, NOW)),
        refused(400, "INVALID_WINDOW", "ends_at must be after starts_at")
    );
    let update = |ends_at| MaintenanceWindowUpdate {
        title: Some("x".to_string()),
        description: None,
        starts_at: None,
        ends_at,
        component_ids: None,
    };
    let changed = success(update_maintenance_window(w, update(Some(NOW + DAY)), NOW + 2));
    assert_eq!(changed.title, "x");
    assert_eq!(changed.component_ids, vec![1]);
    assert_eq!((changed.created_at, changed.updated_at), (NOW, NOW + 2));
    assert_eq!(
        failure(update_maintenance_window(changed, update(Some(NOW)), NOW)).1,
        "INVALID_WINDOW"
    );
}

fn user() -> User {
    User {
        id: 1,
        email: "a@b.c".to_string(),
        display_name: None,
        email_verified_at: None,
        last_seen_at: None,
        theme: String::new(),
        time_format: String::new(),
        created_at: NOW,
        updated_at: NOW,
    }
}

#[test]
fn silencing_everything_takes_a_browser_session() {
    let rule = |target_id, ends_at| NewSilenceRule {
        target_id,
        channel_id: None,
        reason: None,
        starts_at: NOW,
        ends_at,
    };
    let browser = AuthIdentity::Session { user: user(), cookie_value: String::new() };
    let machine = AuthIdentity::ApiToken {
        token: ApiTokenRow {
            id: 1,
            user_id: 1,
            name: String::new(),
            token_hash: String::new(),
            prefix: String::new(),
            expires_at: None,
            last_used_at: None,
            created_at: NOW,
        },
        user: user(),
    };
    assert!(create_silence_rule(&rule(None, NOW + 1), &browser).is_ok());
    assert!(create_silence_rule(&rule(Some(1), NOW + 1), &machine).is_ok());
    assert_eq!(
        failure(create_silence_rule(&rule(None, NOW + 1), &machine)).1,
        "GLOBAL_SILENCE_REQUIRES_SESSION"
    );
    assert_eq!(failure(create_silence_rule(&rule(None, NOW), &machine)).1, "INVALID_WINDOW");
}

#[test]
fn incidents_are_opened_and_changed_by_hand() {
    let i = incident(8);
    assert_eq!(i.target_id, 0);
    assert_eq!(i.status, CheckStatus::Down);
    assert_eq!(
        opened_message(&i),
        "incident 00000000-0000-0000-0000-000000000008 opened: severity=minor \
         target=00000000-0000-0000-0000-000000000000 title=(none)"
    );
    let changed = update_incident(
        i,
        IncidentUpdateBody {
            severity: Some(IncidentSeverity::Critical),
            status: None,
            ended_at: Some(NOW + 5),
            public_title: Some("t".to_string()),
            public_description: None,
        },
        NOW + 6,
    );
    assert_eq!(changed.severity, IncidentSeverity::Critical);
    assert_eq!(changed.status, CheckStatus::Down);
    assert_eq!(changed.ended_at, Some(NOW + 5));
    assert_eq!(changed.updated_at, Some(NOW + 6));
    assert_eq!(changed.created_at, Some(NOW));
    let entry = |posted_at| {
        add_incident_update(
            NewIncidentUpdateBody {
                phase: IncidentStatusPhase::Identified,
                message: "m".to_string(),
                posted_at,
            },
            NOW,
        )
    };
    assert_eq!(entry(None).posted_at, NOW);
    assert_eq!(entry(Some(3)).posted_at, 3);
}

#[test]
fn transitions_reach_the_escalation() {
    assert_eq!(Transition::Acknowledge.as_str(), "acknowledge");
    assert_eq!(Transition::Resolve.as_str(), "resolve");
    assert_eq!(Transition::Reopen.as_str(), "reopen");
    let patch = Transition::Acknowledge.to_patch();
    assert_eq!(patch.transition.as_deref(), Some("acknowledge"));
    assert!(patch.note.is_none());
    assert_eq!(apply_incident_ops(&patch), Bookkeeping::Acknowledge);
    assert_eq!(apply_incident_ops(&Transition::Resolve.to_patch()), Bookkeeping::Delete);
    assert_eq!(apply_incident_ops(&Transition::Reopen.to_patch()), Bookkeeping::Leave);
    let none = IncidentOpsPatch {
        transition: None,
        assignee_id: Some(1),
        severity: None,
        publish: None,
        note: None,
    };
    assert_eq!(apply_incident_ops(&none), Bookkeeping::Leave);
    assert_eq!(default_metrics_days(), 30);
    assert_eq!(incident_metrics_days(None), 30);
    assert_eq!(incident_metrics_days(Some(1000)), 365);
    assert_eq!(default_buckets(), 60);
    assert_eq!(latency_buckets(None), 60);
    assert_eq!(latency_buckets(Some(5000)), 1000);
}

#[test]
fn editing_a_postmortem_keeps_it_published() {
    let body = |s: &str| PostmortemUpsert {
        summary: s.to_string(),
        root_cause: None,
        impact: None,
        action_items: vec![],
    };
    let first = upsert_postmortem(None, Some(1), body("one"));
    assert_eq!(first.published_at, None);
    let public = success(publish_postmortem(Some(first), 4, NOW));
    assert_eq!(public.published_at, Some(NOW));
    let edited = upsert_postmortem(Some(public), Some(2), body("two"));
    assert_eq!(edited.published_at, Some(NOW));
    assert_eq!(edited.author_id, Some(2));
    assert_eq!(edited.summary, "two");
    let hidden = success(unpublish_postmortem(Some(edited), 4));
    assert_eq!(hidden.published_at, None);
    assert!(get_postmortem(Some(hidden), 4).is_ok());
    assert_eq!(
        failure(get_postmortem(None, 4)),
        refused(
            404,
            "POSTMORTEM_NOT_FOUND",
            "no postmortem for incident 00000000-0000-0000-0000-000000000004"
        )
    );
    assert_eq!(failure(publish_postmortem(None, 4, NOW)).0, 404);
    assert_eq!(failure(unpublish_postmortem(None, 4)).0, 404);
}

#[test]
fn secrets_are_never_shown() {
    let make = |is_secret, check: Result<(), String>| {
        create_variable(
            CreateVariableBody {
                key: "K".to_string(),
                is_secret,
                value: "v".to_string(),
            },
            check,
            1,
            NOW,
        )
    };
    let open: Variable = success(make(false, Ok(())));
    let secret = success(make(true, Ok(())));
    assert_eq!(open.value.as_deref(), Some("v"));
    assert_eq!(secret.value, None);
    assert_eq!(
        failure(make(false, Err("bad key".to_string()))),
        refused(400, "INVALID_VAR_KEY", "bad key")
    );
    let changed = success(update_variable(vec![secret], 1, Some("w".to_string()), NOW + 1));
    assert_eq!(changed.value, None);
    assert_eq!(changed.updated_at, NOW + 1);
    let changed = success(update_variable(vec![open], 1, Some("w".to_string()), NOW + 1));
    assert_eq!(changed.value.as_deref(), Some("w"));
    assert_eq!(
        failure(get_variable(vec![changed], 2)).2,
        "variable 00000000-0000-0000-0000-000000000002 not found"
    );
}

#[test]
fn confirming_twice_changes_nothing() {
    let mut page = create_status_page(
        NewStatusPage { slug: "s".to_string(), name: "n".to_string(), enabled: true },
        9,
        NOW,
    );
    page.org_id = 4;
    let s = create_subscriber(
        &page,
        NewSubscriberBody {
            channel: SubscriberChannel::Email,
            target: "a@b.c".to_string(),
            config: "null".to_string(),
        },
        1,
        NOW,
    );
    assert_eq!(s.verified_at, None);
    assert_eq!((s.status_page_id, s.org_id), (9, 4));
    assert!(matches!(
        success(verify_subscriber(vec![create_subscriber(
            &page,
            NewSubscriberBody {
                channel: SubscriberChannel::Email,
                target: "a@b.c".to_string(),
                config: String::new(),
            },
            1,
            NOW,
        )], 9, 1)),
        VerifyStep::Confirm
    ));
    let done = confirmed(s, NOW + 1);
    match success(verify_subscriber(vec![done], 9, 1)) {
        VerifyStep::Already(s) => assert_eq!(s.verified_at, Some(NOW + 1)),
        VerifyStep::Confirm => panic!("it is confirmed"),
    }
    assert_eq!(failure(verify_subscriber(vec![], 9, 1)).1, "SUBSCRIBER_NOT_FOUND");
}

#[test]
fn pages_are_made_and_changed() {
    let p = create_status_page(
        NewStatusPage { slug: "s".to_string(), name: "n".to_string(), enabled: true },
        1,
        NOW,
    );
    assert!(p.branding.public_about.is_none());
    assert_eq!(p.org_id, 0);
    let p = update_status_page(
        p,
        StatusPageUpdate { name: None, slug: Some("t".to_string()), enabled: None, branding: None },
        NOW + 1,
    );
    assert_eq!((p.slug.as_str(), p.name.as_str(), p.enabled), ("t", "n", true));
    let result = |secs: i128, ms| CheckResult {
        target_id: 1,
        timestamp: secs * SECOND,
        status: CheckStatus::Up,
        duration_ms: ms,
        error: None,
    };
    assert_eq!(
        get_status_page_history(&vec![result(60, 2), result(0, 1)]),
        vec![
            ("1970-01-01T00:00:00+00:00".to_string(), 1),
            ("1970-01-01T00:01:00+00:00".to_string(), 2)
        ]
    );
}

fn channel(kind: ChannelKind, config: ChannelConfig) -> NotificationChannel {
    NotificationChannel {
        id: 3,
        name: "ops".to_string(),
        kind,
        config,
        enabled: true,
        verified_at: None,
        disabled_reason: None,
    }
}

fn secret(url: &str) -> ChannelConfig {
    ChannelConfig::Secret { url: url.to_string() }
}

#[test]
fn masked_addresses_come_back_unchanged() {
    let shown = get_channel(channel(ChannelKind::Slack, secret("https://hook")));
    let masked = match shown.config {
        ChannelConfig::Secret { url } => url,
        ChannelConfig::Email { .. } => panic!("no mail channel"),
    };
    assert!(!masked.contains("hook"));
    match merge_config(secret("https://hook"), secret(&masked)) {
        ChannelConfig::Secret { url } => assert_eq!(url, "https://hook"),
        ChannelConfig::Email { .. } => panic!("no mail channel"),
    }
    match merge_config(secret("https://hook"), secret("https://new")) {
        ChannelConfig::Secret { url } => assert_eq!(url, "https://new"),
        ChannelConfig::Email { .. } => panic!("no mail channel"),
    }
    let listed = list_channels(vec![channel(
        ChannelKind::Email,
        ChannelConfig::Email { to: "a@b.c".to_string() },
    )]);
    assert!(matches!(&listed[0].config, ChannelConfig::Email { to } if to == "a@b.c"));
}

#[test]
fn channels_are_checked_and_tried() {
    assert!(check_channel(Ok(()), Ok(())).is_ok());
    assert_eq!(
        failure(check_channel(Err("n".to_string()), Err("c".to_string()))),
        refused(400, "INVALID_CHANNEL_NAME", "n")
    );
    assert_eq!(failure(check_channel(Ok(()), Err("c".to_string()))).1, "INVALID_CHANNEL_CONFIG");
    let mut c = channel(ChannelKind::Webhook, secret("u"));
    assert_eq!(success(test_channel(&c)), "Test notification from channel ops (webhook)");
    c.kind = ChannelKind::Other { name: "pagerduty".to_string() };
    assert_eq!(success(test_channel(&c)), "Test notification from channel ops (pagerduty)");
    c.enabled = false;
    assert_eq!(failure(test_channel(&c)).1, "CHANNEL_DISABLED");
    for (fault, code) in [
        (NotifierFault::Build, "NOTIFIER_BUILD"),
        (NotifierFault::Send, "NOTIFIER_SEND"),
        (NotifierFault::VerificationMail, "VERIFICATION_EMAIL_SEND"),
    ] {
        assert_eq!(
            failure::<()>(Err(notifier_failure(fault, "why".to_string()))),
            refused(500, code, "internal error")
        );
    }
}

#[test]
fn only_unconfirmed_mail_addresses_are_confirmed() {
    let mail = || channel(ChannelKind::Email, ChannelConfig::Email { to: "a@b.c".to_string() });
    let v = success(request_verification(&mail(), "abc", "https://s.example.com//", NOW));
    assert_eq!(
        v.token_hash,
        "ba7816bf8f01cfea414140de5dae2223b00361a396177a9cb410ff61f20015ad"
    );
    assert_eq!(v.expires_at, NOW + 24 * HOUR);
    assert_eq!(v.to, "a@b.c");
    assert_eq!(
        v.verify_url,
        "https://s.example.com/api/public/v1/notification-channels/verify?token=abc"
    );
    assert_eq!(
        v.decline_url,
        "https://s.example.com/api/public/v1/notification-channels/decline?token=abc"
    );
    let ask = |c: &NotificationChannel| failure(request_verification(c, "t", "b", NOW));
    assert_eq!(ask(&channel(ChannelKind::Slack, secret("u"))).1, "CHANNEL_NOT_EMAIL");
    let other = ChannelKind::Other { name: "pagerduty".to_string() };
    assert_eq!(ask(&channel(other, secret("u"))).1, "CHANNEL_NOT_EMAIL");
    let mut done = mail();
    done.verified_at = Some(NOW);
    assert_eq!(ask(&done).1, "CHANNEL_ALREADY_VERIFIED");
    let mut off = mail();
    off.enabled = false;
    assert_eq!(ask(&off).0, 409);
    assert_eq!(ask(&off).1, "CHANNEL_DISABLED");
    assert_eq!(ask(&channel(ChannelKind::Email, secret("u"))).1, "CHANNEL_CONFIG_MISMATCH");
}

fn asset() -> PageAsset {
    PageAsset {
        slot: AssetSlot::Logo,
        content_type: "image/png".to_string(),
        hash: "h".to_string(),
        data: b"hi!?".to_vec(),
        created_at: NOW,
        updated_at: NOW,
    }
}

#[test]
fn files_have_to_fit_their_slot() {
    assert!(parse_slot("logo").is_ok());
    assert_eq!(
        failure(parse_slot("hero")),
        refused(400, "UNKNOWN_ASSET_SLOT", "unknown asset slot `hero`; supported slots: logo")
    );
    let ct = |h: Option<&[u8]>| content_type_from_headers(h);
    assert_eq!(success(ct(Some(b" image/png ; charset=x"))), "image/png");
    assert_eq!(failure(ct(None)).1, "MISSING_CONTENT_TYPE");
    assert_eq!(failure(ct(Some(b"\xff"))).2, "Content-Type header is not valid UTF-8");
    assert_eq!(failure(ct(Some(b"a\nb"))).2, "Content-Type header is not valid UTF-8");
    assert_eq!(failure(ct(Some(b" ; x"))).2, "Content-Type header is empty");
    let policy = AssetPolicy {
        allowed_content_types: vec!["image/png".to_string(), "image/svg+xml".to_string()],
        max_byte_size: 10,
    };
    assert!(check_upload(AssetSlot::Logo, &policy, "image/png", 10).is_ok());
    assert_eq!(
        failure(check_upload(AssetSlot::Logo, &policy, "text/css", 99)),
        refused(
            400,
            "UNSUPPORTED_ASSET_MIME",
            "slot `logo` does not accept `text/css`; allowed: image/png, image/svg+xml"
        )
    );
    assert_eq!(
        failure(check_upload(AssetSlot::Logo, &policy, "image/png", 11)),
        refused(413, "ASSET_TOO_LARGE", "slot `logo` accepts at most 10 bytes; got 11")
    );
    assert_eq!(uploaded_meta(asset()).data.as_deref(), Some("aGkhPw=="));
    assert!(list_assets(vec![asset()])[0].data.is_none());
    assert_eq!(success(get_asset(Some(asset()), "logo", 1)).0, "image/png");
    assert_eq!(failure(get_asset(None, "logo", 1)).1, "ASSET_NOT_FOUND");
    assert!(get_public_asset(true, "logo").is_ok());
    assert_eq!(failure(get_public_asset(false, "logo")).1, "PAGE_DISABLED");
    assert_eq!(failure(get_public_asset(true, "x")).1, "UNKNOWN_ASSET_SLOT");
}

#[test]
fn metrics_and_style_sheets_are_plain_texts() {
    let m = metrics(Some(3), None);
    assert_eq!(
        m.body,
        "# HELP statuspage_targets_total Total number of configured targets.\n\
         # TYPE statuspage_targets_total gauge\n\
         statuspage_targets_total 3\n\
         # HELP statuspage_incidents_total Total number of incidents.\n\
         # TYPE statuspage_incidents_total gauge\n\
         statuspage_incidents_total 0\n"
    );
    assert!(metrics_handler().body.starts_with("# StatusPage Metrics\n"));
    assert_eq!(custom_css_handler(&None).body, "");
    assert_eq!(custom_css_handler(&Some("a{}".to_string())).body, "a{}");
}

#[test]
fn exports_leave_out_what_cannot_be_read() {
    let e = export_account(
        ExportReadings {
            targets: Some(vec![target(1)]),
            status_pages: None,
            components: vec![
                Some(vec![component(1)]),
                None,
                Some(vec![component(2), component(3)]),
            ],
            incidents: Some(vec![incident(1)]),
            maintenance_windows: None,
            notification_channels: None,
            silence_rules: Some(vec![SilenceRule {
                id: 6,
                rule: NewSilenceRule {
                    target_id: None,
                    channel_id: None,
                    reason: None,
                    starts_at: NOW,
                    ends_at: NOW + DAY,
                },
            }]),
        },
        NOW,
    );
    assert_eq!(e.silence_rules[0].id, 6);
    assert_eq!(e.version, 1);
    assert_eq!(e.exported_at, NOW);
    assert_eq!(e.targets.len(), 1);
    assert!(e.status_pages.is_empty());
    assert_eq!(e.components.iter().map(|c| c.target_id).collect::<Vec<_>>(), vec![1, 2, 3]);
    assert_eq!(e.incidents.len(), 1);
}

#[test]
fn target_updates_change_what_they_name() {
    let update = TargetUpdate {
        name: Some("new".to_string()),
        check: None,
        interval_secs: Some(5),
        enabled: None,
        tags: None,
        alerts: Some(vec![9]),
        alert_confirmations: None,
        notify_recovery: None,
        renotify_interval_secs: None,
        region_policy: None,
        group_name: Some(None),
        owner_user_id: None,
        escalation_policy_id: Some(Some(3)),
    };
    let before = target(7);
    let after = update_target(before.clone(), update, NOW + HOUR);
    assert_eq!((after.id, after.created_at, after.updated_at), (7, NOW, NOW + HOUR));
    assert_eq!((after.name.as_str(), after.interval_secs), ("new", 5));
    assert_eq!(after.alerts, vec![9]);
    assert_eq!((after.group_name, after.escalation_policy_id), (None, Some(3)));
    assert_eq!((after.enabled, after.tags), (before.enabled, before.tags));
    assert!(matches!(after.check, CheckSpec::Http { .. }));
}

fn planned(title: &str, starts_at: Moment, ends_at: Moment) -> NewMaintenanceWindow {
    NewMaintenanceWindow {
        title: title.to_string(),
        description: None,
        starts_at,
        ends_at,
        component_ids: vec![1],
    }
}

#[test]
fn windows_are_open_from_their_start_until_before_their_end() {
    let mut all = Vec::new();
    for (title, from, to) in [("past", -2, 0), ("open", 0, 1), ("next", 1, 2)] {
        let new = planned(title, NOW + from * HOUR, NOW + to * HOUR);
        all.push(create_maintenance_window(new, 1, NOW).unwrap());
    }
    let titles = |v: Vec<statuspage::domain::MaintenanceWindow>| {
        v.into_iter().map(|w| w.title).collect::<Vec<_>>()
    };
    assert_eq!(titles(active_windows(all.clone(), NOW)), vec!["open"]);
    assert_eq!(titles(active_windows(all.clone(), NOW + HOUR - 1)), vec!["open"]);
    assert_eq!(titles(active_windows(all.clone(), NOW + HOUR)), vec!["next"]);
    assert_eq!(titles(upcoming_windows(all.clone(), NOW)), vec!["next"]);
    assert!(upcoming_windows(all, NOW + HOUR).is_empty());
}

#[test]
fn share_links_open_their_monitor_until_they_run_out_or_are_deleted() {
    let mut shares = vec![
        create_share(7, None, None, "one", 1, NOW),
        create_share(8, Some("x".to_string()), Some(NOW + HOUR), "two", 2, NOW),
    ];
    assert_ne!(shares[0].token_hash, "one");
    let key = share_key(" two ").unwrap();
    assert_eq!(resolve_share(&mut shares, &key, NOW + HOUR), Some(8));
    assert_eq!((shares[1].view_count, shares[1].last_viewed_at), (1, Some(NOW + HOUR)));
    assert_eq!(shares[0].view_count, 0);
    assert_eq!(resolve_share(&mut shares, &key, NOW + HOUR + 1), None);
    assert_eq!(shares[1].view_count, 1);
    let other = share_key("one").unwrap();
    assert_eq!(resolve_share(&mut shares, &other, NOW), Some(7));
    assert_eq!(resolve_share(&mut shares, "one", NOW), None);
    let mut left = delete_share(shares, 1);
    assert_eq!(left.len(), 1);
    assert_eq!(resolve_share(&mut left, &other, NOW), None);
    assert_eq!(delete_share(left, 1).len(), 1);
}

fn hook() -> NotificationChannel {
    NotificationChannel {
        id: 3,
        name: "ops".to_string(),
        kind: ChannelKind::Slack,
        config: ChannelConfig::Secret { url: "https://hook".to_string() },
        enabled: true,
        verified_at: None,
        disabled_reason: None,
    }
}

#[test]
fn channel_updates_keep_a_masked_secret() {
    let wish = |name: Option<&str>, config: Option<ChannelConfig>| NotificationChannelUpdate {
        name: name.map(|n| n.to_string()),
        config,
        enabled: Some(false),
    };
    let masked = get_channel(hook()).config;
    let c = update_channel(hook(), wish(None, Some(masked)), Ok(()), Ok(())).unwrap();
    assert_eq!((c.name.as_str(), c.enabled), ("ops", false));
    assert!(matches!(c.config, ChannelConfig::Secret { url } if url == "https://hook"));
    let fault = Err("bad".to_string());
    let unnamed = update_channel(hook(), wish(None, None), fault.clone(), fault.clone());
    assert_eq!(unnamed.unwrap().name, "ops");
    let named = update_channel(hook(), wish(Some("n"), None), fault.clone(), Ok(()));
    let reply = ApiError(named.unwrap_err()).into_response();
    assert_eq!((reply.status, reply.code, reply.message.as_str()), (400, "INVALID_CHANNEL_NAME", "bad"));
    let moved = ChannelConfig::Secret { url: "x".to_string() };
    let sent = update_channel(hook(), wish(None, Some(moved)), Ok(()), fault);
    assert_eq!(ApiError(sent.unwrap_err()).into_response().code, "INVALID_CHANNEL_CONFIG");
}

#[test]
fn a_deleted_channel_is_unbound() {
    assert_eq!(unbind_channel(vec![1, 3, 2, 3], 3), vec![1, 2]);
    assert_eq!(unbind_channel(vec![1], 3), vec![1]);
}

#[test]
fn heartbeats_may_be_late_by_the_grace() {
    let due = NOW + 90 * SECOND;
    assert_eq!(heartbeat_status(NOW, 60, 30, due), CheckStatus::Up);
    assert_eq!(heartbeat_status(NOW, 60, 30, due + 1), CheckStatus::Down);
}

#[test]
fn the_dashboard_counts_states() {
    let mut off = target(2);
    off.enabled = false;
    let targets = vec![target(1), off, target(3)];
    let rollup = vec![
        TargetRollup { target_id: 1, current_status: CheckStatus::Up },
        TargetRollup { target_id: 2, current_status: CheckStatus::Down },
        TargetRollup { target_id: 3, current_status: CheckStatus::Up },
    ];
    let expected =
        DashboardSummary { up: 2, down: 1, degraded: 0, error: 0, total: 3, disabled: 1 };
    assert_eq!(dashboard_summary(&targets, &rollup), expected);
}
