use statuspage::domain::{
    CheckResult, CheckSpec, CheckStatus, Incident, IncidentSeverity, MaintenanceWindow, Target,
};
use statuspage::engine::cleanup::{
    delivery_is_stale, result_is_stale, subscriber_is_stale, sweep_cutoffs, token_is_stale,
    DeliveryStatus, RetentionConfig, UNVERIFIED_SUBSCRIBER_GRACE_DAYS,
};
use statuspage::engine::deliveries::{
    delivery_payload, enqueue_subscriber_deliveries, PageAudience, Subscriber, SubscriberChannel,
};
use statuspage::engine::escalation::{
    advance_state, after_lookup, dispatch_target, host_of, incident_alert_email, is_due, next_step,
    Advance, AfterLookup, EscalationDecision, EscalationStep, EscalationTarget,
    EscalationTargetType, Recipient,
};
use statuspage::engine::incident_writer::{
    evaluate_target, follow_ups, seed_escalation_state, sweep_targets, DeliveryReason, FollowUp,
    IncidentChange, IncidentEscalationState,
};
use statuspage::error::AppError;
use statuspage::public::status::in_maintenance;
use statuspage::time::{Moment, DAY, MINUTE, SECOND};

const NOW: Moment = 1_785_067_200 * SECOND;

fn make_result(target_id: u128, status: CheckStatus, secs_ago: i128) -> CheckResult {
    CheckResult {
        target_id,
        timestamp: NOW - secs_ago * SECOND,
        status,
        duration_ms: 100,
        error: None,
    }
}

fn make_incident(target_id: u128, title: Option<&str>) -> Incident {
    Incident {
        id: 7,
        target_id,
        started_at: NOW - 60 * SECOND,
        ended_at: None,
        status: CheckStatus::Down,
        duration_secs: None,
        check_count: 3,
        error_sample: None,
        severity: IncidentSeverity::Major,
        public_title: title.map(String::from),
        public_description: None,
        created_at: Some(NOW),
        updated_at: Some(NOW),
        updates: Vec::new(),
        regions_down: Vec::new(),
        regions_up: Vec::new(),
    }
}

fn make_target(id: u128, enabled: bool) -> Target {
    Target {
        id,
        name: "t".to_string(),
        enabled,
        check: CheckSpec::Heartbeat,
        interval_secs: 60,
        group_name: None,
        tags: Vec::new(),
        alerts: Vec::new(),
        alert_confirmations: 1,
        notify_recovery: false,
        renotify_interval_secs: 0,
        region_policy: String::new(),
        owner_user_id: None,
        escalation_policy_id: None,
        created_at: NOW,
        updated_at: NOW,
    }
}

#[test]
fn opens_incident_after_threshold_bad_results() {
    let results =
        vec![make_result(1, CheckStatus::Down, 9), make_result(1, CheckStatus::Down, 10)];
    let change = evaluate_target(false, 1, &results, None, 42, NOW);
    match change {
        IncidentChange::Open { incident } => {
            assert_eq!(incident.id, 42);
            assert_eq!(incident.target_id, 1);
            assert!(incident.ended_at.is_none(), "incident should be auto-opened");
        }
        _ => panic!("incident should be auto-opened"),
    }
}

#[test]
fn does_not_open_below_threshold() {
    let results = vec![make_result(1, CheckStatus::Down, 5)];
    let change = evaluate_target(false, 1, &results, None, 42, NOW);
    assert!(
        matches!(change, IncidentChange::Nothing),
        "incident should not open below threshold"
    );
}

#[test]
fn closes_incident_after_threshold_good_results() {
    let open = make_incident(1, Some("Test outage"));
    let results = vec![make_result(1, CheckStatus::Up, 4), make_result(1, CheckStatus::Up, 5)];
    let change = evaluate_target(false, 1, &results, Some(open), 42, NOW);
    match change {
        IncidentChange::Close { incident } => {
            assert_eq!(incident.id, 7);
            assert!(incident.ended_at.is_some(), "incident should be auto-closed");
            assert_eq!(incident.public_title.as_deref(), Some("Test outage"));
        }
        _ => panic!("incident should be auto-closed"),
    }
}

#[test]
fn suppresses_open_during_maintenance() {
    let window = MaintenanceWindow {
        id: 3,
        title: "Maintenance".to_string(),
        description: None,
        starts_at: NOW - 5 * MINUTE,
        ends_at: NOW + 5 * MINUTE,
        component_ids: vec![1],
        created_at: NOW,
        updated_at: NOW,
    };
    let suppressed = in_maintenance(&vec![window], 1);
    assert!(suppressed);
    let results =
        vec![make_result(1, CheckStatus::Down, 9), make_result(1, CheckStatus::Down, 10)];
    let change = evaluate_target(suppressed, 1, &results, None, 42, NOW);
    assert!(
        matches!(change, IncidentChange::Nothing),
        "incident should not open during maintenance"
    );
}

#[test]
fn incidents_close_during_maintenance() {
    let results = vec![make_result(1, CheckStatus::Up, 9), make_result(1, CheckStatus::Up, 10)];
    let open = make_incident(1, Some("Test outage"));
    match evaluate_target(true, 1, &results, Some(open), 42, NOW) {
        IncidentChange::Close { incident } => assert_eq!(incident.id, 7),
        _ => panic!("incident should close during maintenance"),
    }
}

#[test]
fn a_mixed_record_changes_nothing() {
    let results = vec![make_result(1, CheckStatus::Down, 1), make_result(1, CheckStatus::Up, 2)];
    assert!(matches!(
        evaluate_target(false, 1, &results, None, 42, NOW),
        IncidentChange::Nothing
    ));
    let open = make_incident(1, None);
    assert!(matches!(
        evaluate_target(false, 1, &results, Some(open), 42, NOW),
        IncidentChange::Nothing
    ));
}

#[test]
fn changes_are_followed_up_in_order() {
    assert_eq!(
        follow_ups(true),
        vec![
            FollowUp::EnqueueDeliveries(DeliveryReason::IncidentOpened),
            FollowUp::DispatchToChannels(DeliveryReason::IncidentOpened),
            FollowUp::SeedEscalation,
        ]
    );
    assert_eq!(
        follow_ups(false),
        vec![
            FollowUp::EnqueueDeliveries(DeliveryReason::IncidentResolved),
            FollowUp::DispatchToChannels(DeliveryReason::IncidentResolved),
            FollowUp::DropEscalation,
        ]
    );
}

#[test]
fn only_enabled_targets_are_swept() {
    let targets = vec![make_target(1, true), make_target(2, false), make_target(3, true)];
    assert_eq!(sweep_targets(&targets), vec![1, 3]);
}

#[test]
fn an_escalation_starts_after_its_first_delay() {
    let state = seed_escalation_state(Some(9), Some(60), 7, NOW).unwrap();
    assert_eq!(state.policy_id, 9);
    assert_eq!(state.incident_id, 7);
    assert_eq!(state.current_level, 0);
    assert_eq!(state.current_round, 0);
    assert_eq!(state.last_paged_at, NOW);
    assert_eq!(state.next_check_at, NOW + 60 * SECOND);
    assert!(!state.acked);
    assert!(seed_escalation_state(None, Some(60), 7, NOW).is_none());
}

#[test]
fn deliveries_go_to_confirmed_subscribers_of_published_pages() {
    let incident = make_incident(1, None);
    let sub = |id: u128, verified: bool| Subscriber {
        id,
        channel: SubscriberChannel::Email,
        target: format!("s{id}@example.com"),
        verified,
    };
    let pages = vec![
        PageAudience {
            page_id: 10,
            enabled: true,
            target_ids: vec![5, 1],
            subscribers: vec![sub(1, true), sub(2, false)],
        },
        PageAudience {
            page_id: 11,
            enabled: false,
            target_ids: vec![1],
            subscribers: vec![sub(3, true)],
        },
        PageAudience {
            page_id: 12,
            enabled: true,
            target_ids: vec![5],
            subscribers: vec![sub(4, true)],
        },
    ];
    let out = enqueue_subscriber_deliveries(&incident, DeliveryReason::IncidentOpened, &pages);
    assert_eq!(out.len(), 1);
    assert_eq!(out[0].subscriber_id, 1);
    assert_eq!(out[0].page_id, 10);
    assert_eq!(out[0].target, "s1@example.com");
    let payload = delivery_payload(&incident, DeliveryReason::IncidentResolved);
    assert_eq!(
        payload,
        "incident resolved 00000000-0000-0000-0000-000000000007 \
         (target=00000000-0000-0000-0000-000000000001, severity=major, \
         started=2026-07-26 11:59:00 UTC)"
    );
}

#[test]
fn deletes_old_terminal_deliveries() {
    let future_cutoff = NOW + DAY;
    let deliveries = [(DeliveryStatus::Sent, NOW)];
    let deleted = deliveries
        .iter()
        .filter(|(s, created)| delivery_is_stale(*s, *created, future_cutoff))
        .count();
    assert_eq!(deleted, 1);
}

#[test]
fn keeps_pending_deliveries_regardless_of_age() {
    let future_cutoff = NOW + 100 * DAY;
    assert!(!delivery_is_stale(DeliveryStatus::Pending, NOW, future_cutoff));
    assert!(!delivery_is_stale(DeliveryStatus::Pending, NOW - 1000 * DAY, future_cutoff));
}

#[test]
fn deletes_old_unverified_subscribers() {
    let cutoff = NOW - i128::from(UNVERIFIED_SUBSCRIBER_GRACE_DAYS) * DAY;
    assert!(subscriber_is_stale(None, NOW - 10 * DAY, cutoff));
}

#[test]
fn keeps_verified_subscribers_regardless_of_age() {
    let cutoff = NOW - i128::from(UNVERIFIED_SUBSCRIBER_GRACE_DAYS) * DAY;
    assert!(!subscriber_is_stale(Some(NOW), NOW - 100 * DAY, cutoff));
}

#[test]
fn keeps_recent_unverified_subscribers() {
    let cutoff = NOW - i128::from(UNVERIFIED_SUBSCRIBER_GRACE_DAYS) * DAY;
    assert!(!subscriber_is_stale(None, NOW - 2 * DAY, cutoff));
}

#[test]
fn deletes_old_check_results() {
    let cutoff = NOW - 30 * DAY;
    let results = [NOW - 60 * DAY, NOW];
    let deleted = results.iter().filter(|t| result_is_stale(**t, cutoff)).count();
    assert_eq!(deleted, 1);
    let remaining = results.iter().filter(|t| !result_is_stale(**t, cutoff)).count();
    assert_eq!(remaining, 1);
}

#[test]
fn deletes_expired_api_tokens() {
    let cutoff = NOW + 30 * DAY;
    let tokens = [Some(NOW), Some(NOW + 365 * DAY), None];
    let deleted = tokens.iter().filter(|t| token_is_stale(**t, cutoff)).count();
    assert_eq!(deleted, 1);
    let remaining = tokens.iter().filter(|t| !token_is_stale(**t, cutoff)).count();
    assert_eq!(remaining, 2);
}

#[test]
fn sweeps_look_back_as_far_as_they_are_told() {
    let cut = sweep_cutoffs(
        NOW,
        RetentionConfig { check_results_days: 14, api_tokens_post_expiry_days: 3 },
    );
    assert_eq!(cut.deliveries, NOW - 30 * DAY);
    assert_eq!(cut.unverified_subscribers, NOW - 7 * DAY);
    assert_eq!(cut.sessions, NOW);
    assert_eq!(cut.magic_links, NOW);
    assert_eq!(cut.check_results, NOW - 14 * DAY);
    assert_eq!(cut.api_tokens, NOW - 3 * DAY);
}

#[test]
fn host_of_strips_scheme_port_and_path() {
    assert_eq!(host_of("https://status.example.com"), "status.example.com");
    assert_eq!(host_of("http://localhost:8080"), "localhost");
    assert_eq!(host_of("https://app.example.com/status"), "app.example.com");
    assert_eq!(host_of("not-a-url"), "not-a-url");
    assert_eq!(host_of(""), "statuspage.local");
}

fn make_steps(levels: &[(i32, i32)]) -> Vec<EscalationStep> {
    levels
        .iter()
        .map(|(level, delay)| EscalationStep {
            id: 1,
            level: *level,
            delay_secs: *delay,
            targets: vec![],
        })
        .collect()
}

fn make_state(level: i32, acked: bool) -> IncidentEscalationState {
    IncidentEscalationState {
        incident_id: 7,
        policy_id: 9,
        current_level: level,
        current_round: 0,
        last_paged_at: NOW,
        next_check_at: NOW,
        acked,
    }
}

/// Carries one escalation through a sweep; `None` where it is forgotten.
fn sweep(
    state: IncidentEscalationState,
    ended_at: Option<Moment>,
    steps: &Vec<EscalationStep>,
    repeat_count: i32,
) -> Option<IncidentEscalationState> {
    if !is_due(&state, NOW) {
        return Some(state);
    }
    match after_lookup(Ok(ended_at)) {
        AfterLookup::AskLadder => {}
        _ => return None,
    }
    let decision = next_step(steps, repeat_count, state.current_level, state.current_round);
    match advance_state(state, steps, decision, NOW) {
        Advance::Page { step: _, state } => Some(state),
        _ => None,
    }
}

#[test]
fn sweep_pages_first_level_and_schedules_next_check() {
    let steps = make_steps(&[(1, 60)]);
    let updated = sweep(make_state(0, false), None, &steps, 0).unwrap();
    assert_eq!(updated.current_level, 1);
    assert_eq!(updated.current_round, 0);
    assert!(updated.next_check_at > NOW);
}

#[test]
fn sweep_deletes_state_when_incident_resolved() {
    let steps = make_steps(&[(1, 60)]);
    assert!(sweep(make_state(0, false), Some(NOW), &steps, 0).is_none());
}

#[test]
fn sweep_deletes_state_when_policy_exhausted() {
    let steps = make_steps(&[(1, 60)]);
    assert!(sweep(make_state(1, false), None, &steps, 0).is_none());
}

#[test]
fn sweep_skips_acked_state_via_list_filter() {
    let steps = make_steps(&[(1, 60)]);
    let got = sweep(make_state(0, true), None, &steps, 0).unwrap();
    assert_eq!(got.current_level, 0);
    assert!(got.acked);
}

#[test]
fn the_ladder_climbs_repeats_and_ends() {
    let steps = make_steps(&[(2, 20), (1, 10)]);
    let page = |level, round, delay_secs| EscalationDecision::Page { level, round, delay_secs };
    assert_eq!(next_step(&steps, 1, 0, 0), page(1, 0, 10));
    assert_eq!(next_step(&steps, 1, 1, 0), page(2, 0, 20));
    assert_eq!(next_step(&steps, 1, 2, 0), page(1, 1, 10));
    assert_eq!(next_step(&steps, 1, 2, 1), EscalationDecision::Exhausted);
    assert_eq!(next_step(&vec![], 5, 0, 0), EscalationDecision::Exhausted);
}

#[test]
fn a_failed_lookup_is_told_apart_from_a_missing_incident() {
    let missing = AppError::NotFound { code: "X", message: "gone".to_string() };
    assert!(matches!(after_lookup(Err(missing)), AfterLookup::DropState));
    let broken = AppError::Io("disk".to_string());
    assert!(matches!(after_lookup(Err(broken)), AfterLookup::Fail { .. }));
}

#[test]
fn targets_name_whom_to_page() {
    let t = |target_type, channel_id, user_id, schedule_id| EscalationTarget {
        id: 1,
        target_type,
        channel_id,
        user_id,
        schedule_id,
    };
    assert_eq!(
        dispatch_target(&t(EscalationTargetType::Channel, Some(4), None, None)),
        Recipient::Channel(4)
    );
    assert_eq!(
        dispatch_target(&t(EscalationTargetType::User, None, Some(5), None)),
        Recipient::User(5)
    );
    assert_eq!(
        dispatch_target(&t(EscalationTargetType::Schedule, None, None, Some(6))),
        Recipient::Schedule(6)
    );
    assert_eq!(
        dispatch_target(&t(EscalationTargetType::User, Some(4), None, None)),
        Recipient::Nobody
    );
}

#[test]
fn alerts_name_the_incident_and_come_from_the_page() {
    let incident = make_incident(1, Some("Test outage"));
    let mail = incident_alert_email(&incident, "https://status.example.com/", "op@example.com");
    assert_eq!(mail.to, "op@example.com");
    assert_eq!(mail.from, "no-reply@status.example.com");
    assert_eq!(mail.from_name, "StatusPage");
    assert_eq!(
        mail.body,
        "incident escalated (id=00000000-0000-0000-0000-000000000007, \
         target=00000000-0000-0000-0000-000000000001, severity=major, \
         started=2026-07-26 11:59:00 UTC)\n\nview: \
         https://status.example.com/api/public/v1/incidents"
    );
}
