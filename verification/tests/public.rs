use statuspage::api::badges::{
    average_ms, count_up, health_badge, health_badge_shields, response_time_badge, svg_badge,
    uptime_badge, uptime_color,
};
use statuspage::domain::{
    ActionItem, CheckResult, CheckStatus, DayState, Incident, IncidentPostmortem,
    IncidentSeverity, MaintenanceWindow, OverallState, PublicComponentStatus, PublicOrgBranding,
    StatusPage, StatusPageComponent,
};
use statuspage::error::{ApiError, AppError};
use statuspage::public::badge::{
    get_badge, render_badge_payload, render_badge_svg, uptime_counts, BadgePayload,
};
use statuspage::public::feed::get_incidents_rss;
use statuspage::public::incident::{
    get_public_incident, list_public_incidents, to_public_maintenance_list, IncidentRecord,
    TargetName,
};
use statuspage::public::links::{
    after_consume,
    after_write,
    begin_link,
    consume_token,
    get_component_history,
    get_shared_monitor,
    history_window,
    share_key,
    shared_target,
    unsubscribe_subscriber,
    verification_response,
    ChannelLink,
    ChannelToken,
    Consumed,
    LinkAction,
    VerificationOutcome,
};
use statuspage::public::snapshot::{
    compute_status_snapshot, resolve_page_id, ComponentReading, PageReadings,
};
use statuspage::public::status::{
    badge_color, component_status_from_result, needs_latest_result, overall_label, target_status,
    worst_incident_status,
};
use statuspage::time::{Moment, DAY, MINUTE, SECOND};

const NOW: Moment = 1_785_067_200 * SECOND;

fn reply(e: AppError) -> (u16, String, String) {
    let r = ApiError(e).into_response();
    (r.status, r.code.to_string(), r.message)
}

fn failure<T>(r: Result<T, AppError>) -> (u16, String, String) {
    match r {
        Ok(_) => panic!("an error was expected"),
        Err(e) => reply(e),
    }
}

fn success<T>(r: Result<T, AppError>) -> T {
    match r {
        Ok(v) => v,
        Err(_) => panic!("no error was expected"),
    }
}

fn incident(id: u128, target_id: u128, severity: IncidentSeverity, started: Moment) -> Incident {
    Incident {
        id,
        target_id,
        started_at: started,
        ended_at: None,
        status: CheckStatus::Down,
        duration_secs: None,
        check_count: 1,
        error_sample: Some("private".to_string()),
        severity,
        public_title: Some(format!("incident {id}")),
        public_description: None,
        created_at: None,
        updated_at: None,
        updates: Vec::new(),
        regions_down: Vec::new(),
        regions_up: Vec::new(),
    }
}

fn record(i: Incident) -> IncidentRecord {
    IncidentRecord { incident: i, postmortem: None }
}

fn page(id: u128, enabled: bool) -> StatusPage {
    StatusPage {
        id,
        org_id: 0,
        slug: "main".to_string(),
        name: "Main".to_string(),
        enabled,
        branding: PublicOrgBranding { public_display_name: None, public_about: None },
        created_at: NOW,
        updated_at: NOW,
    }
}

fn component(target_id: u128, group: Option<&str>) -> ComponentReading {
    ComponentReading {
        component: StatusPageComponent {
            target_id,
            monitor_name: format!("monitor {target_id}"),
            public_name: None,
            public_description: None,
            public_group: group.map(String::from),
            sort_order: 0,
        },
        latest: Some(CheckStatus::Up),
        history: vec![DayState::Operational, DayState::NoData],
    }
}

fn window(target_id: u128) -> MaintenanceWindow {
    MaintenanceWindow {
        id: 9,
        title: "Work".to_string(),
        description: None,
        starts_at: NOW - MINUTE,
        ends_at: NOW + MINUTE,
        component_ids: vec![target_id],
        created_at: NOW,
        updated_at: NOW,
    }
}

fn readings(enabled: bool) -> PageReadings {
    PageReadings {
        page: page(1, enabled),
        components: vec![component(10, Some("API")), component(11, None), component(12, Some("API"))],
        active_windows: Vec::new(),
        upcoming_windows: Vec::new(),
        incidents: Vec::new(),
        targets: Vec::new(),
        logo_hash: None,
    }
}

#[test]
fn a_snapshot_groups_components_and_is_as_bad_as_the_worst() {
    let mut r = readings(true);
    let shown = success(compute_status_snapshot(&r, NOW, NOW));
    assert_eq!(shown.overall.state, OverallState::Operational);
    assert_eq!(shown.overall.label, overall_label(OverallState::Operational));
    assert_eq!(shown.groups.len(), 2);
    assert_eq!(shown.groups[0].name.as_deref(), Some("API"));
    assert_eq!(shown.groups[0].components.len(), 2);
    assert_eq!(shown.groups[1].components.len(), 1);
    assert_eq!(shown.site_name, "Main");
    r.incidents.push(record(incident(5, 11, IncidentSeverity::Critical, NOW - MINUTE)));
    let bad = success(compute_status_snapshot(&r, NOW, NOW));
    assert_eq!(bad.overall.state, OverallState::MajorOutage);
    assert_eq!(bad.active_incidents.len(), 1);
    r.active_windows.push(window(11));
    let calm = success(compute_status_snapshot(&r, NOW, NOW));
    assert_eq!(calm.overall.state, OverallState::Maintenance);
}

#[test]
fn a_page_that_is_not_published_is_not_there() {
    assert_eq!(
        failure(compute_status_snapshot(&readings(false), NOW, NOW)),
        (404, "PAGE_DISABLED".to_string(), "status page is not published".to_string())
    );
    assert_eq!(success(resolve_page_id(Some(4), &vec![])), 4);
    assert_eq!(success(resolve_page_id(None, &vec![page(1, false), page(2, true)])), 2);
    assert_eq!(failure(resolve_page_id(None, &vec![page(1, false)])).0, 404);
}

#[test]
fn statuses_follow_maintenance_then_incidents_then_results() {
    assert_eq!(
        target_status(&vec![], &vec![], 1, None),
        PublicComponentStatus::Operational
    );
    assert_eq!(
        target_status(&vec![], &vec![], 1, Some(CheckStatus::Degraded)),
        PublicComponentStatus::Degraded
    );
    let records = vec![record(incident(1, 1, IncidentSeverity::Minor, NOW))];
    assert_eq!(
        target_status(&vec![], &records, 1, Some(CheckStatus::Up)),
        PublicComponentStatus::PartialOutage
    );
    assert_eq!(
        target_status(&vec![window(1)], &records, 1, Some(CheckStatus::Down)),
        PublicComponentStatus::Maintenance
    );
    assert_eq!(
        worst_incident_status(&vec![IncidentSeverity::Minor, IncidentSeverity::Major]),
        Some(PublicComponentStatus::MajorOutage)
    );
    assert_eq!(worst_incident_status(&vec![]), None);
    assert_eq!(
        component_status_from_result(CheckStatus::Error),
        PublicComponentStatus::PartialOutage
    );
}

#[test]
fn what_is_private_in_an_incident_stays_private() {
    let mut hidden = incident(2, 1, IncidentSeverity::Minor, NOW);
    hidden.public_title = None;
    let mut told = record(incident(3, 1, IncidentSeverity::Minor, NOW));
    told.postmortem = Some(IncidentPostmortem {
        summary: "s".to_string(),
        root_cause: None,
        impact: None,
        action_items: vec![ActionItem {
            text: "fix".to_string(),
            done: false,
            owner_user_id: Some(77),
        }],
        author_id: Some(78),
        published_at: Some(NOW),
    });
    let listed = list_public_incidents(&vec![record(hidden), told]);
    assert_eq!(listed.len(), 1);
    assert_eq!(listed[0].id, 3);
    let pm = listed[0].postmortem.as_ref().unwrap();
    assert_eq!(pm.action_items[0].text, "fix");
    assert_eq!(pm.published_at, NOW);
    let mut again = record(incident(2, 1, IncidentSeverity::Minor, NOW));
    again.incident.public_title = None;
    assert_eq!(failure(get_public_incident(&again)).0, 404);
    again.incident.public_description = Some("slow answers".to_string());
    assert_eq!(success(get_public_incident(&again)).title, "slow answers");
    assert_eq!(list_public_incidents(&vec![again]).len(), 1);
}

#[test]
fn maintenance_names_what_it_affects() {
    let list = to_public_maintenance_list(
        &vec![window(5)],
        &vec![TargetName { id: 5, name: "five".to_string() }],
    );
    assert_eq!(list.len(), 1);
    assert_eq!(list[0].affected_component_names, vec!["five".to_string()]);
}

#[test]
fn the_feed_lists_the_newest_first() {
    let records = vec![
        record(incident(1, 1, IncidentSeverity::Minor, NOW - DAY)),
        record(incident(2, 1, IncidentSeverity::Minor, NOW)),
    ];
    let feed = get_incidents_rss(Some("Main".to_string()), "https://s.example.com", &records, NOW);
    assert_eq!(feed.status, 200);
    let first = feed.body.find("incident 2").unwrap();
    let second = feed.body.find("incident 1").unwrap();
    assert!(first < second);
    assert!(feed.body.contains("Sun, 26 Jul 2026 12:00:00 +0000"));
}

fn float_width(n: usize, least: u32) -> u32 {
    ((n as f64 * 6.5) as u32).max(least)
}

#[test]
fn badges_are_as_wide_as_their_words() {
    let svg = render_badge_svg("uptime", "99.95%", "#4c1");
    let total = float_width(6, 40) + float_width(6, 60);
    assert!(svg.contains(&format!("width=\"{total}\"")));
    let long = "x".repeat(33);
    let svg = render_badge_svg(&long, &long, "#4c1");
    let total = float_width(33, 40) + float_width(33, 60);
    assert!(svg.contains(&format!("width=\"{total}\"")));
    let svg = svg_badge("api", "up", "#4c1");
    let w = |n: usize| 10 + n * 32 / 5;
    assert!(svg.contains(&format!("width=\"{}\"", w(3) + w(2))));
    assert!(!render_badge_svg("<b>", "\"", "#4c1").contains("<b>"));
}

#[test]
fn uptime_colours_have_the_thresholds_of_percentages() {
    for total in 1..=400u64 {
        for up in 0..=total {
            let p = (up as f64 / total as f64) * 100.0;
            let expected = if p >= 99.5 {
                "brightgreen"
            } else if p >= 97.5 {
                "green"
            } else if p >= 95.0 {
                "yellowgreen"
            } else if p >= 90.0 {
                "yellow"
            } else if p >= 80.0 {
                "orange"
            } else {
                "red"
            };
            assert_eq!(uptime_color(up, total), expected);
        }
    }
    assert_eq!(uptime_color(0, 0), "red");
}

fn result(status: CheckStatus, duration_ms: u32) -> CheckResult {
    CheckResult { target_id: 1, timestamp: NOW, status, duration_ms, error: None }
}

#[test]
fn badges_tell_how_a_monitor_is_doing() {
    let up = health_badge(Some("api"), Some(CheckStatus::Up));
    assert_eq!(up.status, 200);
    assert!(up.content_type.starts_with("image/svg+xml"));
    let shields = health_badge_shields(Some(CheckStatus::Down));
    assert_eq!(shields.schema_version, 1);
    let rs = vec![result(CheckStatus::Up, 10), result(CheckStatus::Down, 21)];
    assert_eq!(count_up(&rs), 1);
    assert_eq!(average_ms(&rs), 15);
    assert_eq!(average_ms(&vec![]), 0);
    assert!(uptime_badge(Some("api"), &rs, "50.0").body.contains("50.0%"));
    assert!(response_time_badge(&rs).body.contains("15"));
    assert_ne!(badge_color(OverallState::Operational), badge_color(OverallState::MajorOutage));
}

#[test]
fn page_badges_agree_with_the_page() {
    let comps = vec![component(10, None), component(11, None)];
    assert_eq!(uptime_counts(&comps), (4, 2));
    let payload = render_badge_payload(None, &comps, &vec![], &vec![], "100.00");
    let svg = get_badge(Some(payload));
    assert_eq!(svg.status, 200);
    assert!(svg.body.contains(overall_label(OverallState::Operational)));
    let uptime = render_badge_payload(Some("uptime"), &comps, &vec![], &vec![], "100.00");
    assert!(uptime.value.contains("100.00"));
    let none = get_badge(None);
    assert!(none.body.contains("<svg"));
    let odd = get_badge(Some(BadgePayload {
        label: "a&b".to_string(),
        value: "v".to_string(),
        color: "#fff".to_string(),
    }));
    assert!(odd.body.contains("a&amp;b"));
}

#[test]
fn links_in_mails_are_used_once() {
    match begin_link("abc") {
        LinkAction::Consume { token_hash } => assert_eq!(
            token_hash,
            "ba7816bf8f01cfea414140de5dae2223b00361a396177a9cb410ff61f20015ad"
        ),
        _ => panic!("the token is to be looked up"),
    }
    assert!(matches!(
        after_consume(ChannelLink::Verify, Consumed::Channel(4)),
        LinkAction::MarkVerified { channel_id: 4 }
    ));
    assert!(matches!(
        after_consume(ChannelLink::Decline, Consumed::Channel(4)),
        LinkAction::Disable { channel_id: 4, .. }
    ));
    assert!(matches!(
        after_consume(ChannelLink::Verify, Consumed::Nothing),
        LinkAction::Respond { outcome: VerificationOutcome::Invalid }
    ));
    assert!(matches!(
        after_consume(ChannelLink::Verify, Consumed::Failed),
        LinkAction::Respond { outcome: VerificationOutcome::ServerError }
    ));
    assert!(matches!(after_write(ChannelLink::Verify, true), VerificationOutcome::Verified));
    assert!(matches!(after_write(ChannelLink::Decline, true), VerificationOutcome::Declined));
    assert_eq!(verification_response(VerificationOutcome::Verified).status, 200);
    assert_eq!(verification_response(VerificationOutcome::ServerError).status, 500);
}

#[test]
fn unsubscribing_twice_finds_nobody() {
    assert_eq!(success(unsubscribe_subscriber(Ok(()))), 204);
    let gone = AppError::NotFound { code: "X", message: "gone".to_string() };
    assert_eq!(success(unsubscribe_subscriber(Err(gone))), 404);
    assert_eq!(failure(unsubscribe_subscriber(Err(AppError::Io("disk".to_string())))).0, 500);
}

#[test]
fn shared_monitors_are_found_by_their_key() {
    assert_eq!(
        success(share_key("abc")),
        "ba7816bf8f01cfea414140de5dae2223b00361a396177a9cb410ff61f20015ad"
    );
    assert_eq!(failure(share_key("")).0, 404);
    assert_eq!(success(shared_target(Some(4))), 4);
    assert_eq!(failure(shared_target(None)).0, 404);
    let view = get_shared_monitor("api".to_string(), None, vec![], vec![]);
    assert_eq!(view.current_status, PublicComponentStatus::Operational);
    let (from, to) = history_window(NOW);
    assert_eq!((from, to), (NOW - 90 * DAY, NOW));
    assert_eq!(get_component_history(3, (from, to), vec![]).target_id, 3);
}

#[test]
fn the_latest_result_matters_only_where_nothing_else_decides() {
    let open = vec![record(incident(1, 5, IncidentSeverity::Minor, NOW))];
    assert!(needs_latest_result(&Vec::new(), &Vec::new(), 5));
    assert!(!needs_latest_result(&vec![window(5)], &Vec::new(), 5));
    assert!(!needs_latest_result(&Vec::new(), &open, 5));
    assert!(needs_latest_result(&vec![window(6)], &open, 7));
}

#[test]
fn a_verification_token_works_once() {
    let hash = match begin_link(" tok ") {
        LinkAction::Consume { token_hash } => token_hash,
        _ => panic!("a token is used up"),
    };
    let kept = |token_hash: &str, expires_at: Moment| ChannelToken {
        channel_id: 4,
        token_hash: token_hash.to_string(),
        expires_at,
        used: false,
    };
    let mut tokens = vec![kept("other", NOW), kept(&hash, NOW)];
    assert!(matches!(consume_token(&mut tokens, &hash, NOW + 1), Consumed::Nothing));
    assert!(matches!(consume_token(&mut tokens, &hash, NOW), Consumed::Channel(4)));
    assert_eq!((tokens[0].used, tokens[1].used), (false, true));
    assert!(matches!(consume_token(&mut tokens, &hash, NOW), Consumed::Nothing));
    assert!(matches!(consume_token(&mut tokens, "tok", NOW), Consumed::Nothing));
}
