use statuspage::domain::{
    CheckResult, CheckSpec, CheckStatus, DayState as PublicDay, Incident, IncidentSeverity,
    IncidentStatusPhase, OverallState, PublicComponent, PublicComponentGroup,
    PublicComponentStatus, PublicIncident, PublicIncidentUpdate, PublicOrgBranding, StatusPage,
    Target,
};
use statuspage::time::{Moment, DAY, HOUR, MINUTE, SECOND};
use statuspage::ui::client::{
    delete_status_page, delete_target, fetch_with_retry, format_error_response, get_incident,
    get_session, get_status_page_history, is_success, list_target_results, logout, magic_link_verify, update_status_page, ApiErrorBody,
    AttemptOutcome, BootstrapStatus, RetryStep,
};
use statuspage::ui::history::{bucket_into_days, DayState, HISTORY_DAYS};
use statuspage::ui::lists::{
    check_address, fetch_target_rows, incident_list_page, incidents_view, monitor_row, pages_view,
    status_page_list_page, target_list_row, targets_list_page, ListBody,
};
use statuspage::ui::login::{
    bootstrap_state, new_bootstrap_form, new_magic_link_form, BootstrapAction, BootstrapEvent,
    BootstrapState, MagicLinkAction, MagicLinkEvent, MagicLinkStep,
};
use statuspage::ui::public_status_page::{
    component_group, component_row, group_by_month, hero_status_banner, incident_card, month_name,
    ongoing_label, past_incidents, relative_time, timeline_entry, updated_label, uptime_days,
    uptime_grid, DatedIncident, HeroIcon,
};
use statuspage::ui::shell::{
    auth_next, chart_html, chart_id, check_status_badge, enabled_badge, error_callout,
    loading_text, nav_link_class, theme_toggle, AuthEvent, AuthState, CalloutBody, LogoutButton,
};
use statuspage::ui::status_page_detail::{
    active_incidents_heading, compute_overall_status, fetch_status_page_view, id_from_path,
    id_or_nil, incident_row, overall_status_banner, status_page_detail_page, target_status,
    target_status_row, MonitorList, OverallStatus, PageLayout,
};
use statuspage::ui::target_detail::{
    fetch_target_detail, kpi_grid, target_detail_page, Kpi, TargetLayout,
};

const NOW: Moment = 1_785_067_200 * SECOND;

fn result(status: CheckStatus, days_ago: i128, duration_ms: u32) -> CheckResult {
    CheckResult {
        target_id: 1,
        timestamp: NOW - days_ago * DAY,
        status,
        duration_ms,
        error: None,
    }
}

fn target(id: u128, check: CheckSpec) -> Target {
    Target {
        id,
        name: "api".to_string(),
        enabled: true,
        check,
        interval_secs: 30,
        group_name: None,
        tags: Vec::new(),
        alerts: Vec::new(),
        alert_confirmations: 1,
        notify_recovery: false,
        renotify_interval_secs: 0,
        region_policy: String::new(),
        owner_user_id: None,
        escalation_policy_id: None,
        created_at: NOW,
        updated_at: NOW,
    }
}

fn http(id: u128) -> Target {
    target(id, CheckSpec::Http { url: "https://x".to_string() })
}

fn incident(severity: IncidentSeverity, ended_at: Option<Moment>) -> Incident {
    Incident {
        id: 5,
        target_id: 1,
        started_at: NOW,
        ended_at,
        status: CheckStatus::Down,
        duration_secs: None,
        check_count: 1,
        error_sample: None,
        severity,
        public_title: None,
        public_description: Some("d".to_string()),
        created_at: None,
        updated_at: None,
        updates: Vec::new(),
        regions_down: Vec::new(),
        regions_up: Vec::new(),
    }
}

fn page() -> StatusPage {
    StatusPage {
        id: 6,
        org_id: 0,
        slug: "main".to_string(),
        name: "Main".to_string(),
        enabled: false,
        branding: PublicOrgBranding {
            public_display_name: Some("Shown".to_string()),
            public_about: None,
        },
        created_at: NOW,
        updated_at: NOW,
    }
}

#[test]
fn calls_go_to_their_addresses() {
    let c = list_target_results(1, 200);
    assert_eq!(c.method, "GET");
    assert_eq!(
        c.url,
        "/api/v1/targets/00000000-0000-0000-0000-000000000001/results?limit=200"
    );
    assert_eq!(
        get_status_page_history(2).url,
        "/api/v1/status-pages/00000000-0000-0000-0000-000000000002/history"
    );
    assert_eq!(update_status_page(2).method, "PATCH");
    assert_eq!(
        update_status_page(2).url,
        "/api/v1/status-pages/00000000-0000-0000-0000-000000000002"
    );
    assert_eq!(delete_target(2).method, "DELETE");
    assert_eq!(delete_status_page(2).method, "DELETE");
    assert_eq!(
        get_incident(2).url,
        "/api/v1/incidents/00000000-0000-0000-0000-000000000002"
    );
    assert_eq!(get_session().url, "/api/v1/auth/session");
    assert_eq!(logout().method, "DELETE");
    assert_eq!(magic_link_verify().url, "/api/v1/auth/magic-link/verify");
}

#[test]
fn calls_are_made_again_twice_at_most() {
    let failed = AttemptOutcome::Failed;
    assert_eq!(fetch_with_retry(0, failed), RetryStep::WaitAndRetry { delay_ms: 500 });
    assert_eq!(fetch_with_retry(1, failed), RetryStep::WaitAndRetry { delay_ms: 1000 });
    assert_eq!(fetch_with_retry(2, failed), RetryStep::HandBack);
    let broken = AttemptOutcome::Answered { status: 500 };
    assert_eq!(fetch_with_retry(0, broken), RetryStep::WaitAndRetry { delay_ms: 500 });
    let refused = AttemptOutcome::Answered { status: 499 };
    assert_eq!(fetch_with_retry(0, refused), RetryStep::HandBack);
}

#[test]
fn failures_are_told_by_code_or_by_status() {
    let parsed = Some(ApiErrorBody {
        code: "X".to_string(),
        message: "why".to_string(),
        details: None,
    });
    assert_eq!(format_error_response(400, "{}", &parsed), "[X] why");
    assert_eq!(format_error_response(502, "", &None), "HTTP 502");
    assert_eq!(format_error_response(502, "oops", &None), "HTTP 502: oops");
    assert!(is_success(204));
    assert!(!is_success(301));
}

#[test]
fn the_first_user_is_asked_for_an_address() {
    assert_eq!(
        bootstrap_state(Some(BootstrapStatus { bootstrap_needed: true })),
        BootstrapState::Needed
    );
    assert_eq!(
        bootstrap_state(Some(BootstrapStatus { bootstrap_needed: false })),
        BootstrapState::NotNeeded
    );
    assert_eq!(bootstrap_state(None), BootstrapState::Error);
    let mut f = new_bootstrap_form();
    assert!(matches!(f.on_event(BootstrapEvent::Submitted), BootstrapAction::Nothing));
    assert_eq!(f.error.as_deref(), Some("Email is required"));
    f.on_event(BootstrapEvent::EmailTyped(" a@b.c ".to_string()));
    f.on_event(BootstrapEvent::NameTyped("  ".to_string()));
    match f.on_event(BootstrapEvent::Submitted) {
        BootstrapAction::Create { email, display_name } => {
            assert_eq!(email, "a@b.c");
            assert_eq!(display_name, None);
        }
        _ => panic!("a user is made"),
    }
    assert_eq!(f.button_label(), "Creating...");
    f.on_event(BootstrapEvent::Answered(Err("no".to_string())));
    assert_eq!(f.error.as_deref(), Some("no"));
    assert_eq!(f.button_label(), "Create admin account");
    assert!(matches!(f.on_event(BootstrapEvent::Answered(Ok(()))), BootstrapAction::LoggedIn));
}

#[test]
fn signing_in_takes_an_address_and_then_a_token() {
    let mut f = new_magic_link_form();
    f.on_event(MagicLinkEvent::Submitted);
    assert_eq!(f.error.as_deref(), Some("Email is required"));
    f.on_event(MagicLinkEvent::EmailTyped(" a@b.c".to_string()));
    match f.on_event(MagicLinkEvent::Submitted) {
        MagicLinkAction::RequestLink { email } => assert_eq!(email, "a@b.c"),
        _ => panic!("a link is asked for"),
    }
    assert!(f.loading);
    assert_eq!(f.button_label(), "Sending...");
    f.on_event(MagicLinkEvent::RequestAnswered { email: "a@b.c".to_string(), result: Ok(()) });
    assert_eq!(f.step, MagicLinkStep::Verify);
    assert_eq!(
        f.info.as_deref(),
        Some(
            "If an account exists for a@b.c, a sign-in link has been sent. \
             Enter the token below to continue."
        )
    );
    f.on_event(MagicLinkEvent::Submitted);
    assert_eq!(f.error.as_deref(), Some("Token is required"));
    f.on_event(MagicLinkEvent::TokenTyped(" t ".to_string()));
    match f.on_event(MagicLinkEvent::Submitted) {
        MagicLinkAction::VerifyToken { token } => assert_eq!(token, "t"),
        _ => panic!("a token is sent"),
    }
    assert_eq!(f.button_label(), "Verifying...");
    f.on_event(MagicLinkEvent::VerifyAnswered { result: Err("bad".to_string()) });
    assert_eq!(f.error.as_deref(), Some("bad"));
    assert_eq!(f.button_label(), "Sign in");
    f.on_event(MagicLinkEvent::BackClicked);
    assert_eq!(f.step, MagicLinkStep::Request);
    assert_eq!((f.token.as_str(), f.email.as_str()), ("", " a@b.c"));
    assert!(f.info.is_none() && f.error.is_none());
    assert!(matches!(
        f.on_event(MagicLinkEvent::VerifyAnswered { result: Ok(()) }),
        MagicLinkAction::LoggedIn
    ));
}

#[test]
fn results_fall_on_their_days() {
    let rs = vec![
        result(CheckStatus::Up, 0, 1),
        result(CheckStatus::Degraded, 1, 1),
        result(CheckStatus::Up, 2, 1),
        result(CheckStatus::Down, 2, 1),
        result(CheckStatus::Error, 3, 1),
        result(CheckStatus::Up, 3, 1),
        result(CheckStatus::Up, 3, 1),
        result(CheckStatus::Unknown, 4, 1),
        result(CheckStatus::Up, 89, 1),
        result(CheckStatus::Down, 90, 1),
        result(CheckStatus::Down, -1, 1),
    ];
    let (days, share) = bucket_into_days(&rs, NOW);
    assert_eq!(days.len(), HISTORY_DAYS);
    assert_eq!(days[89], Some(DayState::Operational));
    assert_eq!(days[88], Some(DayState::Degraded));
    assert_eq!(days[87], Some(DayState::Major));
    assert_eq!(days[86], Some(DayState::Partial));
    assert_eq!(days[85], None);
    assert_eq!(days[0], Some(DayState::Operational));
    assert_eq!(share, Some((5, 7)));
    let (days, share) = bucket_into_days(&vec![], NOW);
    assert!(days.iter().all(|d| d.is_none()));
    assert_eq!(share, None);
    assert_eq!(DayState::Partial.cell_class(), "day-cell--part");
    assert_eq!(DayState::Major.aria_label(), "Major outage");
}

#[test]
fn the_overall_status_is_the_worst_known() {
    let ts = |s: Option<CheckStatus>| {
        target_status(http(1), s.map(|s| result(s, 0, 9)).into_iter().collect(), NOW)
    };
    let overall = |s: Vec<Option<CheckStatus>>, incs: Vec<Incident>| {
        compute_overall_status(&s.into_iter().map(ts).collect(), &incs)
    };
    assert_eq!(overall(vec![], vec![]), OverallStatus::Unknown);
    assert_eq!(overall(vec![None], vec![]), OverallStatus::Unknown);
    assert_eq!(overall(vec![Some(CheckStatus::Up), None], vec![]), OverallStatus::Operational);
    assert_eq!(
        overall(vec![Some(CheckStatus::Up), Some(CheckStatus::Unknown)], vec![]),
        OverallStatus::Degraded
    );
    assert_eq!(
        overall(vec![Some(CheckStatus::Degraded), Some(CheckStatus::Error)], vec![]),
        OverallStatus::Outage
    );
    let major = || incident(IncidentSeverity::Major, None);
    assert_eq!(overall(vec![], vec![major()]), OverallStatus::Degraded);
    assert_eq!(
        overall(vec![], vec![major(), incident(IncidentSeverity::Critical, None)]),
        OverallStatus::Outage
    );
    assert_eq!(
        overall(vec![Some(CheckStatus::Up)], vec![incident(IncidentSeverity::Minor, None)]),
        OverallStatus::Operational
    );
    assert_eq!(overall_status_banner(OverallStatus::Outage).title, "Active Outage");
    assert_eq!(
        overall_status_banner(OverallStatus::Unknown).class,
        "public-overall public-overall--unknown"
    );
}

#[test]
fn monitors_are_shown_with_their_strip() {
    let ts = target_status(http(1), vec![result(CheckStatus::Down, 0, 42)], NOW);
    let row = target_status_row(&ts, &Some("0.00".to_string()), NOW);
    assert_eq!(row.href, "/targets/00000000-0000-0000-0000-000000000001");
    assert_eq!(row.chip, "HTTP");
    assert_eq!(row.dot_class, "dashboard-dot dashboard-dot--down");
    assert_eq!(row.status_label, "Down");
    assert_eq!(row.latency_label, "42 ms");
    assert_eq!(row.uptime_label, "0.00%");
    assert_eq!(row.strip_label, "90-day status history for api");
    assert_eq!(row.cells.len(), 90);
    assert_eq!(row.cells[89].label, "2026-07-26: Major outage");
    assert_eq!(row.cells[89].class, "day-cell day-cell--maj");
    assert_eq!(row.cells[0].label, "2026-04-28: No data");
    let beat = target_status(target(1, CheckSpec::Heartbeat), vec![], NOW);
    let row = target_status_row(&beat, &None, NOW);
    assert_eq!(row.chip_class, "type-chip type-chip--heartbeat");
    assert_eq!((row.latency_label.as_str(), row.uptime_label.as_str()), ("—", "—"));
    assert_eq!(row.status_label, "Pending");
    assert_eq!(row.cells.len(), 1);
    assert_eq!(row.cells[0].label, "No data");
}

#[test]
fn a_page_shows_what_could_be_read() {
    let view = fetch_status_page_view(
        Ok(page()),
        Err("t".to_string()),
        Ok(vec![
            incident(IncidentSeverity::Major, None),
            incident(IncidentSeverity::Minor, Some(NOW - 30 * DAY)),
            incident(IncidentSeverity::Minor, Some(NOW - 30 * DAY - 1)),
        ]),
        Err("h".to_string()),
        NOW,
    );
    assert_eq!(view.errors, vec!["Monitors: t".to_string(), "Latency history: h".to_string()]);
    assert_eq!(view.active_incidents.len(), 1);
    assert_eq!(view.recent_incidents.len(), 1);
    match status_page_detail_page(&view) {
        PageLayout::Shown { heading, overall, warns, has_active, monitors, has_recent } => {
            assert_eq!(heading.unwrap().display_name, "Shown");
            assert_eq!(overall, OverallStatus::Degraded);
            assert!(warns && has_active && has_recent);
            assert_eq!(monitors, MonitorList::Hidden);
        }
        PageLayout::Failed => panic!("the page is shown"),
    }
    let failed = fetch_status_page_view(
        Err("p".to_string()),
        Ok(vec![]),
        Err("i".to_string()),
        Ok(()),
        NOW,
    );
    assert_eq!(failed.errors, vec!["Page data: p".to_string(), "Incidents: i".to_string()]);
    assert!(matches!(status_page_detail_page(&failed), PageLayout::Failed));
    assert_eq!(active_incidents_heading(1), "Active incident");
    assert_eq!(active_incidents_heading(3), "Active incidents (3)");
}

#[test]
fn addresses_lead_back_to_what_they_name() {
    let id = 0x0123_4567_89ab_cdef_0011_2233_4455_6677u128;
    let href = {
        let mut p = page();
        p.id = id;
        match status_page_list_page(&pages_view(Ok(vec![p]))).body {
            ListBody::Rows(rows) => rows[0].href.clone(),
            _ => panic!("there is a page"),
        }
    };
    assert_eq!(href, "/status-pages/01234567-89ab-cdef-0011-223344556677");
    assert_eq!(id_from_path(href.strip_prefix("/status-pages/")), id);
    assert_eq!(id_from_path(Some("nonsense")), 0);
    assert_eq!(id_from_path(None), 0);
    assert_eq!(id_or_nil(Some(4)), 4);
}

#[test]
fn incidents_are_shown_in_words() {
    let row = incident_row(&incident(IncidentSeverity::Critical, None), false);
    assert_eq!(row.title, "Incident 00000000-0000-0000-0000-000000000005");
    assert_eq!((row.severity_label, row.status_label), ("Critical", "Ongoing"));
    assert_eq!(row.severity_class, "status-badge status-badge--down");
    assert_eq!(row.started, "Started 2026-07-26 12:00 UTC");
    assert_eq!(row.title_style, "color: var(--theme-state-warn-fg-strong)");
    assert_eq!(row.description.as_deref(), Some("d"));
    let over = incident_row(&incident(IncidentSeverity::Minor, Some(NOW)), true);
    assert_eq!((over.status_label, over.status_class), ("Resolved", "status-badge status-badge--up"));
    let mut slow = incident(IncidentSeverity::Unknown, None);
    slow.status = CheckStatus::Degraded;
    let slow = incident_row(&slow, true);
    assert_eq!((slow.severity_label, slow.status_label), ("Unknown", "Investigating"));
}

#[test]
fn lists_tell_failures_from_emptiness() {
    let p = incident_list_page(&incidents_view(Err("e".to_string())));
    let w = p.warning.unwrap();
    assert_eq!((w.title, w.message.as_str()), ("Failed to load incidents", "e"));
    assert!(matches!(p.body, ListBody::Hidden));
    let p = incident_list_page(&incidents_view(Ok(vec![])));
    assert!(p.warning.is_none());
    assert!(matches!(p.body, ListBody::Empty(n) if n.title == "All systems operational"));
    let p = incident_list_page(&incidents_view(Ok(vec![incident(IncidentSeverity::Minor, None)])));
    assert!(matches!(p.body, ListBody::Rows(r) if r.len() == 1));
    let mut half = incidents_view(Ok(vec![incident(IncidentSeverity::Minor, None)]));
    half.error = Some("e".to_string());
    assert_eq!(incident_list_page(&half).warning.unwrap().title, "Some data could not be loaded");
    let p = status_page_list_page(&pages_view(Ok(vec![page()])));
    match p.body {
        ListBody::Rows(rows) => {
            assert_eq!(rows[0].slug, "/main");
            assert_eq!(rows[0].badge.label, "Disabled");
        }
        _ => panic!("there is a page"),
    }
    let p = targets_list_page(&fetch_target_rows(Err("e".to_string())));
    assert_eq!(p.warning.unwrap().title, "Failed to load monitors");
    let p = targets_list_page(&fetch_target_rows(Ok(vec![])));
    assert!(matches!(p.body, ListBody::Empty(n) if n.title == "No monitors configured"));
}

#[test]
fn monitors_are_listed_with_their_last_result() {
    let row = monitor_row(http(1), Some(vec![result(CheckStatus::Degraded, 0, 7)]));
    let line = target_list_row(&row);
    assert_eq!(line.dot_class, "dashboard-dot dashboard-dot--degraded");
    assert_eq!(line.status_text, "Degraded");
    assert_eq!(line.latency_label, "7 ms");
    assert_eq!(line.interval, "30s");
    assert_eq!(line.address, "https://x");
    let none = target_list_row(&monitor_row(http(1), None));
    assert_eq!((none.status_text, none.latency_label.as_str()), ("No data yet", "—"));
    let tcp = CheckSpec::Tcp { host: "h".to_string(), port: 443 };
    assert_eq!(check_address(&tcp), "h:443");
    assert_eq!(check_address(&CheckSpec::Heartbeat), "heartbeat");
    assert_eq!(check_address(&CheckSpec::Other { kind: "k".to_string() }), "-");
}

#[test]
fn figures_have_the_rank_of_the_float_formula() {
    for n in 1..=1000u32 {
        let rs: Vec<CheckResult> =
            (0..n).map(|i| result(CheckStatus::Up, 0, (i * 7919) % 1009)).collect();
        let k = Kpi::from_results(&rs);
        let mut ds: Vec<u32> = rs.iter().map(|r| r.duration_ms).collect();
        ds.sort_unstable();
        let idx = ((ds.len() as f64) * 0.95).ceil() as usize;
        assert_eq!(k.p95_ms, ds[idx - 1]);
        assert_eq!(k.total, n);
    }
}

#[test]
fn figures_count_each_outcome() {
    let rs = vec![
        result(CheckStatus::Up, 0, 5),
        result(CheckStatus::Degraded, 0, 9),
        result(CheckStatus::Down, 0, 1),
        result(CheckStatus::Error, 0, 1),
        result(CheckStatus::Unknown, 0, 1),
    ];
    let k = Kpi::from_results(&rs);
    assert_eq!((k.total, k.up, k.degraded, k.down, k.error), (4, 1, 1, 1, 1));
    assert_eq!((k.latest_ms, k.p95_ms), (5, 9));
    let g = kpi_grid(&k, &Some("25.00".to_string()));
    assert_eq!(
        g.summary,
        "4 checks · 1 up · 1 degraded · 1 down · 1 error · latest 5 ms"
    );
    assert_eq!(g.tiles.len(), 5);
    assert_eq!((g.tiles[0].value.as_str(), g.tiles[0].unit), ("25.00", "%"));
    assert_eq!(g.tiles[0].aria_label, "25.00 percent uptime");
    assert_eq!(g.tiles[3].aria_label, "1 failed checks");
    assert_eq!(g.tiles[4].aria_label, "p95 latency 9 milliseconds");
    let none = kpi_grid(&Kpi::from_results(&vec![]), &None);
    assert_eq!(none.summary, "No check results yet.");
    assert_eq!(none.tiles[4].value, "—");
}

#[test]
fn the_page_of_a_monitor_needs_the_monitor() {
    let l = target_detail_page(fetch_target_detail(Err("gone".to_string()), Ok(vec![])));
    assert!(matches!(l, TargetLayout::Failed { title: "Failed to load monitor", .. }));
    let mut nothing = fetch_target_detail(Err(String::new()), Ok(vec![]));
    nothing.error = None;
    assert!(matches!(
        target_detail_page(nothing),
        TargetLayout::Failed { title: "Monitor not found", may_retry: false, .. }
    ));
    let shown = fetch_target_detail(Ok(http(2)), Err("x".to_string()));
    match target_detail_page(shown) {
        TargetLayout::Shown { warning, id_label, check_type, interval, group, badge, kpi, .. } => {
            assert_eq!(warning.as_deref(), Some("Check results: x"));
            assert_eq!(id_label, "ID: 00000000-0000-0000-0000-000000000002");
            assert_eq!(check_type, "http");
            assert_eq!((interval.as_str(), group.as_str()), ("30s", "-"));
            assert_eq!(badge.label, "Error");
            assert_eq!(kpi.total, 0);
        }
        TargetLayout::Failed { .. } => panic!("the monitor is there"),
    }
    let rs = vec![result(CheckStatus::Up, 0, 2), result(CheckStatus::Down, 1, 1)];
    match target_detail_page(fetch_target_detail(Ok(http(2)), Ok(rs))) {
        TargetLayout::Shown { badge, points, .. } => {
            assert_eq!(badge.label, "Operational");
            assert_eq!(points[0], ("2026-07-25T12:00:00+00:00".to_string(), 1));
            assert_eq!(points[1].1, 2);
        }
        TargetLayout::Failed { .. } => panic!("the monitor is there"),
    }
}

#[test]
fn time_is_told_relative_to_now() {
    let ago = |d: Moment| relative_time(NOW - d, NOW);
    assert_eq!(ago(59 * SECOND), "just now");
    assert_eq!(ago(-HOUR), "just now");
    assert_eq!(ago(MINUTE), "1 min ago");
    assert_eq!(ago(HOUR - 1), "59 min ago");
    assert_eq!(ago(HOUR), "1h ago");
    assert_eq!(ago(DAY - 1), "23h ago");
    assert_eq!(ago(3 * DAY), "3d ago");
    assert_eq!(updated_label(NOW, NOW), "Updated just now");
}

fn component(status: PublicComponentStatus, history: Vec<PublicDay>) -> PublicComponent {
    PublicComponent {
        id: 1,
        name: "c".to_string(),
        description: None,
        current_status: status,
        history,
    }
}

#[test]
fn components_are_shown_with_their_uptime() {
    let op = PublicDay::Operational;
    let c = component(
        PublicComponentStatus::PartialOutage,
        vec![PublicDay::NoData, op, op, PublicDay::Degraded],
    );
    assert_eq!(uptime_days(&c.history), (2, 3));
    let row = component_row(&c, "66.67");
    assert_eq!(row.uptime_label, "66.67%");
    assert_eq!(row.dot_class, "sp-comp-dot sp-comp-dot--part");
    assert_eq!(row.badge_class, "sp-comp-badge sp-comp-badge--part");
    assert_eq!(row.status_label, "Partial Outage");
    let full = component(PublicComponentStatus::Operational, vec![op; 90]);
    assert_eq!(component_row(&full, "100.00").uptime_label, "100%");
    let none = component(PublicComponentStatus::Unknown, vec![PublicDay::NoData]);
    assert_eq!(component_row(&none, "0.00").uptime_label, "—");
    for known in 1..=120usize {
        for up in 0..=known {
            let mut days = vec![op; up];
            days.resize(known, PublicDay::MajorOutage);
            let p = (up as f64 / known as f64) * 100.0;
            let figure = format!("{p:.2}");
            let expected =
                if p >= 99.99 { "100%".to_string() } else { format!("{p:.2}%") };
            let c = component(PublicComponentStatus::Operational, days);
            assert_eq!(component_row(&c, &figure).uptime_label, expected);
        }
    }
    let group = PublicComponentGroup { name: None, components: vec![full] };
    let h = component_group(&group);
    assert_eq!((h.name.as_str(), h.summary), ("Components", "All operational"));
    assert_eq!(h.count_label, "1 service");
    let mixed = PublicComponentGroup { name: Some("G".to_string()), components: vec![c, none] };
    let h = component_group(&mixed);
    assert_eq!((h.name.as_str(), h.summary), ("G", "Issues detected"));
    assert_eq!(h.count_label, "2 services");
}

#[test]
fn grids_end_with_the_day_they_were_made() {
    let g = uptime_grid(&vec![PublicDay::Maintenance; 90], NOW);
    assert_eq!(g.bars.len(), 90);
    assert_eq!(g.bars[89].tooltip, "July 26, 2026 • Maintenance");
    assert_eq!(g.bars[89].class, "sp-uptime-bar sp-bar--maint");
    assert_eq!(g.bars[0].tooltip, "April 28, 2026 • Maintenance");
    assert_eq!(g.axis, vec!["Apr 28", "May 28", "Jun 27", "Jul 26"]);
    let empty = uptime_grid(&vec![], NOW);
    assert!(empty.bars.is_empty());
    assert_eq!(empty.axis[0], "Jul 26");
}

fn public_incident(id: u128, started_at: Moment) -> PublicIncident {
    PublicIncident {
        id,
        component_id: 1,
        component_name: String::new(),
        title: "t".to_string(),
        started_at,
        ended_at: None,
        severity: IncidentSeverity::Major,
        status_phase: IncidentStatusPhase::Resolved,
        updates: Vec::new(),
        postmortem: None,
    }
}

#[test]
fn past_incidents_are_grouped_by_month() {
    let months = past_incidents(vec![
        public_incident(1, NOW - 40 * DAY),
        public_incident(2, NOW),
        public_incident(3, NOW - 41 * DAY),
        public_incident(4, NOW - 300 * DAY),
        public_incident(5, NOW - DAY),
    ]);
    let shown: Vec<(i32, u32, Vec<u128>)> = months
        .iter()
        .map(|g| (g.year, g.month, g.incidents.iter().map(|i| i.incident.id).collect()))
        .collect();
    assert_eq!(
        shown,
        vec![(2026, 7, vec![2, 5]), (2026, 6, vec![1, 3]), (2025, 9, vec![4])]
    );
    let dated = |year, month, id| DatedIncident { year, month, incident: public_incident(id, 0) };
    let groups = group_by_month(vec![dated(1, 2, 1), dated(2, 1, 2), dated(1, 2, 3)]);
    assert_eq!(groups.len(), 2);
    assert_eq!(groups[0].year, 2);
    assert_eq!(groups[1].incidents.len(), 2);
    assert_eq!(month_name(2026, 7), "July 2026");
    assert_eq!(month_name(-1, 0), "January -1");
    assert_eq!(month_name(5, 99), "December 5");
    assert_eq!(ongoing_label(2), "2 ongoing");
}

#[test]
fn cards_and_timelines_have_their_marks() {
    let card = incident_card(&public_incident(1, NOW));
    assert_eq!(card.article_class, "sp-incident sp-incident--maj");
    assert_eq!(card.severity_class, "sp-severity sp-severity--maj");
    assert_eq!((card.severity_label, card.date.as_str()), ("Major", "Jul 26, 2026"));
    let entry = timeline_entry(&PublicIncidentUpdate {
        posted_at: NOW,
        phase: IncidentStatusPhase::Investigating,
        message: "m".to_string(),
    });
    assert_eq!(entry.marker_class, "sp-timeline-marker invest");
    assert_eq!(entry.phase_class, "sp-phase sp-phase--invest");
    assert_eq!((entry.icon, entry.phase_label), ("🔍", "Investigating"));
    assert_eq!(entry.time, "Jul 26, 12:00 UTC");
    let hero = hero_status_banner(OverallState::MajorOutage);
    assert_eq!(hero.icon, HeroIcon::Warning);
    assert_eq!(hero.section_class, Some("sp-hero--bad"));
    assert_eq!(hero_status_banner(OverallState::Unknown).section_class, None);
}

#[test]
fn the_shell_knows_who_is_signed_in() {
    assert_eq!(
        auth_next(AuthEvent::SessionChecked { found: true }),
        AuthState::Authenticated
    );
    assert_eq!(
        auth_next(AuthEvent::SessionChecked { found: false }),
        AuthState::Unauthenticated
    );
    assert_eq!(auth_next(AuthEvent::LoggedIn), AuthState::Authenticated);
    let mut b = LogoutButton { busy: false };
    assert_eq!(b.label(), "Sign out");
    assert!(b.press());
    assert!(!b.press());
    assert_eq!(b.label(), "...");
    assert_eq!(auth_next(b.answered()), AuthState::Unauthenticated);
    assert!(!b.busy);
}

#[test]
fn the_shell_has_its_marks() {
    let active = "nav-link nav-link--active";
    assert_eq!(nav_link_class("/targets/5", "/targets"), active);
    assert_eq!(nav_link_class("/", "/"), active);
    assert_eq!(nav_link_class("/targets", "/"), "nav-link");
    assert_eq!(enabled_badge(true).label, "Enabled");
    assert_eq!(check_status_badge(CheckStatus::Unknown).label, "Unknown");
    assert_eq!(theme_toggle(true).stored, "dark");
    assert_eq!(theme_toggle(false).label, "Switch to dark mode");
    assert!(matches!(
        error_callout(Some("m".to_string()), vec![]),
        CalloutBody::Text(t) if t == "m"
    ));
    assert!(matches!(
        error_callout(None, vec!["one".to_string()]),
        CalloutBody::Text(t) if t == "one"
    ));
    assert!(matches!(error_callout(None, vec![]), CalloutBody::List(l) if l.is_empty()));
    assert_eq!(loading_text(None), "Loading...");
    assert_eq!(chart_id(3), "latency-chart-3");
    assert_eq!(
        chart_html("c", "{}"),
        "<div id=\"c\" class=\"w-full h-64\" role=\"img\" \
         aria-label=\"Latency over time line chart\"></div>\
         <script>(function() {var el = document.getElementById('c');\
         if (el && window.Plotly) {window.Plotly.newPlot(el, {});}})();</script>"
    );
}
