//! The page of one monitor: its figures and its chart.

use vstd::prelude::*;
use vstd::string::*;

use crate::api::status_pages::get_status_page_history;
use crate::codec::uuid_text;
use crate::domain::{CheckResult, CheckStatus, Target};
use crate::text::{decimal_text, owned};
use crate::ui::shell::{check_status_badge, Badge};

verus! {

/// How many results the page of a monitor is made of.
pub const DETAIL_RESULTS: u32 = 100;

/// The figures of a monitor.
#[derive(Clone, Copy, Debug, PartialEq, Eq, Structural)]
pub struct Kpi {
    pub total: u32,
    pub up: u32,
    pub down: u32,
    pub error: u32,
    pub degraded: u32,
    pub latest_ms: u32,
    pub p95_ms: u32,
}

/// How many of `results` have this status.
pub open spec fn count_status(results: Seq<CheckResult>, status: CheckStatus) -> nat
    decreases results.len(),
{
    if results.len() == 0 {
        0
    } else {
        count_status(results.drop_last(), status) + (if results.last().status == status {
            1nat
        } else {
            0nat
        })
    }
}

/// How long the checks took.
pub open spec fn durations(results: Seq<CheckResult>) -> Seq<u32> {
    results.map_values(|r: CheckResult| r.duration_ms)
}

/// The order of numbers.
pub open spec fn by_size() -> spec_fn(u32, u32) -> bool {
    |a: u32, b: u32| a <= b
}

/// The place, counted from one, of the value that 95 in 100 of `n` do not exceed.
pub open spec fn p95_rank(n: nat) -> nat {
    (19 * n + 19) / 20
}

/// The value that 95 in 100 of `values` do not exceed: the one in that place when
/// they stand in order.
pub open spec fn p95(values: Seq<u32>) -> u32 {
    values.sort_by(by_size())[p95_rank(values.len()) - 1]
}

/// `k` are the figures of a monitor with these results, of which the newest come
/// first.
pub open spec fn are_figures(k: Kpi, results: Seq<CheckResult>) -> bool {
    &&& k.up == count_status(results, CheckStatus::Up)
    &&& k.down == count_status(results, CheckStatus::Down)
    &&& k.error == count_status(results, CheckStatus::Error)
    &&& k.degraded == count_status(results, CheckStatus::Degraded)
    &&& k.total == k.up + k.down + k.error + k.degraded
    &&& results.len() == 0 ==> k.latest_ms == 0 && k.p95_ms == 0
    &&& results.len() > 0 ==> k.latest_ms == results[0].duration_ms && k.p95_ms == p95(
        durations(results),
    )
}

/// The numbers are in a total order.
proof fn lemma_by_size()
    ensures
        vstd::relations::total_ordering(by_size()),
{
}

/// Puts numbers in order.
fn sorted(values: &Vec<u32>) -> (r: Vec<u32>)
    ensures
        r@ == values@.sort_by(by_size()),
{
    broadcast use vstd::seq_lib::group_to_multiset_ensures;

    let mut out: Vec<u32> = Vec::new();
    let mut i: usize = 0;
    while i < values.len()
        invariant
            i <= values.len(),
            out@.to_multiset() =~= values@.take(i as int).to_multiset(),
            vstd::relations::sorted_by(out@, by_size()),
        decreases values.len() - i,
    {
        let x: u32 = values[i];
        let mut p: usize = 0;
        while p < out.len() && out[p] <= x
            invariant
                p <= out.len(),
                forall|j: int| 0 <= j < p ==> out@[j] <= x,
            decreases out.len() - p,
        {
            p += 1;
        }
        let ghost before = out@;
        out.insert(p, x);
        proof {
            assert(values@.take(i + 1) =~= values@.take(i as int).push(x));
            vstd::seq_lib::to_multiset_insert(before, p as int, x);
            vstd::seq_lib::to_multiset_build(values@.take(i as int), x);
            let leq = by_size();
            assert forall|a: int, b: int| 0 <= a < b < out@.len() implies leq(
                #[trigger] out@[a],
                #[trigger] out@[b],
            ) by {
                let a0 = if a < p {
                    a
                } else {
                    a - 1
                };
                let b0 = if b < p {
                    b
                } else {
                    b - 1
                };
                if a != p {
                    assert(out@[a] == before[a0]);
                }
                if b != p {
                    assert(out@[b] == before[b0]);
                }
                if a != p && b != p {
                    assert(leq(before[a0], before[b0]));
                } else if a == p {
                    if p < before.len() && b0 > p {
                        assert(leq(before[p as int], before[b0]));
                    }
                }
            }
        }
        i += 1;
    }
    proof {
        assert(values@.take(i as int) =~= values@);
        lemma_by_size();
        values@.lemma_sort_by_ensures(by_size());
        vstd::seq_lib::lemma_sorted_unique(out@, values@.sort_by(by_size()), by_size());
    }
    out
}

impl Kpi {
    /// The figures of a monitor with these results, of which the newest come first. A
    /// slow check is not one that is up.
    pub fn from_results(rs: &Vec<CheckResult>) -> (r: Kpi)
        requires
            rs@.len() <= u32::MAX,
        ensures
            are_figures(r, rs@),
    {
        let mut up: u32 = 0;
        let mut down: u32 = 0;
        let mut error: u32 = 0;
        let mut degraded: u32 = 0;
        let mut values: Vec<u32> = Vec::new();
        let mut i: usize = 0;
        while i < rs.len()
            invariant
                i <= rs.len(),
                rs@.len() <= u32::MAX,
                up == count_status(rs@.take(i as int), CheckStatus::Up),
                down == count_status(rs@.take(i as int), CheckStatus::Down),
                error == count_status(rs@.take(i as int), CheckStatus::Error),
                degraded == count_status(rs@.take(i as int), CheckStatus::Degraded),
                up + down + error + degraded <= i,
                values@ == durations(rs@.take(i as int)),
            decreases rs.len() - i,
        {
            let ghost next = rs@.take(i + 1);
            assert(next.last() == rs@[i as int]);
            assert(next.drop_last() =~= rs@.take(i as int));
            values.push(rs[i].duration_ms);
            assert(values@ =~= durations(next));
            match rs[i].status {
                CheckStatus::Up => {
                    up += 1;
                },
                CheckStatus::Down => {
                    down += 1;
                },
                CheckStatus::Error => {
                    error += 1;
                },
                CheckStatus::Degraded => {
                    degraded += 1;
                },
                CheckStatus::Unknown => {},
            }
            i += 1;
        }
        assert(rs@.take(i as int) =~= rs@);
        let total: u32 = up + down + error + degraded;
        if rs.len() == 0 {
            return Kpi { total, up, down, error, degraded, latest_ms: 0, p95_ms: 0 };
        }
        let latest_ms: u32 = values[0];
        let n: usize = values.len();
        let rank: usize = ((19 * (n as u64) + 19) / 20) as usize;
        let in_order = sorted(&values);
        proof {
            lemma_by_size();
            values@.lemma_sort_by_ensures(by_size());
            vstd::seq_lib::to_multiset_len(values@);
            vstd::seq_lib::to_multiset_len(in_order@);
        }
        let p95_ms: u32 = in_order[rank - 1];
        Kpi { total, up, down, error, degraded, latest_ms, p95_ms }
    }
}

/// A figure, as it is shown.
#[derive(Clone, Debug)]
pub struct Tile {
    pub label: &'static str,
    pub value: String,
    pub unit: &'static str,
    pub aria_label: String,
}

impl Tile {
    /// Whether a tile has these words.
    pub open spec fn shows(
        &self,
        label: Seq<char>,
        value: Seq<char>,
        unit: Seq<char>,
        aria_label: Seq<char>,
    ) -> bool {
        &&& self.label@ == label
        &&& self.value@ == value
        &&& self.unit@ == unit
        &&& self.aria_label@ == aria_label
    }
}

/// The figures of a monitor, as they are shown.
#[derive(Clone, Debug)]
pub struct KpiGrid {
    pub tiles: Vec<Tile>,
    pub summary: String,
}

/// A duration in words; none is a dash.
pub open spec fn ms_words(ms: u32) -> Seq<char> {
    if ms == 0 {
        "—"@
    } else {
        crate::text::decimal(ms as nat) + " ms"@
    }
}

/// A duration in words; none is a dash.
fn ms_label(ms: u32) -> (r: String)
    ensures
        r@ == ms_words(ms),
{
    if ms == 0 {
        owned("—")
    } else {
        let mut out = decimal_text(ms as u64);
        out.append(" ms");
        out
    }
}

/// A tile that shows a count.
fn count_tile(label: &'static str, count: u32, after: &str) -> (r: Tile)
    ensures
        r.shows(
            label@,
            crate::text::decimal(count as nat),
            ""@,
            crate::text::decimal(count as nat) + after@,
        ),
{
    let mut aria_label = decimal_text(count as u64);
    aria_label.append(after);
    Tile { label, value: decimal_text(count as u64), unit: "", aria_label }
}

/// The line below the figures.
pub open spec fn summary_words(k: Kpi) -> Seq<char> {
    if k.total > 0 {
        crate::text::decimal(k.total as nat) + " checks · "@ + crate::text::decimal(k.up as nat)
            + " up · "@ + crate::text::decimal(k.degraded as nat) + " degraded · "@
            + crate::text::decimal(k.down as nat) + " down · "@ + crate::text::decimal(
            k.error as nat,
        ) + " error · latest "@ + ms_words(k.latest_ms)
    } else {
        "No check results yet."@
    }
}

/// `g` shows the figures `k`. `percent` is the figure of the uptime, to two places,
/// where anything was counted.
pub open spec fn is_kpi_grid(g: KpiGrid, k: Kpi, percent: Option<Seq<char>>) -> bool {
    &&& g.tiles@.len() == 5
    &&& g.tiles@[0].shows(
        "Uptime"@,
        match percent {
            Some(p) => p,
            None => "—"@,
        },
        "%"@,
        match percent {
            Some(p) => p + " percent uptime"@,
            None => "Uptime: no data"@,
        },
    )
    &&& g.tiles@[1].shows(
        "Up"@,
        crate::text::decimal(k.up as nat),
        ""@,
        crate::text::decimal(k.up as nat) + " successful checks"@,
    )
    &&& g.tiles@[2].shows(
        "Degraded"@,
        crate::text::decimal(k.degraded as nat),
        ""@,
        crate::text::decimal(k.degraded as nat) + " degraded checks"@,
    )
    &&& g.tiles@[3].shows(
        "Down"@,
        crate::text::decimal(k.down as nat),
        ""@,
        crate::text::decimal(k.down as nat) + " failed checks"@,
    )
    &&& g.tiles@[4].shows(
        "p95 latency"@,
        ms_words(k.p95_ms),
        ""@,
        if k.p95_ms == 0 {
            "p95 latency: no data"@
        } else {
            "p95 latency "@ + crate::text::decimal(k.p95_ms as nat) + " milliseconds"@
        },
    )
    &&& g.summary@ == summary_words(k)
}

/// Shows the figures of a monitor. `percent` is the figure of the uptime, to two
/// places, where anything was counted.
pub fn kpi_grid(kpi: &Kpi, percent: &Option<String>) -> (r: KpiGrid)
    ensures
        is_kpi_grid(
            r,
            *kpi,
            match *percent {
                Some(p) => Some(p@),
                None => None,
            },
        ),
{
    let uptime = match percent {
        Some(p) => {
            let mut aria_label = p.clone();
            aria_label.append(" percent uptime");
            Tile { label: "Uptime", value: p.clone(), unit: "%", aria_label }
        },
        None => Tile {
            label: "Uptime",
            value: owned("—"),
            unit: "%",
            aria_label: owned("Uptime: no data"),
        },
    };
    let p95_words = if kpi.p95_ms == 0 {
        owned("p95 latency: no data")
    } else {
        let mut out = owned("p95 latency ");
        out.append(decimal_text(kpi.p95_ms as u64).as_str());
        out.append(" milliseconds");
        out
    };
    let mut tiles: Vec<Tile> = Vec::new();
    tiles.push(uptime);
    tiles.push(count_tile("Up", kpi.up, " successful checks"));
    tiles.push(count_tile("Degraded", kpi.degraded, " degraded checks"));
    tiles.push(count_tile("Down", kpi.down, " failed checks"));
    tiles.push(
        Tile {
            label: "p95 latency",
            value: ms_label(kpi.p95_ms),
            unit: "",
            aria_label: p95_words,
        },
    );
    let summary = if kpi.total > 0 {
        let mut out = decimal_text(kpi.total as u64);
        out.append(" checks · ");
        out.append(decimal_text(kpi.up as u64).as_str());
        out.append(" up · ");
        out.append(decimal_text(kpi.degraded as u64).as_str());
        out.append(" degraded · ");
        out.append(decimal_text(kpi.down as u64).as_str());
        out.append(" down · ");
        out.append(decimal_text(kpi.error as u64).as_str());
        out.append(" error · latest ");
        out.append(ms_label(kpi.latest_ms).as_str());
        out
    } else {
        owned("No check results yet.")
    };
    KpiGrid { tiles, summary }
}

/// A monitor and what was read of it.
#[derive(Clone, Debug)]
pub struct TargetDetailView {
    pub target: Option<Target>,
    pub results: Vec<CheckResult>,
    pub error: Option<String>,
}

/// Puts together what was read of a monitor. Without the monitor nothing else is
/// shown; results that could not be read are noted.
pub fn fetch_target_detail(target: Result<Target, String>, results: Result<Vec<CheckResult>, String>)
    -> (r: TargetDetailView)
    ensures
        match target {
            Err(e) => r.target is None && r.results@.len() == 0 && r.error == Some(e),
            Ok(t) => r.target == Some(t) && match results {
                Ok(list) => r.results == list && r.error is None,
                Err(e) => r.results@.len() == 0 && (r.error matches Some(m) && m@
                    == "Check results: "@ + e@),
            },
        },
{
    match target {
        Err(e) => TargetDetailView { target: None, results: Vec::new(), error: Some(e) },
        Ok(t) => match results {
            Ok(list) => TargetDetailView { target: Some(t), results: list, error: None },
            Err(e) => {
                let mut message = owned("Check results: ");
                message.append(e.as_str());
                TargetDetailView { target: Some(t), results: Vec::new(), error: Some(message) }
            },
        },
    }
}

/// What the page of one monitor is made of.
#[derive(Clone, Debug)]
pub enum TargetLayout {
    /// The monitor cannot be shown: the title and the message of a note.
    Failed { title: &'static str, message: String, may_retry: bool },
    Shown {
        /// What went wrong, where anything did.
        warning: Option<String>,
        name: String,
        id_label: String,
        enabled: &'static str,
        check_type: String,
        interval: String,
        group: String,
        badge: Badge,
        kpi: Kpi,
        /// The points of the chart, the oldest first.
        points: Vec<(String, u32)>,
    },
}

/// The status that the head of a monitor's page shows: the last, or an error where
/// there is none.
pub open spec fn head_status(results: Seq<CheckResult>) -> CheckStatus {
    if results.len() > 0 {
        results[0].status
    } else {
        CheckStatus::Error
    }
}

/// `l` is the page of a monitor of which `view` was read.
pub open spec fn is_target_layout(l: TargetLayout, view: TargetDetailView) -> bool {
    match l {
        TargetLayout::Failed { title, message, may_retry } => view.target is None
            && match view.error {
            Some(e) => title@ == "Failed to load monitor"@ && message@ == e@ && may_retry,
            None => title@ == "Monitor not found"@ && message@
                == "This monitor may have been deleted or the link is incorrect."@ && !may_retry,
        },
        TargetLayout::Shown {
            warning,
            name,
            id_label,
            enabled,
            check_type,
            interval,
            group,
            badge,
            kpi,
            points,
        } => {
            &&& view.target matches Some(t) && {
                &&& name@ == t.name@
                &&& id_label@ == "ID: "@ + crate::codec::id_text(t.id)
                &&& enabled@ == if t.enabled {
                    "Yes"@
                } else {
                    "No"@
                }
                &&& check_type@ == t.check.kind_name()
                &&& interval@ == crate::text::decimal(t.interval_secs as nat) + "s"@
                &&& group@ == match t.group_name {
                    Some(g) => g@,
                    None => "-"@,
                }
            }
            &&& warning == view.error
            &&& (badge.label@, badge.class@) == crate::ui::shell::check_marks(
                head_status(view.results@),
            )
            &&& are_figures(kpi, view.results@)
            &&& points@.len() == view.results@.len()
            &&& forall|i: int|
                0 <= i < points@.len() ==> {
                    let result = view.results@[view.results@.len() - 1 - i];
                    &&& (#[trigger] points@[i]).0@ == crate::time::internet_date_of(
                        result.timestamp as int,
                    )
                    &&& points@[i].1 == result.duration_ms
                }
        },
    }
}

/// The page of one monitor.
pub fn target_detail_page(view: TargetDetailView) -> (r: TargetLayout)
    requires
        view.results@.len() <= u32::MAX,
        forall|i: int|
            0 <= i < view.results@.len() ==> crate::time::on_calendar(
                (#[trigger] view.results@[i]).timestamp as int,
            ),
    ensures
        is_target_layout(r, view),
{
    match &view.target {
        None => match view.error {
            Some(e) => TargetLayout::Failed {
                title: "Failed to load monitor",
                message: e,
                may_retry: true,
            },
            None => TargetLayout::Failed {
                title: "Monitor not found",
                message: owned("This monitor may have been deleted or the link is incorrect."),
                may_retry: false,
            },
        },
        Some(t) => {
            let mut id_label = owned("ID: ");
            id_label.append(uuid_text(t.id).as_str());
            let mut interval = decimal_text(t.interval_secs);
            interval.append("s");
            let group = match &t.group_name {
                Some(g) => g.clone(),
                None => owned("-"),
            };
            let status = if view.results.len() > 0 {
                view.results[0].status
            } else {
                CheckStatus::Error
            };
            TargetLayout::Shown {
                name: t.name.clone(),
                id_label,
                enabled: if t.enabled {
                    "Yes"
                } else {
                    "No"
                },
                check_type: owned(t.check.kind()),
                interval,
                group,
                badge: check_status_badge(status),
                kpi: Kpi::from_results(&view.results),
                points: get_status_page_history(&view.results),
                warning: view.error,
            }
        },
    }
}

/// A slow or failed check lowers the uptime: no more checks are up than are counted,
/// and all that are counted are up only where none was anything else.
pub proof fn law_only_up_counts_as_up(k: Kpi, results: Seq<CheckResult>)
    requires
        are_figures(k, results),
    ensures
        k.up <= k.total,
        k.up == k.total <==> k.down == 0 && k.error == 0 && k.degraded == 0,
{
}

/// The duration that 95 in 100 checks do not exceed is that of one of the checks.
pub proof fn law_p95_is_a_duration(values: Seq<u32>)
    requires
        values.len() > 0,
    ensures
        values.contains(p95(values)),
{
    lemma_by_size();
    values.lemma_sort_by_ensures(by_size());
    let s = values.sort_by(by_size());
    vstd::seq_lib::to_multiset_len(values);
    vstd::seq_lib::to_multiset_len(s);
    let x = p95(values);
    assert(s[p95_rank(values.len()) - 1] == x);
    assert(s.contains(x));
    if !values.contains(x) {
        assert(!s.contains(x));
    }
}

} // verus!
