//! Check results gathered into a strip of days.

use vstd::prelude::*;

use crate::domain::{CheckResult, CheckStatus};
use crate::time::{day_of, Moment};

verus! {

/// How many days a strip shows.
pub const HISTORY_DAYS: usize = 90;

/// How many results a strip is made of.
pub const HISTORY_FETCH_LIMIT: u32 = 200;

/// How a day went.
#[derive(Clone, Copy, Debug, PartialEq, Eq, Structural)]
pub enum DayState {
    Operational,
    Degraded,
    Partial,
    Major,
}

impl DayState {
    /// The class of a day's cell.
    pub open spec fn class(self) -> Seq<char> {
        match self {
            DayState::Operational => "day-cell--op"@,
            DayState::Degraded => "day-cell--deg"@,
            DayState::Partial => "day-cell--part"@,
            DayState::Major => "day-cell--maj"@,
        }
    }

    /// The words for a day.
    pub open spec fn label(self) -> Seq<char> {
        match self {
            DayState::Operational => "Operational"@,
            DayState::Degraded => "Degraded"@,
            DayState::Partial => "Partial outage"@,
            DayState::Major => "Major outage"@,
        }
    }

    /// The class of this day's cell.
    pub fn cell_class(self) -> (r: &'static str)
        ensures
            r@ == self.class(),
    {
        match self {
            DayState::Operational => "day-cell--op",
            DayState::Degraded => "day-cell--deg",
            DayState::Partial => "day-cell--part",
            DayState::Major => "day-cell--maj",
        }
    }

    /// The words for this day.
    pub fn aria_label(self) -> (r: &'static str)
        ensures
            r@ == self.label(),
    {
        match self {
            DayState::Operational => "Operational",
            DayState::Degraded => "Degraded",
            DayState::Partial => "Partial outage",
            DayState::Major => "Major outage",
        }
    }
}

/// What a check's outcome counts as.
#[derive(Clone, Copy, Debug, PartialEq, Eq, Structural)]
pub enum Mark {
    Up,
    Slow,
    Bad,
}

/// What an outcome counts as. One that has no name counts as nothing.
pub open spec fn mark_of(status: CheckStatus) -> Option<Mark> {
    match status {
        CheckStatus::Up => Some(Mark::Up),
        CheckStatus::Degraded => Some(Mark::Slow),
        CheckStatus::Down => Some(Mark::Bad),
        CheckStatus::Error => Some(Mark::Bad),
        CheckStatus::Unknown => None,
    }
}

/// How many of `results` fell on the day `day` and count as `mark`.
pub open spec fn tally(results: Seq<CheckResult>, day: int, mark: Mark) -> nat
    decreases results.len(),
{
    if results.len() == 0 {
        0
    } else {
        tally(results.drop_last(), day, mark) + (if crate::time::day_number(
            results.last().timestamp as int,
        ) == day && mark_of(results.last().status) == Some(mark) {
            1nat
        } else {
            0nat
        })
    }
}

/// How many of `results` fell on one of the days from `first` to `last` and count as
/// `mark`.
pub open spec fn tally_within(results: Seq<CheckResult>, first: int, last: int, mark: Mark) -> nat
    decreases results.len(),
{
    if results.len() == 0 {
        0
    } else {
        tally_within(results.drop_last(), first, last, mark) + (if first
            <= crate::time::day_number(results.last().timestamp as int) <= last && mark_of(
            results.last().status,
        ) == Some(mark) {
            1nat
        } else {
            0nat
        })
    }
}

/// How a day with these counts went: unknown where nothing was counted, and major
/// where at least half went badly.
pub open spec fn day_state(up: nat, slow: nat, bad: nat) -> Option<DayState> {
    if up + slow + bad == 0 {
        None
    } else if bad == 0 && slow == 0 {
        Some(DayState::Operational)
    } else if bad == 0 {
        Some(DayState::Degraded)
    } else if bad * 2 >= up + slow + bad {
        Some(DayState::Major)
    } else {
        Some(DayState::Partial)
    }
}

/// How the day `day` went.
pub open spec fn state_on(results: Seq<CheckResult>, day: int) -> Option<DayState> {
    day_state(
        tally(results, day, Mark::Up),
        tally(results, day, Mark::Slow),
        tally(results, day, Mark::Bad),
    )
}

/// The first day of a strip that ends on the day of `now`.
pub open spec fn first_day(now: int) -> int {
    crate::time::day_number(now) - (HISTORY_DAYS - 1)
}

/// Of the results within the strip that are up or bad, how many are up and how many
/// there are; `None` where there are none.
pub open spec fn uptime_within(results: Seq<CheckResult>, now: int) -> Option<(int, int)> {
    let up = tally_within(results, first_day(now), crate::time::day_number(now), Mark::Up);
    let bad = tally_within(results, first_day(now), crate::time::day_number(now), Mark::Bad);
    if up + bad == 0 {
        None
    } else {
        Some((up as int, (up + bad) as int))
    }
}

/// How the counted day went.
fn classify_day(up: u32, slow: u32, bad: u32) -> (r: Option<DayState>)
    ensures
        r == day_state(up as nat, slow as nat, bad as nat),
{
    let rest: u64 = up as u64 + slow as u64;
    if up == 0 && slow == 0 && bad == 0 {
        None
    } else if bad == 0 && slow == 0 {
        Some(DayState::Operational)
    } else if bad == 0 {
        Some(DayState::Degraded)
    } else if bad as u64 >= rest {
        Some(DayState::Major)
    } else {
        Some(DayState::Partial)
    }
}

/// So many noughts.
fn zeros(n: usize) -> (r: Vec<u32>)
    ensures
        r@.len() == n,
        forall|i: int| 0 <= i < n ==> r@[i] == 0,
{
    let mut out: Vec<u32> = Vec::new();
    let mut i: usize = 0;
    while i < n
        invariant
            i <= n,
            out@.len() == i,
            forall|k: int| 0 <= k < i ==> out@[k] == 0,
        decreases n - i,
    {
        out.push(0);
        i += 1;
    }
    out
}

/// No more of `results` are counted than there are.
proof fn lemma_tally_bounded(results: Seq<CheckResult>, day: int, mark: Mark)
    ensures
        tally(results, day, mark) <= results.len(),
    decreases results.len(),
{
    if results.len() > 0 {
        lemma_tally_bounded(results.drop_last(), day, mark);
    }
}

/// No more of `results` are counted than there are, whatever they count as.
proof fn lemma_tally_within_bounded(results: Seq<CheckResult>, first: int, last: int)
    ensures
        tally_within(results, first, last, Mark::Up) + tally_within(
            results,
            first,
            last,
            Mark::Bad,
        ) <= results.len(),
    decreases results.len(),
{
    if results.len() > 0 {
        lemma_tally_within_bounded(results.drop_last(), first, last);
    }
}

/// Gathers results into a strip of days that ends with the day of `now`, and counts
/// how many of them were up. What lies outside of the strip is passed over.
pub fn bucket_into_days(results: &Vec<CheckResult>, now: Moment) -> (r: (
    Vec<Option<DayState>>,
    Option<(u32, u32)>,
))
    requires
        results@.len() <= u32::MAX,
        crate::time::on_calendar(now as int),
        forall|i: int|
            0 <= i < results@.len() ==> crate::time::on_calendar(
                (#[trigger] results@[i]).timestamp as int,
            ),
    ensures
        r.0@.len() == HISTORY_DAYS,
        forall|i: int|
            0 <= i < HISTORY_DAYS ==> #[trigger] r.0@[i] == state_on(
                results@,
                first_day(now as int) + i,
            ),
        match r.1 {
            Some(share) => uptime_within(results@, now as int) == Some(
                (share.0 as int, share.1 as int),
            ),
            None => uptime_within(results@, now as int) is None,
        },
{
    let today: i64 = day_of(now);
    let start: i64 = today - 89;
    let mut day_up = zeros(HISTORY_DAYS);
    let mut day_slow = zeros(HISTORY_DAYS);
    let mut day_bad = zeros(HISTORY_DAYS);
    let mut total_up: u32 = 0;
    let mut total_bad: u32 = 0;
    let mut n: usize = 0;
    while n < results.len()
        invariant
            n <= results.len(),
            results@.len() <= u32::MAX,
            start == first_day(now as int),
            today == crate::time::day_number(now as int),
            start + 89 == today,
            crate::time::on_calendar(now as int),
            forall|i: int|
                0 <= i < results@.len() ==> crate::time::on_calendar(
                    (#[trigger] results@[i]).timestamp as int,
                ),
            day_up@.len() == HISTORY_DAYS,
            day_slow@.len() == HISTORY_DAYS,
            day_bad@.len() == HISTORY_DAYS,
            forall|i: int|
                0 <= i < HISTORY_DAYS ==> #[trigger] day_up@[i] == tally(
                    results@.take(n as int),
                    start + i,
                    Mark::Up,
                ),
            forall|i: int|
                0 <= i < HISTORY_DAYS ==> #[trigger] day_slow@[i] == tally(
                    results@.take(n as int),
                    start + i,
                    Mark::Slow,
                ),
            forall|i: int|
                0 <= i < HISTORY_DAYS ==> #[trigger] day_bad@[i] == tally(
                    results@.take(n as int),
                    start + i,
                    Mark::Bad,
                ),
            total_up == tally_within(
                results@.take(n as int),
                start as int,
                today as int,
                Mark::Up,
            ),
            total_bad == tally_within(
                results@.take(n as int),
                start as int,
                today as int,
                Mark::Bad,
            ),
        decreases results.len() - n,
    {
        let result = &results[n];
        let day: i64 = day_of(result.timestamp);
        let ghost before = results@.take(n as int);
        proof {
            let next = results@.take(n + 1);
            assert(next.last() == results@[n as int]);
            assert(next.drop_last() =~= before);
            lemma_tally_within_bounded(before, start as int, today as int);
            assert forall|i: int, m: Mark| 0 <= i < HISTORY_DAYS implies #[trigger] tally(
                before,
                start + i,
                m,
            ) <= n by {
                lemma_tally_bounded(before, start + i, m);
            }
        }
        if start <= day && day <= today {
            let at: usize = (day - start) as usize;
            match result.status {
                CheckStatus::Up => {
                    assert(day_up@[at as int] == tally(before, start + at, Mark::Up));
                    let count: u32 = day_up[at];
                    day_up.set(at, count + 1);
                    total_up += 1;
                },
                CheckStatus::Degraded => {
                    assert(day_slow@[at as int] == tally(before, start + at, Mark::Slow));
                    let count: u32 = day_slow[at];
                    day_slow.set(at, count + 1);
                },
                CheckStatus::Down | CheckStatus::Error => {
                    assert(day_bad@[at as int] == tally(before, start + at, Mark::Bad));
                    let count: u32 = day_bad[at];
                    day_bad.set(at, count + 1);
                    total_bad += 1;
                },
                CheckStatus::Unknown => {},
            }
        }
        n += 1;
    }
    assert(results@.take(n as int) =~= results@);
    let mut days: Vec<Option<DayState>> = Vec::new();
    let mut i: usize = 0;
    while i < HISTORY_DAYS
        invariant
            i <= HISTORY_DAYS,
            start == first_day(now as int),
            day_up@.len() == HISTORY_DAYS,
            day_slow@.len() == HISTORY_DAYS,
            day_bad@.len() == HISTORY_DAYS,
            forall|k: int|
                0 <= k < HISTORY_DAYS ==> #[trigger] day_up@[k] == tally(
                    results@,
                    start + k,
                    Mark::Up,
                ),
            forall|k: int|
                0 <= k < HISTORY_DAYS ==> #[trigger] day_slow@[k] == tally(
                    results@,
                    start + k,
                    Mark::Slow,
                ),
            forall|k: int|
                0 <= k < HISTORY_DAYS ==> #[trigger] day_bad@[k] == tally(
                    results@,
                    start + k,
                    Mark::Bad,
                ),
            days@.len() == i,
            forall|k: int|
                0 <= k < i ==> #[trigger] days@[k] == state_on(
                    results@,
                    first_day(now as int) + k,
                ),
        decreases HISTORY_DAYS - i,
    {
        days.push(classify_day(day_up[i], day_slow[i], day_bad[i]));
        i += 1;
    }
    proof {
        lemma_tally_within_bounded(results@, start as int, today as int);
    }
    let total: u32 = total_up + total_bad;
    let share = if total == 0 {
        None
    } else {
        Some((total_up, total))
    };
    (days, share)
}

/// A day on which nothing is known to have been checked is blank, and only such a
/// day is.
pub proof fn law_blank_days_have_no_results(results: Seq<CheckResult>, day: int)
    ensures
        state_on(results, day) is None <==> forall|i: int|
            0 <= i < results.len() && crate::time::day_number(
                (#[trigger] results[i]).timestamp as int,
            ) == day ==> mark_of(results[i].status) is None,
    decreases results.len(),
{
    if results.len() > 0 {
        let head = results.drop_last();
        law_blank_days_have_no_results(head, day);
        assert(forall|i: int| 0 <= i < head.len() ==> head[i] == results[i]);
        if state_on(results, day) is None {
            assert(state_on(head, day) is None);
            assert forall|i: int|
                0 <= i < results.len() && crate::time::day_number(
                    (#[trigger] results[i]).timestamp as int,
                ) == day implies mark_of(results[i].status) is None by {
                if i < head.len() {
                    assert(head[i] == results[i]);
                }
            }
        } else if forall|i: int|
            0 <= i < results.len() && crate::time::day_number(
                (#[trigger] results[i]).timestamp as int,
            ) == day ==> mark_of(results[i].status) is None {
            assert(forall|i: int|
                0 <= i < head.len() && crate::time::day_number(
                    (#[trigger] head[i]).timestamp as int,
                ) == day ==> mark_of(head[i].status) is None);
            assert(results[results.len() - 1] == results.last());
        }
    }
}

/// A day is operational exactly where something was checked and nothing known was
/// anything but up.
pub proof fn law_operational_days_are_all_up(up: nat, slow: nat, bad: nat)
    ensures
        day_state(up, slow, bad) == Some(DayState::Operational) <==> up > 0 && slow == 0 && bad
            == 0,
        day_state(up, slow, bad) == Some(DayState::Major) <==> bad > 0 && bad >= up + slow,
{
}

/// The share of what was up is a share: no more was up than was counted, and
/// something was counted.
pub proof fn law_uptime_is_a_share(results: Seq<CheckResult>, now: int)
    ensures
        uptime_within(results, now) matches Some(share) ==> 0 <= share.0 <= share.1 && share.1 > 0,
{
}

} // verus!
