//! What the browser makes of results and events: strips of days, figures, calls and
//! forms.

use vstd::prelude::*;
use vstd::string::*;

use crate::domain::{CheckResult, CheckStatus};
use crate::time::Moment;
use crate::ui::client::{fetch_with_retry, AttemptOutcome, RetryStep};
use crate::ui::history::{bucket_into_days, DayState};
use crate::ui::login::{
    BootstrapAction, BootstrapEvent, BootstrapFormView, MagicLinkAction, MagicLinkEvent,
    MagicLinkFormView, MagicLinkStep,
};
use crate::ui::shell::{check_status_badge, enabled_badge, nav_link_class, Badge};
use crate::ui::target_detail::Kpi;

verus! {

/// How many of `results` are from a span of time and have one of two statuses.
pub open spec fn count_of(
    results: Seq<CheckResult>,
    from: int,
    to: int,
    one: CheckStatus,
    other: CheckStatus,
) -> nat {
    results.filter(
        |x: CheckResult| from <= x.timestamp < to && (x.status == one || x.status == other),
    ).len()
}

/// One more result is counted where it is from the span and has one of the statuses.
proof fn lemma_count_of(
    results: Seq<CheckResult>,
    from: int,
    to: int,
    one: CheckStatus,
    other: CheckStatus,
)
    requires
        results.len() > 0,
    ensures
        count_of(results, from, to, one, other) == count_of(
            results.drop_last(),
            from,
            to,
            one,
            other,
        ) + (if from <= results.last().timestamp < to && (results.last().status == one
            || results.last().status == other) {
            1nat
        } else {
            0nat
        }),
{
    reveal(Seq::filter);
}

/// A day and its span of 86,400 seconds.
proof fn lemma_day(t: int, day: int)
    ensures
        crate::time::day_number(t) == day <==> day * 86_400_000_000_000 <= t < (day + 1)
            * 86_400_000_000_000,
{
}

/// What is counted on a day is what its span holds.
proof fn lemma_tally(results: Seq<CheckResult>, day: int)
    ensures
        ({
            let a = day * 86_400_000_000_000;
            let b = (day + 1) * 86_400_000_000_000;
            &&& crate::ui::history::tally(results, day, crate::ui::history::Mark::Up) == count_of(
                results,
                a,
                b,
                CheckStatus::Up,
                CheckStatus::Up,
            )
            &&& crate::ui::history::tally(results, day, crate::ui::history::Mark::Slow)
                == count_of(results, a, b, CheckStatus::Degraded, CheckStatus::Degraded)
            &&& crate::ui::history::tally(results, day, crate::ui::history::Mark::Bad)
                == count_of(results, a, b, CheckStatus::Down, CheckStatus::Error)
        }),
    decreases results.len(),
{
    let a = day * 86_400_000_000_000;
    let b = (day + 1) * 86_400_000_000_000;
    if results.len() == 0 {
        reveal(Seq::filter);
    } else {
        lemma_tally(results.drop_last(), day);
        lemma_day(results.last().timestamp as int, day);
        lemma_count_of(results, a, b, CheckStatus::Up, CheckStatus::Up);
        lemma_count_of(results, a, b, CheckStatus::Degraded, CheckStatus::Degraded);
        lemma_count_of(results, a, b, CheckStatus::Down, CheckStatus::Error);
    }
}

/// What is counted on some days is what their span holds.
proof fn lemma_tally_within(results: Seq<CheckResult>, first: int, last: int)
    ensures
        ({
            let a = first * 86_400_000_000_000;
            let b = (last + 1) * 86_400_000_000_000;
            &&& crate::ui::history::tally_within(
                results,
                first,
                last,
                crate::ui::history::Mark::Up,
            ) == count_of(results, a, b, CheckStatus::Up, CheckStatus::Up)
            &&& crate::ui::history::tally_within(
                results,
                first,
                last,
                crate::ui::history::Mark::Bad,
            ) == count_of(results, a, b, CheckStatus::Down, CheckStatus::Error)
        }),
    decreases results.len(),
{
    let a = first * 86_400_000_000_000;
    let b = (last + 1) * 86_400_000_000_000;
    if results.len() == 0 {
        reveal(Seq::filter);
    } else {
        lemma_tally_within(results.drop_last(), first, last);
        let t = results.last().timestamp as int;
        lemma_day(t, crate::time::day_number(t));
        lemma_count_of(results, a, b, CheckStatus::Up, CheckStatus::Up);
        lemma_count_of(results, a, b, CheckStatus::Down, CheckStatus::Error);
    }
}

/// A strip has 90 days, the last of which is today. A day is as bad as its results: blank
/// without any, operational where all are up, degraded where some are slow and none is
/// bad, and otherwise a major outage where at least half are bad and a partial one where
/// fewer are.
pub proof fn law_days_are_as_bad_as_their_results(
    results: &Vec<CheckResult>,
    now: Moment,
    today: int,
    r: (Vec<Option<DayState>>, Option<(u32, u32)>),
    i: int,
)
    requires
        call_ensures(bucket_into_days, (results, now), r),
        today * 86_400_000_000_000 <= now < (today + 1) * 86_400_000_000_000,
        0 <= i < 90,
    ensures
        r.0@.len() == 90,
        ({
            let a = (today - 89 + i) * 86_400_000_000_000;
            let b = (today - 88 + i) * 86_400_000_000_000;
            let up = count_of(results@, a, b, CheckStatus::Up, CheckStatus::Up);
            let slow = count_of(results@, a, b, CheckStatus::Degraded, CheckStatus::Degraded);
            let bad = count_of(results@, a, b, CheckStatus::Down, CheckStatus::Error);
            &&& r.0@[i] is None <==> up + slow + bad == 0
            &&& r.0@[i] == Some(DayState::Operational) <==> up > 0 && slow + bad == 0
            &&& r.0@[i] == Some(DayState::Degraded) <==> slow > 0 && bad == 0
            &&& r.0@[i] == Some(DayState::Major) <==> bad > 0 && 2 * bad >= up + slow + bad
            &&& r.0@[i] == Some(DayState::Partial) <==> bad > 0 && 2 * bad < up + slow + bad
        }),
{
    lemma_day(now as int, today);
    assert(r.0@[i] == crate::ui::history::state_on(
        results@,
        crate::ui::history::first_day(now as int) + i,
    ));
    lemma_tally(results@, today - 89 + i);
}

/// The share that is given is of the results of those 90 days that are up or bad: first how
/// many are up, then how many there are.
pub proof fn law_the_share_is_of_ninety_days(
    results: &Vec<CheckResult>,
    now: Moment,
    today: int,
    r: (Vec<Option<DayState>>, Option<(u32, u32)>),
)
    requires
        call_ensures(bucket_into_days, (results, now), r),
        today * 86_400_000_000_000 <= now < (today + 1) * 86_400_000_000_000,
    ensures
        ({
            let a = (today - 89) * 86_400_000_000_000;
            let b = (today + 1) * 86_400_000_000_000;
            let up = count_of(results@, a, b, CheckStatus::Up, CheckStatus::Up);
            let bad = count_of(results@, a, b, CheckStatus::Down, CheckStatus::Error);
            &&& r.1 is None <==> up + bad == 0
            &&& r.1 matches Some(share) ==> share.0 == up && share.1 == up + bad
        }),
{
    lemma_day(now as int, today);
    lemma_tally_within(results@, today - 89, today);
}

/// A call that was not answered, or was by a fault of the server, is made again after half
/// a second and then after a second; anything else is handed back.
pub proof fn law_calls_are_made_again_twice(attempt: u32, outcome: AttemptOutcome, r: RetryStep)
    requires
        call_ensures(fetch_with_retry, (attempt, outcome), r),
    ensures
        ({
            let passing = outcome == AttemptOutcome::Failed || (outcome matches
                AttemptOutcome::Answered { status } && status >= 500);
            &&& attempt == 0 && passing ==> r == (RetryStep::WaitAndRetry { delay_ms: 500 })
            &&& attempt == 1 && passing ==> r == (RetryStep::WaitAndRetry { delay_ms: 1_000 })
            &&& attempt >= 2 || !passing ==> r == RetryStep::HandBack
        }),
{
    reveal_with_fuel(crate::ui::client::backoff_ms, 3);
}

/// How many of `results` have a status.
proof fn lemma_count_status(results: Seq<CheckResult>, status: CheckStatus)
    ensures
        crate::ui::target_detail::count_status(results, status) == results.filter(
            |x: CheckResult| x.status == status,
        ).len(),
    decreases results.len(),
{
    reveal(Seq::filter);
    if results.len() > 0 {
        lemma_count_status(results.drop_last(), status);
    }
}

/// The figures of a monitor count its results by status, and those with one that has a
/// name altogether; the first result is the latest.
pub proof fn law_figures_count_the_results(rs: &Vec<CheckResult>, r: Kpi)
    requires
        call_ensures(Kpi::from_results, (rs,), r),
    ensures
        r.up == rs@.filter(|x: CheckResult| x.status == CheckStatus::Up).len(),
        r.down == rs@.filter(|x: CheckResult| x.status == CheckStatus::Down).len(),
        r.error == rs@.filter(|x: CheckResult| x.status == CheckStatus::Error).len(),
        r.degraded == rs@.filter(|x: CheckResult| x.status == CheckStatus::Degraded).len(),
        r.total == r.up + r.down + r.error + r.degraded,
        rs@.len() == 0 ==> r.latest_ms == 0 && r.p95_ms == 0,
        rs@.len() > 0 ==> r.latest_ms == rs@[0].duration_ms,
{
    lemma_count_status(rs@, CheckStatus::Up);
    lemma_count_status(rs@, CheckStatus::Down);
    lemma_count_status(rs@, CheckStatus::Error);
    lemma_count_status(rs@, CheckStatus::Degraded);
}

/// Taking a value out takes it out of what is kept, where it was.
proof fn lemma_filter_without(s: Seq<u32>, k: int, keep: spec_fn(u32) -> bool)
    requires
        0 <= k < s.len(),
    ensures
        s.filter(keep).len() == s.remove(k).filter(keep).len() + (if keep(s[k]) {
            1nat
        } else {
            0nat
        }),
{
    let a = s.take(k);
    let b = s.skip(k + 1);
    assert(s =~= a + seq![s[k]] + b);
    assert(s.remove(k) =~= a + b);
    Seq::filter_distributes_over_add(a + seq![s[k]], b, keep);
    Seq::filter_distributes_over_add(a, seq![s[k]], keep);
    Seq::filter_distributes_over_add(a, b, keep);
    reveal(Seq::filter);
    assert(seq![s[k]].drop_last() =~= Seq::<u32>::empty());
    assert(seq![s[k]].drop_last().filter(keep).len() == 0);
}

/// The same values in another order keep as many.
proof fn lemma_filter_of_same(s: Seq<u32>, t: Seq<u32>, keep: spec_fn(u32) -> bool)
    requires
        s.to_multiset() == t.to_multiset(),
    ensures
        s.filter(keep).len() == t.filter(keep).len(),
    decreases s.len(),
{
    broadcast use vstd::seq_lib::group_to_multiset_ensures;

    assert(s.to_multiset().len() == s.len() && t.to_multiset().len() == t.len());
    if s.len() == 0 {
        reveal(Seq::filter);
    } else {
        let x = s[0];
        assert(s.contains(x));
        assert(s.to_multiset().count(x) > 0);
        assert(t.contains(x));
        let k = choose|k: int| 0 <= k < t.len() && t[k] == x;
        assert(s.remove(0).to_multiset() =~= s.to_multiset().remove(x));
        assert(t.remove(k).to_multiset() =~= t.to_multiset().remove(x));
        lemma_filter_of_same(s.remove(0), t.remove(k), keep);
        lemma_filter_without(s, 0, keep);
        lemma_filter_without(t, k, keep);
    }
}

/// Where all are kept, as many are as there were.
proof fn lemma_all_kept(s: Seq<u32>, keep: spec_fn(u32) -> bool)
    requires
        forall|i: int| 0 <= i < s.len() ==> keep(#[trigger] s[i]),
    ensures
        s.filter(keep).len() == s.len(),
    decreases s.len(),
{
    reveal(Seq::filter);
    if s.len() > 0 {
        assert(keep(s[s.len() - 1]));
        assert forall|i: int| 0 <= i < s.drop_last().len() implies keep(
            #[trigger] s.drop_last()[i],
        ) by {
            assert(keep(s[i]));
        }
        lemma_all_kept(s.drop_last(), keep);
    }
}

/// At least 95 in 100 results took no longer than the figure says, and fewer than 95 in
/// 100 took less: it is the shortest of the times of which this is so.
pub proof fn law_ninety_five_percent_take_no_longer(rs: &Vec<CheckResult>, r: Kpi)
    requires
        call_ensures(Kpi::from_results, (rs,), r),
        rs@.len() > 0,
    ensures
        100 * rs@.filter(|x: CheckResult| x.duration_ms <= r.p95_ms).len() >= 95 * rs@.len(),
        100 * rs@.filter(|x: CheckResult| x.duration_ms < r.p95_ms).len() < 95 * rs@.len(),
        exists|i: int| 0 <= i < rs@.len() && (#[trigger] rs@[i]).duration_ms == r.p95_ms,
{
    let values = crate::ui::target_detail::durations(rs@);
    let order = crate::ui::target_detail::by_size();
    let sorted = values.sort_by(order);
    let n = values.len() as int;
    let rank = crate::ui::target_detail::p95_rank(values.len()) as int;
    let p = r.p95_ms;
    assert(vstd::relations::total_ordering(order)) by {
        assert(vstd::relations::reflexive(order));
        assert(vstd::relations::antisymmetric(order));
        assert(vstd::relations::transitive(order));
        assert(vstd::relations::strongly_connected(order));
    }
    values.lemma_sort_by_ensures(order);
    assert(sorted.len() == n) by {
        broadcast use vstd::seq_lib::group_to_multiset_ensures;

        assert(sorted.to_multiset().len() == values.to_multiset().len());
    }
    assert(1 <= rank <= n);
    assert(p == sorted[rank - 1]);
    let upto = |v: u32| v <= p;
    let below = |v: u32| v < p;
    lemma_filter_of_same(values, sorted, upto);
    lemma_filter_of_same(values, sorted, below);
    let head = sorted.take(rank);
    let tail = sorted.skip(rank);
    assert(sorted =~= head + tail);
    Seq::filter_distributes_over_add(head, tail, upto);
    assert forall|i: int| 0 <= i < head.len() implies upto(#[trigger] head[i]) by {
        if i < rank - 1 {
            assert(order(sorted[i], sorted[rank - 1]));
        }
    }
    lemma_all_kept(head, upto);
    let first = sorted.take(rank - 1);
    let rest = sorted.skip(rank - 1);
    assert(sorted =~= first + rest);
    Seq::filter_distributes_over_add(first, rest, below);
    assert forall|i: int| 0 <= i < rest.len() implies !below(#[trigger] rest[i]) by {
        if i > 0 {
            assert(order(sorted[rank - 1], sorted[rank - 1 + i]));
        }
    }
    rest.lemma_all_neg_filter_empty(below);
    first.lemma_filter_len(below);
    lemma_durations(rs@, upto);
    lemma_durations(rs@, below);
    let long = |x: CheckResult| upto(x.duration_ms);
    let same_long = |x: CheckResult| x.duration_ms <= r.p95_ms;
    assert(long =~= same_long);
    let short = |x: CheckResult| below(x.duration_ms);
    let same_short = |x: CheckResult| x.duration_ms < r.p95_ms;
    assert(short =~= same_short);
    crate::ui::target_detail::law_p95_is_a_duration(values);
    let k = choose|k: int| 0 <= k < values.len() && values[k] == p;
    assert(rs@[k].duration_ms == p);
}

/// Results are counted by their times as the times are.
proof fn lemma_durations(results: Seq<CheckResult>, keep: spec_fn(u32) -> bool)
    ensures
        results.filter(|x: CheckResult| keep(x.duration_ms)).len()
            == crate::ui::target_detail::durations(results).filter(keep).len(),
    decreases results.len(),
{
    reveal(Seq::filter);
    let all = crate::ui::target_detail::durations(results);
    if results.len() > 0 {
        lemma_durations(results.drop_last(), keep);
        assert(all.drop_last() =~= crate::ui::target_detail::durations(results.drop_last()));
        assert(all.last() == results.last().duration_ms);
    }
}

/// What is typed into the form for the first user stands in it; an address has to be there
/// before anything is sent; a failure is told and the form can be sent again.
pub proof fn law_the_first_user_is_made_by_address(
    f: BootstrapFormView,
    e: BootstrapEvent,
    a: BootstrapAction,
    address: &str,
    bare: String,
    name: &str,
    bare_name: String,
)
    requires
        crate::ui::login::bootstrap_asks(a, f, e),
        address@ == f.email,
        call_ensures(crate::text::trim, (address,), bare),
        name@ == f.display_name,
        call_ensures(crate::text::trim, (name,), bare_name),
    ensures
        ({
            let g = crate::ui::login::bootstrap_next(f, e);
            &&& e matches BootstrapEvent::EmailTyped(t) ==> g.email == t@ && a is Nothing
            &&& !(e is EmailTyped) ==> g.email == f.email
            &&& e matches BootstrapEvent::NameTyped(t) ==> g.display_name == t@ && a is Nothing
            &&& !(e is NameTyped) ==> g.display_name == f.display_name
            &&& e is Submitted && bare@.len() == 0 ==> a is Nothing && g.error == Some(
                "Email is required"@,
            ) && g.loading == f.loading
            &&& e is Submitted && bare@.len() > 0 ==> g.loading && g.error is None && (a matches
                BootstrapAction::Create { email, display_name } && email@ == bare@ && (display_name
                is None <==> bare_name@.len() == 0) && (display_name matches Some(d) ==> d@
                == bare_name@))
            &&& e matches BootstrapEvent::Answered(Err(m)) ==> !g.loading && g.error == Some(m@)
                && a is Nothing
            &&& a is LoggedIn <==> (e matches BootstrapEvent::Answered(Ok(_)))
        }),
{
}

/// Signing in goes from the address to the token: an accepted address leads on to the
/// token, going back leads to the address, and nothing else changes the step.
pub proof fn law_signing_in_goes_from_address_to_token(
    f: MagicLinkFormView,
    e: MagicLinkEvent,
    a: MagicLinkAction,
    address: &str,
    bare_address: String,
    token: &str,
    bare_token: String,
)
    requires
        crate::ui::login::magic_link_asks(a, f, e),
        address@ == f.email,
        call_ensures(crate::text::trim, (address,), bare_address),
        token@ == f.token,
        call_ensures(crate::text::trim, (token,), bare_token),
    ensures
        ({
            let g = crate::ui::login::magic_link_next(f, e);
            let sent = e matches MagicLinkEvent::RequestAnswered { result: Ok(_), .. };
            &&& sent ==> g.step == MagicLinkStep::Verify && g.info is Some && !g.loading
            &&& e is BackClicked ==> g.step == MagicLinkStep::Request && g.token.len() == 0
                && g.error is None && g.info is None
            &&& !sent && !(e is BackClicked) ==> g.step == f.step && g.info == f.info
            &&& e matches MagicLinkEvent::EmailTyped(t) ==> g.email == t@
            &&& !(e is EmailTyped) ==> g.email == f.email
            &&& e matches MagicLinkEvent::TokenTyped(t) ==> g.token == t@
            &&& !(e is TokenTyped) && !(e is BackClicked) ==> g.token == f.token
            &&& e matches MagicLinkEvent::RequestAnswered { result: Err(m), .. } ==> g.error
                == Some(m@) && !g.loading
            &&& e matches MagicLinkEvent::VerifyAnswered { result: Err(m) } ==> g.error == Some(
                m@,
            ) && !g.loading
            &&& e is Submitted && f.step == MagicLinkStep::Request && bare_address@.len() > 0 ==> (
            a matches MagicLinkAction::RequestLink { email } && email@ == bare_address@)
                && g.loading && g.error is None
            &&& e is Submitted && f.step == MagicLinkStep::Verify && bare_token@.len() > 0 ==> (
            a matches MagicLinkAction::VerifyToken { token: t } && t@ == bare_token@) && g.loading
                && g.error is None
            &&& e is Submitted && f.step == MagicLinkStep::Request && bare_address@.len() == 0
                ==> a is Nothing && g.error == Some("Email is required"@) && g.loading == f.loading
            &&& e is Submitted && f.step == MagicLinkStep::Verify && bare_token@.len() == 0 ==> a
                is Nothing && g.error == Some("Token is required"@) && g.loading == f.loading
            &&& a is LoggedIn <==> (e matches MagicLinkEvent::VerifyAnswered { result: Ok(_) })
        }),
{
}

/// What is said once a link was asked for names the address, and does not say whether
/// anybody has it.
pub proof fn law_the_note_names_the_address(f: MagicLinkFormView, email: String)
    ensures
        crate::ui::login::magic_link_next(
            f,
            (MagicLinkEvent::RequestAnswered { email, result: Ok(()) }),
        ).info == Some(
            "If an account exists for "@ + email@
                + ", a sign-in link has been sent. Enter the token below to continue."@,
        ),
{
}

/// A link in the navigation is marked where it leads to where one is or to what that is a
/// part of; the link to the start is marked at the start alone.
pub proof fn law_links_are_marked_where_one_is(
    path: &str,
    href: &str,
    under: bool,
    r: &'static str,
)
    requires
        call_ensures(nav_link_class, (path, href), r),
        call_ensures(crate::text::starts_with_text, (path, href), under),
    ensures
        path@ == href@ ==> r@ == "nav-link nav-link--active"@,
        under && href@ != "/"@ ==> r@ == "nav-link nav-link--active"@,
        !under && path@ != href@ ==> r@ == "nav-link"@,
        href@ == "/"@ && path@ != "/"@ ==> r@ == "nav-link"@,
{
}

/// The marks for outcomes and switches.
pub proof fn law_marks_say_how_it_is(
    status: CheckStatus,
    r: Badge,
    enabled: bool,
    s: Badge,
)
    requires
        call_ensures(check_status_badge, (status,), r),
        call_ensures(enabled_badge, (enabled,), s),
    ensures
        status == CheckStatus::Up ==> r.label@ == "Operational"@ && r.class@
            == "status-badge status-badge--up"@,
        status == CheckStatus::Down ==> r.label@ == "Down"@ && r.class@
            == "status-badge status-badge--down"@,
        status == CheckStatus::Degraded ==> r.label@ == "Degraded"@ && r.class@
            == "status-badge status-badge--degraded"@,
        status == CheckStatus::Error ==> r.label@ == "Error"@ && r.class@
            == "status-badge status-badge--error"@,
        status == CheckStatus::Unknown ==> r.label@ == "Unknown"@ && r.class@
            == "status-badge status-badge--unknown"@,
        enabled ==> s.label@ == "Enabled"@ && s.class@ == "status-badge status-badge--up"@,
        !enabled ==> s.label@ == "Disabled"@ && s.class@ == "status-badge status-badge--pending"@,
{
}

} // verus!
