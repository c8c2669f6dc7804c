//! The escalation ladder: who is paged next for an incident that nobody has
//! acknowledged, and when it ends.

use vstd::prelude::*;
use vstd::string::*;

use crate::codec::{uuid_text, Id};
use crate::domain::Incident;
use crate::engine::incident_writer::{put_off_by, IncidentEscalationState};
use crate::error::AppError;
use crate::text::{chars_of, find_char, matches_at, owned, slice_of, trim_end_slashes};
use crate::time::{display_date, Moment};

verus! {

/// How many seconds pass between two sweeps over the escalations that are due.
pub const TICK_INTERVAL_SECS: u64 = 30;

/// What sort of thing a step pages.
#[derive(Clone, Copy, Debug, PartialEq, Eq, Structural)]
pub enum EscalationTargetType {
    Channel,
    User,
    Schedule,
    Unknown,
}

/// One thing that a step pages.
#[derive(Clone, Copy, Debug, PartialEq, Eq, Structural)]
pub struct EscalationTarget {
    pub id: Id,
    pub target_type: EscalationTargetType,
    pub channel_id: Option<Id>,
    pub user_id: Option<Id>,
    pub schedule_id: Option<Id>,
}

/// One rung of the ladder. The next rung waits for `delay_secs`.
#[derive(Clone, Debug)]
pub struct EscalationStep {
    pub id: Id,
    pub level: i32,
    pub delay_secs: i32,
    pub targets: Vec<EscalationTarget>,
}

/// A ladder and how often it is climbed again.
#[derive(Clone, Debug)]
pub struct EscalationPolicy {
    pub id: Id,
    pub name: String,
    pub description: Option<String>,
    pub repeat_count: i32,
    pub steps: Vec<EscalationStep>,
    pub created_at: Moment,
    pub updated_at: Moment,
}

/// What the ladder says comes next.
#[derive(Clone, Copy, Debug, PartialEq, Eq, Structural)]
pub enum EscalationDecision {
    Page { level: i32, round: i32, delay_secs: i32 },
    Exhausted,
    /// A decision that this version has no name for; it ends the escalation.
    Unknown,
}

/// Whether step `i` is the lowest of those above `level`, the first of them
/// where levels repeat.
pub open spec fn is_next_above(steps: Seq<EscalationStep>, level: int, i: int) -> bool {
    &&& 0 <= i < steps.len()
    &&& steps[i].level > level
    &&& forall|j: int|
        0 <= j < steps.len() && (#[trigger] steps[j]).level > level ==> steps[i].level
            <= steps[j].level
    &&& forall|j: int| 0 <= j < i ==> (#[trigger] steps[j]).level != steps[i].level
}

/// Whether no step lies above `level`.
pub open spec fn none_above(steps: Seq<EscalationStep>, level: int) -> bool {
    forall|j: int| 0 <= j < steps.len() ==> (#[trigger] steps[j]).level <= level
}

/// Whether the lowest step above `from` has this level and this delay.
pub open spec fn next_rung(
    steps: Seq<EscalationStep>,
    from: int,
    level: i32,
    delay_secs: i32,
) -> bool {
    exists|i: int|
        {
            &&& #[trigger] is_next_above(steps, from, i)
            &&& steps[i].level == level
            &&& steps[i].delay_secs == delay_secs
        }
}

/// `d` is what comes after paging `level` in round `round`: the next rung up; from
/// the top, the lowest rung again while repeats are left; and then nothing.
pub open spec fn is_next_step(
    d: EscalationDecision,
    steps: Seq<EscalationStep>,
    repeat_count: i32,
    level: i32,
    round: i32,
) -> bool {
    match d {
        EscalationDecision::Page { level: l, round: r, delay_secs } => {
            ||| r == round && next_rung(steps, level as int, l, delay_secs)
            ||| {
                &&& none_above(steps, level as int)
                &&& round < repeat_count
                &&& r == round + 1
                &&& next_rung(steps, i32::MIN - 1, l, delay_secs)
            }
        },
        EscalationDecision::Exhausted => none_above(steps, level as int) && (round >= repeat_count
            || steps.len() == 0),
        EscalationDecision::Unknown => false,
    }
}

/// The lowest step above `level`.
fn next_above(steps: &Vec<EscalationStep>, level: i64) -> (r: Option<usize>)
    ensures
        match r {
            Some(i) => is_next_above(steps@, level as int, i as int),
            None => none_above(steps@, level as int),
        },
{
    let mut best: Option<usize> = None;
    let mut i: usize = 0;
    while i < steps.len()
        invariant
            i <= steps.len(),
            match best {
                Some(b) => {
                    &&& b < i
                    &&& steps@[b as int].level > level
                    &&& forall|j: int|
                        0 <= j < i && (#[trigger] steps@[j]).level > level
                            ==> steps@[b as int].level <= steps@[j].level
                    &&& forall|j: int|
                        0 <= j < b ==> (#[trigger] steps@[j]).level != steps@[b as int].level
                },
                None => forall|j: int| 0 <= j < i ==> (#[trigger] steps@[j]).level <= level,
            },
        decreases steps.len() - i,
    {
        if (steps[i].level as i64) > level {
            match best {
                Some(b) => {
                    if steps[i].level < steps[b].level {
                        best = Some(i);
                    }
                },
                None => {
                    best = Some(i);
                },
            }
        }
        i += 1;
    }
    best
}

/// What comes after paging `current_level` in round `current_round`: the next
/// rung up; from the top, the lowest rung again while repeats are left; and then
/// nothing.
pub fn next_step(
    steps: &Vec<EscalationStep>,
    repeat_count: i32,
    current_level: i32,
    current_round: i32,
) -> (r: EscalationDecision)
    ensures
        is_next_step(r, steps@, repeat_count, current_level, current_round),
{
    match next_above(steps, current_level as i64) {
        Some(i) => {
            assert(is_next_above(steps@, current_level as int, i as int));
            EscalationDecision::Page {
                level: steps[i].level,
                round: current_round,
                delay_secs: steps[i].delay_secs,
            }
        },
        None => {
            if current_round < repeat_count {
                match next_above(steps, -2_147_483_649i64) {
                    Some(i) => {
                        assert(is_next_above(steps@, i32::MIN - 1, i as int));
                        EscalationDecision::Page {
                            level: steps[i].level,
                            round: current_round + 1,
                            delay_secs: steps[i].delay_secs,
                        }
                    },
                    None => {
                        if steps.len() > 0 {
                            assert(steps@[0].level <= -2_147_483_649i64);
                        }
                        EscalationDecision::Exhausted
                    },
                }
            } else {
                EscalationDecision::Exhausted
            }
        },
    }
}

/// Whether a sweep at `now` considers `state`: when it is due and nobody has
/// acknowledged it.
pub fn is_due(state: &IncidentEscalationState, now: Moment) -> (r: bool)
    ensures
        r == (!state.acked && state.next_check_at <= now),
{
    !state.acked && state.next_check_at <= now
}

/// How to go on once the incident of an escalation was looked up.
#[derive(Clone, Debug)]
pub enum AfterLookup {
    /// Ask the ladder what comes next.
    AskLadder,
    /// Forget the escalation.
    DropState,
    /// Give up for now.
    Fail { error: AppError },
}

/// How to go on once the incident of an escalation was looked up: an incident
/// that is gone or over is not escalated any further.
pub fn after_lookup(found: Result<Option<Moment>, AppError>) -> (r: AfterLookup)
    ensures
        match found {
            Ok(ended_at) => if ended_at is Some {
                r is DropState
            } else {
                r is AskLadder
            },
            Err(e) => if e is NotFound {
                r is DropState
            } else {
                r == (AfterLookup::Fail { error: e })
            },
        },
{
    match found {
        Ok(ended_at) => {
            if ended_at.is_some() {
                AfterLookup::DropState
            } else {
                AfterLookup::AskLadder
            }
        },
        Err(AppError::NotFound { code: _, message: _ }) => AfterLookup::DropState,
        Err(e) => AfterLookup::Fail { error: e },
    }
}

/// What becomes of an escalation.
#[derive(Clone, Debug)]
pub enum Advance {
    /// It is forgotten.
    DropState,
    /// The targets of step `step` are paged, and `state` is kept.
    Page { step: usize, state: IncidentEscalationState },
}

/// Whether step `i` is the first with this level.
pub open spec fn is_first_at(steps: Seq<EscalationStep>, level: i32, i: int) -> bool {
    &&& 0 <= i < steps.len()
    &&& steps[i].level == level
    &&& forall|j: int| 0 <= j < i ==> (#[trigger] steps[j]).level != level
}

/// Whether no step has this level.
pub open spec fn none_at(steps: Seq<EscalationStep>, level: i32) -> bool {
    forall|j: int| 0 <= j < steps.len() ==> (#[trigger] steps[j]).level != level
}

/// `state` after paging this level in this round at `now`; the next check waits
/// for the delay, and is never in the past.
pub open spec fn paged(
    state: IncidentEscalationState,
    level: i32,
    round: i32,
    delay_secs: i32,
    now: Moment,
) -> IncidentEscalationState {
    IncidentEscalationState {
        current_level: level,
        current_round: round,
        last_paged_at: now,
        next_check_at: crate::engine::incident_writer::put_off(now, delay_secs as int) as i128,
        ..state
    }
}

/// What becomes of an escalation when the ladder said `decision`: it ends where
/// the ladder does, or where the level it names has no step, and is paged and
/// moved on otherwise.
pub fn advance_state(
    state: IncidentEscalationState,
    steps: &Vec<EscalationStep>,
    decision: EscalationDecision,
    now: Moment,
) -> (r: Advance)
    requires
        crate::time::on_calendar(now as int),
        decision matches EscalationDecision::Page { level, round, delay_secs }
            ==> crate::time::on_calendar(
            crate::engine::incident_writer::put_off(now, delay_secs as int),
        ),
    ensures
        match decision {
            EscalationDecision::Page { level, round, delay_secs } => match r {
                Advance::Page { step, state: next } => is_first_at(steps@, level, step as int)
                    && next == paged(state, level, round, delay_secs, now),
                Advance::DropState => none_at(steps@, level),
            },
            _ => r is DropState,
        },
{
    match decision {
        EscalationDecision::Exhausted => Advance::DropState,
        EscalationDecision::Unknown => Advance::DropState,
        EscalationDecision::Page { level, round, delay_secs } => {
            let mut i: usize = 0;
            while i < steps.len()
                invariant
                    i <= steps.len(),
                    decision == (EscalationDecision::Page { level, round, delay_secs }),
                    crate::time::on_calendar(now as int),
                    crate::time::on_calendar(
                        crate::engine::incident_writer::put_off(now, delay_secs as int),
                    ),
                    forall|j: int| 0 <= j < i ==> (#[trigger] steps@[j]).level != level,
                decreases steps.len() - i,
            {
                if steps[i].level == level {
                    let mut next = state;
                    next.current_level = level;
                    next.current_round = round;
                    next.last_paged_at = now;
                    next.next_check_at = put_off_by(now, delay_secs);
                    return Advance::Page { step: i, state: next };
                }
                i += 1;
            }
            Advance::DropState
        },
    }
}

/// Who a target of a step stands for.
#[derive(Clone, Copy, Debug, PartialEq, Eq, Structural)]
pub enum Recipient {
    Channel(Id),
    User(Id),
    Schedule(Id),
    /// The target names nobody.
    Nobody,
}

/// Who a target of a step stands for: the one that its type says, as far as it
/// is named.
pub fn dispatch_target(target: &EscalationTarget) -> (r: Recipient)
    ensures
        r == match target.target_type {
            EscalationTargetType::Channel => match target.channel_id {
                Some(id) => Recipient::Channel(id),
                None => Recipient::Nobody,
            },
            EscalationTargetType::User => match target.user_id {
                Some(id) => Recipient::User(id),
                None => Recipient::Nobody,
            },
            EscalationTargetType::Schedule => match target.schedule_id {
                Some(id) => Recipient::Schedule(id),
                None => Recipient::Nobody,
            },
            EscalationTargetType::Unknown => Recipient::Nobody,
        },
{
    match target.target_type {
        EscalationTargetType::Channel => match target.channel_id {
            Some(id) => Recipient::Channel(id),
            None => Recipient::Nobody,
        },
        EscalationTargetType::User => match target.user_id {
            Some(id) => Recipient::User(id),
            None => Recipient::Nobody,
        },
        EscalationTargetType::Schedule => match target.schedule_id {
            Some(id) => Recipient::Schedule(id),
            None => Recipient::Nobody,
        },
        EscalationTargetType::Unknown => Recipient::Nobody,
    }
}

/// Whether a channel is paged: when it is enabled and not waiting for its address
/// to be confirmed.
pub fn channel_is_paged(enabled: bool, awaiting_verification: bool) -> (r: bool)
    ensures
        r == (enabled && !awaiting_verification),
{
    enabled && !awaiting_verification
}

/// The place where `pat` first stands in `s`; past the end where it does not.
pub open spec fn text_index(s: Seq<char>, pat: Seq<char>) -> int
    decreases s.len(),
{
    if s.len() < pat.len() {
        s.len() as int
    } else if crate::text::begins_with(s, pat) {
        0
    } else if s.len() == 0 {
        0
    } else {
        1 + text_index(s.drop_first(), pat)
    }
}

/// What follows the scheme of an address; all of it where it has none.
pub open spec fn without_scheme(s: Seq<char>) -> Seq<char> {
    if crate::text::has_text(s, "://"@) {
        s.skip(text_index(s, "://"@) + 3)
    } else {
        s
    }
}

/// The host of a base address: what follows the scheme, up to a slash or a colon;
/// a stand-in where that is nothing.
pub open spec fn host_in(s: Seq<char>) -> Seq<char> {
    let host = crate::text::before(crate::text::before(without_scheme(s), '/'), ':');
    if host.len() == 0 {
        "statuspage.local"@
    } else {
        host
    }
}

/// The first place of a text is where it stands with none before it.
pub proof fn lemma_text_index(s: Seq<char>, pat: Seq<char>, i: int)
    requires
        crate::text::occurs_at(s, pat, i),
        forall|j: int| 0 <= j < i ==> !crate::text::occurs_at(s, pat, j),
    ensures
        text_index(s, pat) == i,
    decreases s.len(),
{
    if i > 0 {
        let rest = s.drop_first();
        assert(!crate::text::occurs_at(s, pat, 0));
        assert(rest.subrange(i - 1, i - 1 + pat.len()) =~= s.subrange(i, i + pat.len()));
        assert forall|j: int| 0 <= j < i - 1 implies !crate::text::occurs_at(rest, pat, j) by {
            assert(!crate::text::occurs_at(s, pat, j + 1));
            if crate::text::occurs_at(rest, pat, j) {
                assert(s.subrange(j + 1, j + 1 + pat.len()) =~= rest.subrange(j, j + pat.len()));
            }
        }
        lemma_text_index(rest, pat, i - 1);
    }
}

/// Where the text after the scheme starts.
fn scheme_end(cs: &Vec<char>) -> (r: usize)
    ensures
        r <= cs@.len(),
        cs@.skip(r as int) == without_scheme(cs@),
{
    let pat = chars_of("://");
    proof {
        reveal_strlit("://");
    }
    let mut i: usize = 0;
    loop
        invariant
            i <= cs.len(),
            pat@ == "://"@,
            pat@.len() == 3,
            forall|j: int| 0 <= j < i ==> !crate::text::occurs_at(cs@, pat@, j),
        decreases cs.len() - i,
    {
        if matches_at(cs, &pat, i) {
            proof {
                lemma_text_index(cs@, pat@, i as int);
            }
            return i + 3;
        }
        if i == cs.len() {
            assert(!crate::text::has_text(cs@, "://"@));
            assert(cs@.skip(0) =~= cs@);
            return 0;
        }
        i += 1;
    }
}

/// The host of a base address.
pub fn host_of(base_url: &str) -> (r: String)
    ensures
        r@ == host_in(base_url@),
{
    let cs = chars_of(base_url);
    let start: usize = scheme_end(&cs);
    let rest = chars_of(slice_of(&cs, start, cs.len()).as_str());
    assert(rest@ =~= without_scheme(cs@));
    let slash: usize = find_char(&rest, '/');
    let authority = chars_of(slice_of(&rest, 0, slash).as_str());
    assert(authority@ =~= crate::text::before(rest@, '/'));
    let colon: usize = find_char(&authority, ':');
    if colon == 0 {
        assert(crate::text::before(authority@, ':').len() == 0);
        owned("statuspage.local")
    } else {
        let host = slice_of(&authority, 0, colon);
        assert(host@ =~= crate::text::before(authority@, ':'));
        host
    }
}

/// A mail about an escalated incident.
#[derive(Clone, Debug)]
pub struct AlertEmail {
    pub to: String,
    pub from: String,
    pub from_name: &'static str,
    pub body: String,
}

/// The text of a mail about an escalated incident.
pub open spec fn alert_body(incident: Incident, base: Seq<char>) -> Seq<char> {
    "incident escalated (id="@ + crate::codec::id_text(incident.id) + ", target="@
        + crate::codec::id_text(incident.target_id) + ", severity="@ + incident.severity.db_name()
        + ", started="@ + crate::time::displayed_date_of(incident.started_at as int)
        + ")\n\nview: "@ + crate::text::without_trailing_slashes(base)
        + "/api/public/v1/incidents"@
}

/// The mail about an escalated incident to `to_address`.
pub fn incident_alert_email(incident: &Incident, public_base_url: &str, to_address: &str) -> (r:
    AlertEmail)
    requires
        crate::time::on_calendar(incident.started_at as int),
    ensures
        r.to@ == to_address@,
        r.from@ == "no-reply@"@ + host_in(public_base_url@),
        r.from_name@ == "StatusPage"@,
        r.body@ == alert_body(*incident, public_base_url@),
{
    let mut body = owned("incident escalated (id=");
    body.append(uuid_text(incident.id).as_str());
    body.append(", target=");
    body.append(uuid_text(incident.target_id).as_str());
    body.append(", severity=");
    body.append(incident.severity.as_db_str());
    body.append(", started=");
    body.append(display_date(incident.started_at).as_str());
    body.append(")\n\nview: ");
    body.append(trim_end_slashes(public_base_url).as_str());
    body.append("/api/public/v1/incidents");
    let mut from = owned("no-reply@");
    from.append(host_of(public_base_url).as_str());
    AlertEmail { to: owned(to_address), from, from_name: "StatusPage", body }
}

/// Paging moves the next check to the future or leaves it now, and keeps what
/// escalation it is.
pub proof fn law_paging_looks_ahead(
    state: IncidentEscalationState,
    level: i32,
    round: i32,
    delay_secs: i32,
    now: Moment,
)
    requires
        crate::time::on_calendar(now as int),
    ensures
        paged(state, level, round, delay_secs, now).next_check_at >= now,
        delay_secs > 0 ==> paged(state, level, round, delay_secs, now).next_check_at > now,
        paged(state, level, round, delay_secs, now).incident_id == state.incident_id,
        paged(state, level, round, delay_secs, now).policy_id == state.policy_id,
        paged(state, level, round, delay_secs, now).acked == state.acked,
{
}

/// A climb through the ladder ends: each page goes up a rung within its round, or
/// starts one more of the rounds that the policy allows.
pub proof fn law_the_ladder_ends(
    steps: Seq<EscalationStep>,
    repeat_count: i32,
    level: i32,
    round: i32,
    next: EscalationDecision,
)
    requires
        is_next_step(next, steps, repeat_count, level, round),
    ensures
        next matches EscalationDecision::Page { level: l, round: r, delay_secs } ==> (r == round
            && l > level) || (r == round + 1 && r <= repeat_count),
{
}

/// The step that the ladder names always exists, so it is always paged.
pub proof fn law_the_named_step_exists(
    steps: Seq<EscalationStep>,
    repeat_count: i32,
    level: i32,
    round: i32,
    next: EscalationDecision,
)
    requires
        is_next_step(next, steps, repeat_count, level, round),
    ensures
        next matches EscalationDecision::Page { level: l, round: r, delay_secs } ==> !none_at(
            steps,
            l,
        ),
{
}

/// The host that mails are sent from is never empty and holds no slash and no
/// colon.
pub proof fn law_the_host_is_a_bare_name(s: Seq<char>)
    ensures
        host_in(s).len() > 0,
        forall|i: int| 0 <= i < host_in(s).len() ==> host_in(s)[i] != '/' && host_in(s)[i] != ':',
{
    reveal_strlit("statuspage.local");
    let rest = without_scheme(s);
    let authority = crate::text::before(rest, '/');
    crate::text::lemma_first_index(rest, '/');
    crate::text::lemma_first_index(authority, ':');
    let host = crate::text::before(authority, ':');
    assert forall|i: int| 0 <= i < host.len() implies host[i] != '/' && host[i] != ':' by {
        assert(host[i] == authority[i]);
        assert(authority[i] == rest[i]);
    }
}

} // verus!
