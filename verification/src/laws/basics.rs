//! Texts, numbers, moments, errors and repeated requests.

use vstd::prelude::*;
use vstd::string::*;

use crate::domain::{CheckSpec, IncidentSeverity, IncidentStatusPhase};
use crate::error::{ApiError, AppError, ErrorReply};
use crate::idempotency::{
    header_key, make_key, next_stage, store, CachedResponse, Progress, Stage, Step,
};
use crate::text::{
    contains_text, decimal_text, eq_ignore_ascii_case, find_char, is_whitespace, same_text,
    signed_decimal_text, split_on, starts_with_text, trim, trim_chars, trim_end_slashes,
};
use crate::time::{
    day_of, display_date, format_date, is_in_mail_years, is_on_calendar, nanos_of, seconds_of,
    start_of_day, to_rfc2822, to_rfc3339, whole_units, Moment,
};

verus! {

/// Blanks, tabs and line ends are white space; what can be seen in ASCII is not.
pub proof fn law_white_space_cannot_be_seen(c: char, r: bool)
    requires
        call_ensures(is_whitespace, (c,), r),
    ensures
        c == ' ' || c == '\t' || c == '\n' || c == '\r' ==> r,
        '!' <= c <= '~' ==> !r,
{
}

/// What `s` keeps without its leading white space: its end, from the first other
/// character on.
proof fn lemma_leading(s: Seq<char>) -> (from: int)
    ensures
        0 <= from <= s.len(),
        crate::text::without_leading_space(s) == s.subrange(from, s.len() as int),
        forall|i: int| 0 <= i < from ==> crate::text::is_space(#[trigger] s[i]),
        from < s.len() ==> !crate::text::is_space(s[from]),
    decreases s.len(),
{
    if s.len() > 0 && crate::text::is_space(s[0]) {
        let rest = s.drop_first();
        let f = lemma_leading(rest);
        assert(rest.subrange(f, rest.len() as int) =~= s.subrange(f + 1, s.len() as int));
        assert forall|i: int| 0 <= i < f + 1 implies crate::text::is_space(#[trigger] s[i]) by {
            if i > 0 {
                assert(rest[i - 1] == s[i]);
            }
        }
        f + 1
    } else {
        assert(s.subrange(0, s.len() as int) =~= s);
        0
    }
}

/// What `s` keeps without its trailing white space: its start, up to the last other
/// character.
proof fn lemma_trailing(s: Seq<char>) -> (to: int)
    ensures
        0 <= to <= s.len(),
        crate::text::without_trailing_space(s) == s.subrange(0, to),
        forall|i: int| to <= i < s.len() ==> crate::text::is_space(#[trigger] s[i]),
        to > 0 ==> !crate::text::is_space(s[to - 1]),
    decreases s.len(),
{
    if s.len() > 0 && crate::text::is_space(s.last()) {
        let rest = s.drop_last();
        let t = lemma_trailing(rest);
        assert(rest.subrange(0, t) =~= s.subrange(0, t));
        assert forall|i: int| t <= i < s.len() implies crate::text::is_space(#[trigger] s[i]) by {
            if i < s.len() - 1 {
                assert(rest[i] == s[i]);
            }
        }
        t
    } else {
        assert(s.subrange(0, s.len() as int) =~= s);
        s.len() as int
    }
}

/// Trimming takes white space alone, from both ends alone, and all of it: what is left
/// is a part of the text that starts and ends with other characters.
pub proof fn law_trimming_takes_the_space_around(s: &str, r: String) -> (ends: (int, int))
    requires
        call_ensures(trim, (s,), r),
    ensures
        0 <= ends.0 <= ends.1 <= s@.len(),
        r@ == s@.subrange(ends.0, ends.1),
        forall|i: int, white: bool|
            (0 <= i < ends.0 || ends.1 <= i < s@.len()) && #[trigger] call_ensures(
                is_whitespace,
                (s@[i],),
                white,
            ) ==> white,
        forall|white: bool|
            r@.len() > 0 && (#[trigger] call_ensures(is_whitespace, (r@[0],), white)
                || #[trigger] call_ensures(is_whitespace, (r@.last(),), white)) ==> !white,
{
    let from = lemma_leading(s@);
    let rest = s@.subrange(from, s@.len() as int);
    let to = lemma_trailing(rest);
    assert(rest.subrange(0, to) =~= s@.subrange(from, from + to));
    assert forall|i: int| (0 <= i < from || from + to <= i < s@.len()) implies
        #[trigger] crate::text::is_space(s@[i]) by {
        if i >= from {
            assert(rest[i - from] == s@[i]);
        }
    }
    if to > 0 {
        assert(r@[0] == s@[from]);
        assert(r@.last() == rest[to - 1]);
    }
    (from, from + to)
}

/// Characters are trimmed as texts are.
pub proof fn law_characters_are_trimmed_alike(s: &str, cs: &Vec<char>, a: String, b: Vec<char>)
    requires
        cs@ == s@,
        call_ensures(trim, (s,), a),
        call_ensures(trim_chars, (cs,), b),
    ensures
        a@ == b@,
{
}

/// Slashes are taken from the end alone, and all of them.
pub proof fn law_slashes_are_taken_from_the_end(s: &str, r: String)
    requires
        call_ensures(trim_end_slashes, (s,), r),
    ensures
        r@.len() <= s@.len(),
        r@ == s@.take(r@.len() as int),
        forall|i: int| r@.len() <= i < s@.len() ==> #[trigger] s@[i] == '/',
        r@.len() > 0 ==> r@.last() != '/',
{
    lemma_slashes(s@);
}

/// `law_slashes_are_taken_from_the_end` of the text itself.
proof fn lemma_slashes(s: Seq<char>)
    ensures
        ({
            let t = crate::text::without_trailing_slashes(s);
            &&& t.len() <= s.len()
            &&& t == s.take(t.len() as int)
            &&& forall|i: int| t.len() <= i < s.len() ==> #[trigger] s[i] == '/'
            &&& t.len() > 0 ==> t.last() != '/'
        }),
    decreases s.len(),
{
    if s.len() > 0 && s.last() == '/' {
        let rest = s.drop_last();
        lemma_slashes(rest);
        let t = crate::text::without_trailing_slashes(rest);
        assert(rest.take(t.len() as int) =~= s.take(t.len() as int));
        assert forall|i: int| t.len() <= i < s.len() implies #[trigger] s[i] == '/' by {
            if i < s.len() - 1 {
                assert(rest[i] == s[i]);
            }
        }
    } else {
        assert(s.take(s.len() as int) =~= s);
    }
}

/// The place that is found holds the character, and none before it does; without any the
/// place is the end.
pub proof fn law_the_first_place_is_found(cs: &Vec<char>, c: char, r: usize)
    requires
        call_ensures(find_char, (cs, c), r),
    ensures
        r <= cs@.len(),
        r < cs@.len() ==> cs@[r as int] == c,
        forall|i: int| 0 <= i < r ==> #[trigger] cs@[i] != c,
{
    crate::text::lemma_first_index(cs@, c);
}

/// The pieces with the separator between them, one after the other.
pub open spec fn joined(parts: Seq<Vec<char>>, c: char) -> Seq<char>
    decreases parts.len(),
{
    if parts.len() == 0 {
        Seq::empty()
    } else if parts.len() == 1 {
        parts[0]@
    } else {
        joined(parts.drop_last(), c).push(c) + parts.last()@
    }
}

/// What comes apart at a separator can be joined again, and no piece holds the
/// separator.
pub proof fn law_pieces_join_again(cs: &Vec<char>, c: char, r: Vec<Vec<char>>)
    requires
        call_ensures(split_on, (cs, c), r),
    ensures
        r@.len() > 0,
        joined(r@, c) == cs@,
        forall|k: int, i: int| 0 <= k < r@.len() && 0 <= i < r@[k]@.len() ==> r@[k]@[i] != c,
{
    let f = |v: Vec<char>| v@;
    let ps = crate::text::pieces(cs@, c);
    assert(r@.map_values(f) == ps);
    lemma_pieces(cs@, c);
    lemma_joined(r@, c);
    assert forall|k: int, i: int| 0 <= k < r@.len() && 0 <= i < r@[k]@.len() implies r@[k]@[i]
        != c by {
        assert(r@.map_values(f)[k] == r@[k]@);
        assert(ps[k][i] != c);
    }
}

/// `joined` of the texts themselves, from the first on.
pub open spec fn run_together(parts: Seq<Seq<char>>, c: char) -> Seq<char>
    decreases parts.len(),
{
    if parts.len() == 0 {
        Seq::empty()
    } else if parts.len() == 1 {
        parts[0]
    } else {
        parts[0].push(c) + run_together(parts.drop_first(), c)
    }
}

/// Pieces joined from the back and from the front are the same.
proof fn lemma_joined(parts: Seq<Vec<char>>, c: char)
    ensures
        joined(parts, c) == run_together(parts.map_values(|v: Vec<char>| v@), c),
    decreases parts.len(),
{
    let f = |v: Vec<char>| v@;
    let ts = parts.map_values(f);
    if parts.len() > 1 {
        lemma_joined(parts.drop_last(), c);
        assert(parts.drop_last().map_values(f) =~= ts.drop_last());
        lemma_run_together_last(ts, c);
    }
}

/// Running together can start at the back too.
proof fn lemma_run_together_last(ts: Seq<Seq<char>>, c: char)
    requires
        ts.len() > 1,
    ensures
        run_together(ts, c) == run_together(ts.drop_last(), c).push(c) + ts.last(),
    decreases ts.len(),
{
    if ts.len() == 2 {
        assert(ts.drop_first().len() == 1);
        assert(ts.drop_first()[0] == ts[1]);
        assert(ts.drop_last()[0] == ts[0]);
        assert(run_together(ts.drop_first(), c) == ts[1]);
        assert(run_together(ts.drop_last(), c) == ts[0]);
        assert(run_together(ts, c) =~= ts[0].push(c) + ts[1]);
    } else {
        lemma_run_together_last(ts.drop_first(), c);
        assert(ts.drop_first().drop_last() =~= ts.drop_last().drop_first());
        assert(ts.drop_first().last() == ts.last());
        assert(run_together(ts, c) =~= run_together(ts.drop_last(), c).push(c) + ts.last());
    }
}

/// The pieces of a text, run together, are the text.
proof fn lemma_pieces(s: Seq<char>, c: char)
    ensures
        crate::text::pieces(s, c).len() > 0,
        run_together(crate::text::pieces(s, c), c) == s,
        forall|k: int, i: int|
            0 <= k < crate::text::pieces(s, c).len() && 0 <= i < crate::text::pieces(s, c)[k].len()
                ==> crate::text::pieces(s, c)[k][i] != c,
    decreases s.len(),
{
    crate::text::lemma_first_index(s, c);
    let i = crate::text::first_index(s, c);
    let ps = crate::text::pieces(s, c);
    if i < s.len() {
        let tail = crate::text::pieces(s.skip(i + 1), c);
        lemma_pieces(s.skip(i + 1), c);
        assert(ps == seq![s.take(i)] + tail);
        assert(ps.drop_first() =~= tail);
        assert(run_together(ps, c) == s.take(i).push(c) + s.skip(i + 1));
        assert(s.take(i).push(c) + s.skip(i + 1) =~= s);
        assert forall|k: int, j: int| 0 <= k < ps.len() && 0 <= j < ps[k].len() implies ps[k][j]
            != c by {
            if k > 0 {
                assert(ps[k] == tail[k - 1]);
            }
        }
    }
}

/// A text is found in another exactly where it stands between two other parts of it; and
/// it starts the other exactly where nothing stands before it.
pub proof fn law_texts_are_found_where_they_stand(
    a: Seq<char>,
    pat: &str,
    b: Seq<char>,
    s: &str,
    found: bool,
    starts: bool,
)
    requires
        call_ensures(contains_text, (s, pat), found),
        call_ensures(starts_with_text, (s, pat), starts),
    ensures
        s@ == a + pat@ + b ==> found,
        s@ == pat@ + b ==> starts,
        starts ==> s@ == pat@ + s@.skip(pat@.len() as int),
        found ==> exists|i: int|
            0 <= i <= s@.len() - pat@.len() && #[trigger] s@.subrange(i, i + pat@.len()) == pat@,
{
    if s@ == a + pat@ + b {
        assert(s@.subrange(a.len() as int, (a.len() + pat@.len()) as int) =~= pat@);
        assert(crate::text::occurs_at(s@, pat@, a.len() as int));
    }
    if s@ == pat@ + b {
        assert(s@.subrange(0, pat@.len() as int) =~= pat@);
    }
    if starts {
        assert(s@.subrange(0, pat@.len() as int) == pat@);
        assert(s@ =~= pat@ + s@.skip(pat@.len() as int));
    }
    if found {
        let i = choose|i: int| crate::text::occurs_at(s@, pat@, i);
        assert(s@.subrange(i, i + pat@.len()) == pat@);
    }
}

/// Texts are the same where all their characters are; and the same but for case where all
/// are but for the distance of 32 between a small ASCII letter and its capital.
pub proof fn law_texts_are_compared_by_their_characters(
    a: &str,
    b: &str,
    same: bool,
    alike: bool,
)
    requires
        call_ensures(same_text, (a, b), same),
        call_ensures(eq_ignore_ascii_case, (a, b), alike),
    ensures
        same <==> a@ == b@,
        same ==> alike,
        alike <==> a@.len() == b@.len() && forall|i: int|
            0 <= i < a@.len() ==> {
                ||| #[trigger] a@[i] == b@[i]
                ||| 'A' <= a@[i] <= 'Z' && b@[i] as int == a@[i] as int + 32
                ||| 'A' <= b@[i] <= 'Z' && a@[i] as int == b@[i] as int + 32
            },
{
    assert forall|x: char, y: char|
        (crate::text::ascii_lower(x) == crate::text::ascii_lower(y)) == ({
            ||| x == y
            ||| 'A' <= x <= 'Z' && y as int == x as int + 32
            ||| 'A' <= y <= 'Z' && x as int == y as int + 32
        }) by {
        lemma_ascii_lower(x);
        lemma_ascii_lower(y);
    }
    if a@.len() == b@.len() {
        if alike {
            assert forall|i: int| 0 <= i < a@.len() implies ({
                ||| #[trigger] a@[i] == b@[i]
                ||| 'A' <= a@[i] <= 'Z' && b@[i] as int == a@[i] as int + 32
                ||| 'A' <= b@[i] <= 'Z' && a@[i] as int == b@[i] as int + 32
            }) by {
                assert(crate::text::ascii_lower(a@[i]) == crate::text::ascii_lower(b@[i]));
            }
        } else {
            let i = choose|i: int|
                0 <= i < a@.len() && crate::text::ascii_lower(#[trigger] a@[i])
                    != crate::text::ascii_lower(b@[i]);
            assert(a@[i] == a@[i]);
        }
    }
}

/// The small form of a capital is 32 places further on.
proof fn lemma_ascii_lower(c: char)
    ensures
        'A' <= c <= 'Z' ==> crate::text::ascii_lower(c) as int == c as int + 32,
        !('A' <= c <= 'Z') ==> crate::text::ascii_lower(c) == c,
{
}

/// The number that decimal digits stand for.
pub open spec fn number_of(digits: Seq<char>) -> int
    decreases digits.len(),
{
    if digits.len() == 0 {
        0
    } else {
        10 * number_of(digits.drop_last()) + (digits.last() as int - '0' as int)
    }
}

/// A number in decimal is made of digits, starts with a zero only where it is zero, and
/// reads as the number again.
pub proof fn law_decimals_read_as_the_number(n: u64, r: String)
    requires
        call_ensures(decimal_text, (n,), r),
    ensures
        r@.len() > 0,
        forall|i: int| 0 <= i < r@.len() ==> '0' <= #[trigger] r@[i] <= '9',
        number_of(r@) == n,
        r@[0] == '0' ==> n == 0,
{
    lemma_decimal(n as nat);
}

/// A negative number is its positive one behind a minus sign.
pub proof fn law_a_minus_stands_before_what_is_negative(n: i64, r: String)
    requires
        call_ensures(signed_decimal_text, (n,), r),
    ensures
        n >= 0 ==> number_of(r@) == n && r@.len() > 0 && r@[0] != '-',
        n < 0 ==> r@.len() > 1 && r@[0] == '-' && number_of(r@.drop_first()) == -n,
{
    if n < 0 {
        lemma_decimal((-n) as nat);
        assert(r@.drop_first() =~= crate::text::decimal((-n) as nat));
    } else {
        lemma_decimal(n as nat);
    }
}

/// `law_decimals_read_as_the_number` of the text itself.
proof fn lemma_decimal(n: nat)
    ensures
        crate::text::decimal(n).len() > 0,
        forall|i: int|
            0 <= i < crate::text::decimal(n).len() ==> '0' <= #[trigger] crate::text::decimal(n)[i]
                <= '9',
        number_of(crate::text::decimal(n)) == n,
        crate::text::decimal(n)[0] == '0' ==> n == 0,
    decreases n,
{
    let s = crate::text::decimal(n);
    if n < 10 {
        assert(s.drop_last() =~= Seq::<char>::empty());
        assert(number_of(s.drop_last()) == 0);
    } else {
        lemma_decimal(n / 10);
        assert(s.drop_last() =~= crate::text::decimal(n / 10));
        assert(s.last() == crate::text::digit(n % 10));
    }
}

/// A moment falls within its second, its nanoseconds past that, and its day; a day of
/// 86,400 seconds begins where the day before it ends.
pub proof fn law_moments_fall_within_their_seconds_and_days(
    t: Moment,
    secs: i64,
    nanos: u32,
    day: i64,
    begin: Moment,
)
    requires
        call_ensures(seconds_of, (t,), secs),
        call_ensures(nanos_of, (t,), nanos),
        call_ensures(day_of, (t,), day),
        call_ensures(start_of_day, (day,), begin),
    ensures
        secs * 1_000_000_000 + nanos == t,
        0 <= nanos < 1_000_000_000,
        begin <= t < begin + 86_400 * 1_000_000_000,
        begin == day * (86_400 * 1_000_000_000),
{
}

/// The whole units of a span fit into it, and one more does not; the sign stays.
pub proof fn law_whole_units_fit(d: i128, unit: i128, r: i128)
    requires
        unit > 0,
        call_ensures(whole_units, (d, unit), r),
    ensures
        d >= 0 ==> r >= 0 && r * unit <= d < (r + 1) * unit,
        d <= 0 ==> r <= 0 && (r - 1) * unit < d <= r * unit,
{
    let u: int = unit as int;
    let a: int = if d >= 0 {
        d as int
    } else {
        -(d as int)
    };
    let q: int = a / u;
    vstd::arithmetic::div_mod::lemma_fundamental_div_mod(a, u);
    vstd::arithmetic::div_mod::lemma_mod_bound(a, u);
    vstd::arithmetic::div_mod::lemma_div_pos_is_pos(a, u);
    assert(q * u <= a < (q + 1) * u) by (nonlinear_arith)
        requires
            a == u * q + a % u,
            0 <= a % u < u,
    ;
    assert((-q) * u == -(q * u)) by (nonlinear_arith);
    assert((-q - 1) * u == -((q + 1) * u)) by (nonlinear_arith);
}

/// Dates exist from the first second of the calendar to its last; mail dates from the
/// year 0 to the year 9999.
pub proof fn law_dates_have_their_limits(t: Moment, dated: bool, mailed: bool)
    requires
        call_ensures(is_on_calendar, (t,), dated),
        call_ensures(is_in_mail_years, (t,), mailed),
    ensures
        dated <==> -8_334_601_228_800 * 1_000_000_000 <= t < 8_210_266_876_800 * 1_000_000_000,
        mailed <==> -62_167_219_200 * 1_000_000_000 <= t < 253_402_300_800 * 1_000_000_000,
        mailed ==> dated,
{
}

/// A date is written of the seconds of its moment and of the nanoseconds past them.
pub proof fn law_dates_are_written_of_their_moment(
    t: Moment,
    secs: i64,
    nanos: u32,
    mail: String,
    internet: String,
    shown: String,
    pattern: &str,
    patterned: String,
)
    requires
        secs * 1_000_000_000 + nanos == t,
        nanos < 1_000_000_000,
        call_ensures(to_rfc2822, (t,), mail),
        call_ensures(to_rfc3339, (t,), internet),
        call_ensures(display_date, (t,), shown),
        call_ensures(format_date, (t, pattern), patterned),
    ensures
        mail@ == crate::time::mail_date(secs as int, nanos as int),
        internet@ == crate::time::internet_date(secs as int, nanos as int),
        shown@ == crate::time::displayed_date(secs as int, nanos as int),
        patterned@ == crate::time::patterned_date(secs as int, nanos as int, pattern@),
{
    assert(t as int / 1_000_000_000 == secs && t as int % 1_000_000_000 == nanos);
}

/// What each error is answered with: a status of its own sort, its code and its message;
/// what is meant for the log alone is in none of them.
pub proof fn law_errors_are_answered_by_their_sort(e: AppError, r: ErrorReply)
    requires
        call_ensures(ApiError::into_response, (ApiError(e),), r),
    ensures
        r.details is Some <==> e is RateLimited,
        match e {
            AppError::BadRequest { code, message, .. } => r.status == 400 && r.code@ == code@
                && r.message@ == message@,
            AppError::Unauthorized => r.status == 401 && r.code@ == "UNAUTHORIZED"@,
            AppError::SessionRequired => r.status == 401 && r.code@ == "SESSION_REQUIRED"@,
            AppError::Forbidden => r.status == 403 && r.code@ == "FORBIDDEN"@,
            AppError::ForbiddenCoded { code, message } => r.status == 403 && r.code@ == code@
                && r.message@ == message@,
            AppError::NotFound { code, message } => r.status == 404 && r.code@ == code@
                && r.message@ == message@,
            AppError::Conflict { code, message } => r.status == 409 && r.code@ == code@
                && r.message@ == message@,
            AppError::Gone { code, message } => r.status == 410 && r.code@ == code@ && r.message@
                == message@,
            AppError::PayloadTooLarge { code, message } => r.status == 413 && r.code@ == code@
                && r.message@ == message@,
            AppError::Unprocessable { code, message } => r.status == 422 && r.code@ == code@
                && r.message@ == message@,
            AppError::UnprocessableDetails { code, message, .. } => r.status == 422 && r.code@
                == code@ && r.message@ == message@,
            AppError::QuotaExceeded { code, message, .. } => r.status == 422 && r.code@ == code@
                && r.message@ == message@,
            AppError::RateLimited { scope, retry_after_secs } => r.status == 429 && r.code@
                == "RATE_LIMITED"@ && r.details->0.scope@ == scope@
                && r.details->0.retry_after_secs == retry_after_secs && r.message@
                == "rate limited on "@ + scope@,
            AppError::ServiceUnavailable { code, message } => r.status == 503 && r.code@ == code@
                && r.message@ == message@,
            AppError::Internal { code, .. } => r.status == 500 && r.code@ == code@ && r.message@
                == "internal error"@,
            _ => r.status == 500 && r.code@ == "INTERNAL"@ && r.message@ == "internal error"@,
        },
        e is Unauthorized ==> r.message@ == "authentication required"@,
        e is SessionRequired ==> r.message@ == "browser session required"@,
        e is Forbidden ==> r.message@ == "access denied"@,
{
}

/// A request that was turned away is answered as it was: 401 and 403 stay, with the
/// message of the latter, and anything else is a fault of the server.
pub proof fn law_rejections_keep_their_status(
    status: u16,
    message: String,
    e: ApiError,
    r: ErrorReply,
)
    requires
        call_ensures(ApiError::from_rejection, (status, message), e),
        call_ensures(ApiError::into_response, (e,), r),
    ensures
        status == 401 || status == 403 ==> r.status == status,
        status == 403 ==> r.message@ == message@,
        status != 401 && status != 403 ==> r.status == 500 && r.message@ == "internal error"@,
{
}

/// Severities, phases and kinds of check are stored under their names.
pub proof fn law_things_are_stored_under_their_names(
    severity: IncidentSeverity,
    phase: IncidentStatusPhase,
    check: &CheckSpec,
    a: &'static str,
    b: &'static str,
    c: &str,
)
    requires
        call_ensures(IncidentSeverity::as_db_str, (severity,), a),
        call_ensures(IncidentStatusPhase::as_db_str, (phase,), b),
        call_ensures(CheckSpec::kind, (check,), c),
    ensures
        severity == IncidentSeverity::Minor ==> a@ == "minor"@,
        severity == IncidentSeverity::Major ==> a@ == "major"@,
        severity == IncidentSeverity::Critical ==> a@ == "critical"@,
        phase == IncidentStatusPhase::Investigating ==> b@ == "investigating"@,
        phase == IncidentStatusPhase::Identified ==> b@ == "identified"@,
        phase == IncidentStatusPhase::Monitoring ==> b@ == "monitoring"@,
        phase == IncidentStatusPhase::Resolved ==> b@ == "resolved"@,
        phase == IncidentStatusPhase::Postmortem ==> b@ == "postmortem"@,
        *check is Http ==> c@ == "http"@,
        *check is Tcp ==> c@ == "tcp"@,
        *check is Ping ==> c@ == "ping"@,
        *check is Heartbeat ==> c@ == "heartbeat"@,
        *check is DomainExpiry ==> c@ == "domain_expiry"@,
        *check matches CheckSpec::Other { kind } ==> c@ == kind@,
{
}

/// The same key with the same body is the same request; with another digest, or another
/// key, it is another.
pub proof fn law_a_key_is_of_one_request(
    a: &str,
    x: &[u8],
    b: &str,
    y: &[u8],
    k: String,
    l: String,
)
    requires
        call_ensures(make_key, (a, x), k),
        call_ensures(make_key, (b, y), l),
    ensures
        k@ == l@ <==> a@ == b@ && crate::codec::sha256(x@) == crate::codec::sha256(y@),
        k@ == a@ + ":"@ + crate::codec::hex_text(crate::codec::sha256(x@)),
{
    crate::idempotency::law_keys_tell_requests_apart(a@, x@, b@, y@);
}

/// An answer is kept exactly where its request names a key and it is no larger than 64
/// KiB; and it is kept as it was given.
pub proof fn law_answers_are_kept_as_they_were_given(
    header: Option<&[u8]>,
    body: &[u8],
    status: u16,
    content_type: &str,
    response_body: Vec<u8>,
    key: Option<String>,
    kept: Option<(String, CachedResponse)>,
)
    requires
        call_ensures(header_key, (header, body), key),
        call_ensures(store, (header, body, status, content_type, response_body), kept),
    ensures
        kept is Some <==> key is Some && response_body@.len() <= 64 * 1024,
        kept matches Some(entry) ==> entry.0@ == key->0@ && entry.1.status == status
            && entry.1.content_type@ == content_type@ && entry.1.body@ == response_body@,
{
}

/// A request names a key where its header can be read and is not blank: its trimmed text
/// and its body make the key.
pub proof fn law_a_request_names_its_key(
    header: Option<&[u8]>,
    body: &[u8],
    name: &str,
    stripped: String,
    bare: &str,
    key: Option<String>,
    made: String,
)
    requires
        crate::codec::text_of_header(header) == Some(name@),
        call_ensures(header_key, (header, body), key),
        call_ensures(trim, (name,), stripped),
        bare@ == stripped@,
        call_ensures(make_key, (bare, body), made),
    ensures
        key is None <==> stripped@.len() == 0,
        key matches Some(k) ==> k@ == made@,
{
}

/// A kept answer is given again, whether it is found at first or after waiting; a request
/// is handled only where both looks found nothing; and what was handled is kept.
pub proof fn law_a_request_is_answered_once(
    stage: Stage,
    news: Progress,
    r: (Stage, Step),
)
    requires
        call_ensures(next_stage, (stage, news), r),
    ensures
        r.1 == Step::Replay <==> (stage == Stage::FirstLook || stage == Stage::SecondLook) && news
            == (Progress::LookedUp { hit: true }),
        r.1 == Step::WaitForTurn <==> stage == Stage::FirstLook && news == (Progress::LookedUp {
            hit: false,
        }),
        r.1 == Step::LookAgain <==> stage == Stage::Waiting && news == Progress::Free,
        r.1 == Step::Handle <==> stage == Stage::SecondLook && news == (Progress::LookedUp {
            hit: false,
        }),
        r.1 == Step::KeepAndAnswer <==> stage == Stage::Handling && news == (Progress::Handled {
            ok: true,
        }),
        r.1 == Step::TellError <==> stage == Stage::Handling && news == (Progress::Handled {
            ok: false,
        }),
        r.1 == Step::Ignore ==> r.0 == stage,
        r.1 == Step::Replay || r.1 == Step::KeepAndAnswer || r.1 == Step::TellError ==> r.0
            == Stage::Done,
        r.1 == Step::WaitForTurn ==> r.0 == Stage::Waiting,
        r.1 == Step::LookAgain ==> r.0 == Stage::SecondLook,
        r.1 == Step::Handle ==> r.0 == Stage::Handling,
{
}

} // verus!
