//! Moments in time, as nanoseconds since the Unix epoch, and their calendar
//! forms, which `chrono` computes.

use vstd::prelude::*;

verus! {

/// A moment: nanoseconds since 1970-01-01T00:00:00Z.
pub type Moment = i128;

/// Nanoseconds in a second.
pub const SECOND: i128 = 1_000_000_000;

/// Nanoseconds in a minute.
pub const MINUTE: i128 = 60_000_000_000;

/// Nanoseconds in an hour.
pub const HOUR: i128 = 3_600_000_000_000;

/// Nanoseconds in a day.
pub const DAY: i128 = 86_400_000_000_000;

/// The first second that a calendar date exists for.
pub const FIRST_SECOND: i64 = -8_334_601_228_800;

/// The last second that a calendar date exists for.
pub const LAST_SECOND: i64 = 8_210_266_876_799;

/// Whether `t` has a calendar date.
pub open spec fn on_calendar(t: int) -> bool {
    FIRST_SECOND <= t / (SECOND as int) <= LAST_SECOND
}

/// Whether the year of `t` is one of 0 to 9999, those that mail dates can name.
pub open spec fn in_mail_years(t: int) -> bool {
    -62_167_219_200 <= t / (SECOND as int) <= 253_402_300_799
}

/// `a` divided by `b`, rounded toward zero.
pub open spec fn toward_zero(a: int, b: int) -> int {
    if a >= 0 {
        a / b
    } else {
        -((-a) / b)
    }
}

/// The day that `t` falls on, counted from 1970-01-01.
pub open spec fn day_number(t: int) -> int {
    t / (DAY as int)
}

/// Whether `t` has a calendar date.
pub fn is_on_calendar(t: Moment) -> (r: bool)
    ensures
        r == on_calendar(t as int),
{
    t >= (FIRST_SECOND as i128) * SECOND && t < ((LAST_SECOND as i128) + 1) * SECOND
}

/// Whether the year of `t` is one of 0 to 9999.
pub fn is_in_mail_years(t: Moment) -> (r: bool)
    ensures
        r == in_mail_years(t as int),
{
    t >= -62_167_219_200i128 * SECOND && t < 253_402_300_800i128 * SECOND
}

/// `t` divided by a positive `unit`, rounded down.
fn floor_div(t: i128, unit: i128) -> (r: i128)
    requires
        unit > 1,
        t > i128::MIN + unit,
    ensures
        r == t as int / unit as int,
{
    if t >= 0 {
        t / unit
    } else {
        let up: i128 = (unit - 1 - t) / unit;
        proof {
            let u: int = unit as int;
            let q: int = t as int / u;
            let m: int = t as int % u;
            vstd::arithmetic::div_mod::lemma_fundamental_div_mod(t as int, u);
            vstd::arithmetic::div_mod::lemma_mod_bound(t as int, u);
            assert(u - 1 - t == u * (-q) + (u - 1 - m)) by (nonlinear_arith)
                requires
                    t == u * q + m,
            ;
            vstd::arithmetic::div_mod::lemma_fundamental_div_mod_converse(
                u - 1 - t,
                u,
                -q,
                u - 1 - m,
            );
            assert(up == -q);
        }
        -up
    }
}

/// The whole seconds of `t`, rounded down.
pub fn seconds_of(t: Moment) -> (r: i64)
    requires
        on_calendar(t as int),
    ensures
        r == t as int / SECOND as int,
{
    floor_div(t, SECOND) as i64
}

/// The nanoseconds of `t` past its whole seconds.
pub fn nanos_of(t: Moment) -> (r: u32)
    requires
        on_calendar(t as int),
    ensures
        r == t as int % SECOND as int,
        r < 1_000_000_000,
{
    let s: i128 = floor_div(t, SECOND);
    (t - s * SECOND) as u32
}

/// The day that `t` falls on, counted from 1970-01-01.
pub fn day_of(t: Moment) -> (r: i64)
    requires
        on_calendar(t as int),
    ensures
        r == day_number(t as int),
{
    floor_div(t, DAY) as i64
}

/// The moment at which the day `day`, counted from 1970-01-01, begins.
pub fn start_of_day(day: i64) -> (r: Moment)
    ensures
        r == day * DAY,
{
    (day as i128) * DAY
}

/// The whole multiples of `unit` in the span `d`, rounded toward zero.
pub fn whole_units(d: i128, unit: i128) -> (r: i128)
    requires
        unit > 0,
        d > i128::MIN,
    ensures
        r == toward_zero(d as int, unit as int),
{
    if d >= 0 {
        d / unit
    } else {
        -((-d) / unit)
    }
}

/// The mail date (RFC 2822) of the moment `secs` seconds and `nanos`
/// nanoseconds after the epoch, as `chrono` writes it.
pub uninterp spec fn mail_date(secs: int, nanos: int) -> Seq<char>;

/// The RFC 3339 form of a moment, as `chrono` writes it.
pub uninterp spec fn internet_date(secs: int, nanos: int) -> Seq<char>;

/// The form in which `chrono` displays a moment.
pub uninterp spec fn displayed_date(secs: int, nanos: int) -> Seq<char>;

/// A moment in the form that a `chrono` pattern asks for.
pub uninterp spec fn patterned_date(secs: int, nanos: int, pattern: Seq<char>) -> Seq<char>;

/// The calendar year of a moment, as `chrono` computes it.
pub uninterp spec fn calendar_year(secs: int) -> int;

/// The calendar month of a moment, as `chrono` computes it.
pub uninterp spec fn calendar_month(secs: int) -> int;

/// `DateTime::to_rfc2822` of `chrono`: its result is named `mail_date`. It is
/// defined for the years 0 to 9999 alone.
#[verifier::external_body]
fn chrono_rfc2822(secs: i64, nanos: u32) -> (r: String)
    requires
        -62_167_219_200 <= secs <= 253_402_300_799,
        nanos < 1_000_000_000,
    ensures
        r@ == mail_date(secs as int, nanos as int),
{
    chrono::DateTime::from_timestamp(secs, nanos).unwrap().to_rfc2822()
}

/// `DateTime::to_rfc3339` of `chrono`: its result is named `internet_date`.
#[verifier::external_body]
fn chrono_rfc3339(secs: i64, nanos: u32) -> (r: String)
    requires
        FIRST_SECOND <= secs <= LAST_SECOND,
        nanos < 1_000_000_000,
    ensures
        r@ == internet_date(secs as int, nanos as int),
{
    chrono::DateTime::from_timestamp(secs, nanos).unwrap().to_rfc3339()
}

/// The `Display` form of a `DateTime<Utc>` of `chrono`: its result is named
/// `displayed_date`.
#[verifier::external_body]
fn chrono_display(secs: i64, nanos: u32) -> (r: String)
    requires
        FIRST_SECOND <= secs <= LAST_SECOND,
        nanos < 1_000_000_000,
    ensures
        r@ == displayed_date(secs as int, nanos as int),
{
    chrono::DateTime::from_timestamp(secs, nanos).unwrap().to_string()
}

/// The patterns that dates are shown in.
pub open spec fn shown_pattern(pattern: Seq<char>) -> bool {
    ||| pattern == "%Y-%m-%d %H:%M UTC"@
    ||| pattern == "%Y-%m-%d"@
    ||| pattern == "%B %-d, %Y"@
    ||| pattern == "%b %-d, %Y"@
    ||| pattern == "%b %-d, %H:%M UTC"@
    ||| pattern == "%b %-d"@
}

/// `DateTime::format` of `chrono`: its text is named `patterned_date`. The
/// patterns admitted here hold specifiers that `chrono` knows, since it fails on
/// any other.
#[verifier::external_body]
fn chrono_format(secs: i64, nanos: u32, pattern: &str) -> (r: String)
    requires
        FIRST_SECOND <= secs <= LAST_SECOND,
        nanos < 1_000_000_000,
        shown_pattern(pattern@),
    ensures
        r@ == patterned_date(secs as int, nanos as int, pattern@),
{
    chrono::DateTime::from_timestamp(secs, nanos).unwrap().format(pattern).to_string()
}

/// `Datelike::year` of `chrono`: its result is named `calendar_year`.
#[verifier::external_body]
fn chrono_year(secs: i64) -> (r: i32)
    requires
        FIRST_SECOND <= secs <= LAST_SECOND,
    ensures
        r == calendar_year(secs as int),
{
    chrono::Datelike::year(&chrono::DateTime::from_timestamp(secs, 0).unwrap())
}

/// `Datelike::month` of `chrono`: its result, from 1 to 12, is named
/// `calendar_month`.
#[verifier::external_body]
fn chrono_month(secs: i64) -> (r: u32)
    requires
        FIRST_SECOND <= secs <= LAST_SECOND,
    ensures
        r == calendar_month(secs as int),
        1 <= r <= 12,
{
    chrono::Datelike::month(&chrono::DateTime::from_timestamp(secs, 0).unwrap())
}

/// The mail date of `t`.
pub open spec fn mail_date_of(t: int) -> Seq<char> {
    mail_date(t / (SECOND as int), t % (SECOND as int))
}

/// The displayed form of `t`.
pub open spec fn displayed_date_of(t: int) -> Seq<char> {
    displayed_date(t / (SECOND as int), t % (SECOND as int))
}

/// The RFC 3339 form of `t`.
pub open spec fn internet_date_of(t: int) -> Seq<char> {
    internet_date(t / (SECOND as int), t % (SECOND as int))
}

/// `t` in the form that `pattern` asks for.
pub open spec fn patterned_date_of(t: int, pattern: Seq<char>) -> Seq<char> {
    patterned_date(t / (SECOND as int), t % (SECOND as int), pattern)
}

/// The mail date of `t`.
pub fn to_rfc2822(t: Moment) -> (r: String)
    requires
        in_mail_years(t as int),
    ensures
        r@ == mail_date_of(t as int),
{
    chrono_rfc2822(seconds_of(t), nanos_of(t))
}

/// The RFC 3339 form of `t`.
pub fn to_rfc3339(t: Moment) -> (r: String)
    requires
        on_calendar(t as int),
    ensures
        r@ == internet_date_of(t as int),
{
    chrono_rfc3339(seconds_of(t), nanos_of(t))
}

/// The displayed form of `t`.
pub fn display_date(t: Moment) -> (r: String)
    requires
        on_calendar(t as int),
    ensures
        r@ == displayed_date_of(t as int),
{
    chrono_display(seconds_of(t), nanos_of(t))
}

/// `t` in the form that `pattern` asks for.
pub fn format_date(t: Moment, pattern: &str) -> (r: String)
    requires
        on_calendar(t as int),
        shown_pattern(pattern@),
    ensures
        r@ == patterned_date_of(t as int, pattern@),
{
    chrono_format(seconds_of(t), nanos_of(t), pattern)
}

/// The calendar year and month of `t`.
pub fn year_and_month(t: Moment) -> (r: (i32, u32))
    requires
        on_calendar(t as int),
    ensures
        r.0 == calendar_year(t as int / SECOND as int),
        r.1 == calendar_month(t as int / SECOND as int),
        1 <= r.1 <= 12,
{
    let secs: i64 = seconds_of(t);
    (chrono_year(secs), chrono_month(secs))
}

} // verus!
