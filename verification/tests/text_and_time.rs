use statuspage::codec::{hash_cookie_value, sha256_hex};
use statuspage::text::{
    contains_text, decimal_text, eq_ignore_ascii_case, is_whitespace, signed_decimal_text,
    split_on, starts_with_text, trim, trim_end_slashes,
};
use statuspage::time::{
    day_of, display_date, format_date, is_in_mail_years, is_on_calendar, nanos_of, seconds_of,
    start_of_day, to_rfc2822, to_rfc3339, whole_units, year_and_month, Moment, DAY, FIRST_SECOND,
    LAST_SECOND, MINUTE, SECOND,
};

const NOW: Moment = 1_785_067_200 * SECOND;

#[test]
fn white_space_is_what_the_standard_library_takes_for_it() {
    for n in 0..=0x10_ffffu32 {
        if let Some(c) = char::from_u32(n) {
            assert_eq!(is_whitespace(c), c.is_whitespace());
        }
    }
}

#[test]
fn trimming_is_what_the_standard_library_does() {
    for s in ["", " ", " a ", "a", "\u{3000}x y\u{a0}", "\t\n", "  two  words  "] {
        assert_eq!(trim(s), s.trim());
    }
    for s in ["", "/", "///", "a/", "a//b//", "https://x/"] {
        assert_eq!(trim_end_slashes(s), s.trim_end_matches('/'));
    }
}

#[test]
fn searching_is_what_the_standard_library_does() {
    for (s, p) in [("abc", "b"), ("abc", ""), ("", "a"), ("aaab", "aab"), ("abc", "abcd")] {
        assert_eq!(contains_text(s, p), s.contains(p));
        assert_eq!(starts_with_text(s, p), s.starts_with(p));
    }
    assert!(eq_ignore_ascii_case("BeArEr", "bearer"));
    assert!(!eq_ignore_ascii_case("É", "é"));
    let parts: Vec<String> = split_on(&"a;b;;".chars().collect(), ';')
        .iter()
        .map(|p| p.iter().collect())
        .collect();
    assert_eq!(parts, "a;b;;".split(';').map(String::from).collect::<Vec<_>>());
}

#[test]
fn numbers_are_written_in_decimal() {
    for n in [0u64, 7, 10, 99, 1234567890, u64::MAX] {
        assert_eq!(decimal_text(n), n.to_string());
    }
    for n in [0i64, -1, 42, i64::MIN, i64::MAX] {
        assert_eq!(signed_decimal_text(n), n.to_string());
    }
}

#[test]
fn digests_are_written_in_hexadecimal() {
    assert_eq!(
        sha256_hex(b""),
        "e3b0c44298fc1c149afbf4c8996fb92427ae41e4649b934ca495991b7852b855"
    );
    assert_eq!(
        hash_cookie_value("abc"),
        "ba7816bf8f01cfea414140de5dae2223b00361a396177a9cb410ff61f20015ad"
    );
}

#[test]
fn dates_are_written_in_their_forms() {
    assert_eq!(to_rfc2822(NOW), "Sun, 26 Jul 2026 12:00:00 +0000");
    assert_eq!(to_rfc3339(NOW), "2026-07-26T12:00:00+00:00");
    assert_eq!(to_rfc3339(NOW + 5), "2026-07-26T12:00:00.000000005+00:00");
    assert_eq!(display_date(NOW), "2026-07-26 12:00:00 UTC");
    assert_eq!(format_date(NOW, "%Y-%m-%d %H:%M UTC"), "2026-07-26 12:00 UTC");
    assert_eq!(format_date(NOW, "%Y-%m-%d"), "2026-07-26");
    assert_eq!(format_date(NOW, "%B %-d, %Y"), "July 26, 2026");
    assert_eq!(format_date(NOW, "%b %-d, %Y"), "Jul 26, 2026");
    assert_eq!(format_date(NOW, "%b %-d, %H:%M UTC"), "Jul 26, 12:00 UTC");
    assert_eq!(format_date(NOW, "%b %-d"), "Jul 26");
    assert_eq!(year_and_month(NOW), (2026, 7));
    assert_eq!(year_and_month(-1), (1969, 12));
}

#[test]
fn the_calendar_ends_where_chrono_ends() {
    assert_eq!(chrono::DateTime::<chrono::Utc>::MIN_UTC.timestamp(), FIRST_SECOND);
    assert_eq!(chrono::DateTime::<chrono::Utc>::MAX_UTC.timestamp(), LAST_SECOND);
    assert!(is_on_calendar(i128::from(FIRST_SECOND) * SECOND));
    assert!(!is_on_calendar(i128::from(FIRST_SECOND) * SECOND - 1));
    assert!(is_on_calendar((i128::from(LAST_SECOND) + 1) * SECOND - 1));
    assert!(!is_on_calendar((i128::from(LAST_SECOND) + 1) * SECOND));
    assert!(is_in_mail_years(NOW));
    assert!(!is_in_mail_years(253_402_300_800 * SECOND));
}

#[test]
fn moments_before_the_epoch_round_down() {
    assert_eq!(seconds_of(-1), -1);
    assert_eq!(nanos_of(-1), 999_999_999);
    assert_eq!(day_of(-1), -1);
    assert_eq!(day_of(0), 0);
    assert_eq!(start_of_day(-1), -DAY);
    assert_eq!(whole_units(-90 * SECOND, MINUTE), -1);
    assert_eq!(whole_units(90 * SECOND, MINUTE), 1);
}
