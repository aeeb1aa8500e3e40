//! Calendar dates as `YYYY-MM-DD` text: the current UTC date, the epoch date,
//! and the validity check applied to dates that clients send.

use vstd::prelude::*;
use crate::text::{nat_text, zero_padded, repeat_char, digit_char};

verus! {

/// Whether `c` is one of the ASCII digits `0`..`9`.
pub open spec fn is_digit(c: char) -> bool {
    '0' <= c && c <= '9'
}

/// A date in the form `DDDD-DD-DD`: ten characters, digits everywhere but
/// at positions 4 and 7, which hold `-`.
pub open spec fn is_iso_date_text(s: Seq<char>) -> bool {
    &&& s.len() == 10
    &&& is_digit(s[0]) && is_digit(s[1]) && is_digit(s[2]) && is_digit(s[3])
    &&& s[4] == '-'
    &&& is_digit(s[5]) && is_digit(s[6])
    &&& s[7] == '-'
    &&& is_digit(s[8]) && is_digit(s[9])
}

/// The year as written by the `%Y` field: four digits, zero-padded, for
/// years 0 through 9999; otherwise a sign followed by at least four digits.
pub open spec fn year_text(year: int) -> Seq<char> {
    if 0 <= year < 10000 {
        zero_padded(year as nat, 4)
    } else if year < 0 {
        seq!['-'] + zero_padded((-year) as nat, 4)
    } else {
        seq!['+'] + zero_padded(year as nat, 4)
    }
}

/// The text of a date in the `%F` format (`%Y-%m-%d`).
pub open spec fn iso_date_text(year: int, month: nat, day: nat) -> Seq<char> {
    year_text(year) + seq!['-'] + zero_padded(month, 2) + seq!['-'] + zero_padded(day, 2)
}

/// Whether `year` is a leap year of the proleptic Gregorian calendar.
pub open spec fn is_leap_year(year: int) -> bool {
    year % 4 == 0 && (year % 100 != 0 || year % 400 == 0)
}

/// The number of days in `month` (1 to 12) of `year`.
pub open spec fn days_in_month(year: int, month: int) -> int {
    if month == 2 {
        if is_leap_year(year) {
            29
        } else {
            28
        }
    } else if month == 4 || month == 6 || month == 9 || month == 11 {
        30
    } else {
        31
    }
}

/// A date of the proleptic Gregorian calendar: a month from 1 to 12 and a
/// day that the month has.
pub open spec fn is_calendar_date(year: int, month: int, day: int) -> bool {
    1 <= month <= 12 && 1 <= day <= days_in_month(year, month)
}

/// `%F` text of a calendar date whose year lies between `low` and `high`.
pub open spec fn is_date_text_in_years(s: Seq<char>, low: int, high: int) -> bool {
    exists|year: int, month: nat, day: nat|
        low <= year <= high && is_calendar_date(year, month as int, day as int) && s
            == #[trigger] iso_date_text(year, month, day)
}

/// `%F` text of a calendar date whose year lies between 1970 and 262142.
pub open spec fn is_clock_date_text(s: Seq<char>) -> bool {
    is_date_text_in_years(s, 1970, 262142)
}

/// Declares `std::time::SystemTime`, a reading of the system clock.
#[verifier::external_type_specification]
#[verifier::external_body]
pub struct ExSystemTime(std::time::SystemTime);

/// The system clock now, `std::time::SystemTime::now`. Nothing is stated of
/// the reading: it is the clock's.
#[verifier::external_body]
fn system_time_now() -> std::time::SystemTime {
    std::time::SystemTime::now()
}

/// The time from the Unix epoch to `t`, `t.duration_since(UNIX_EPOCH)`;
/// `None` when `t` lies before the epoch. The reading is opaque, so nothing
/// more is stated.
#[verifier::external_body]
fn duration_since_epoch(t: &std::time::SystemTime) -> Option<core::time::Duration> {
    t.duration_since(std::time::UNIX_EPOCH).ok()
}

/// The whole seconds of a duration, `Duration::as_secs`. The duration is
/// opaque, so nothing is stated of the result.
#[verifier::external_body]
fn duration_secs(d: &core::time::Duration) -> u64 {
    d.as_secs()
}

/// The fractional part of a duration in nanoseconds,
/// `Duration::subsec_nanos`, documented to be below one second.
#[verifier::external_body]
fn duration_subsec_nanos(d: &core::time::Duration) -> (nanos: u32)
    ensures
        nanos < 1_000_000_000,
{
    d.subsec_nanos()
}

/// The `%F` text of the UTC date of a Unix timestamp, as chrono's
/// `DateTime::from_timestamp(secs, nanos)` followed by `format("%F")` gives
/// it; `None` where `from_timestamp` finds the timestamp out of range or the
/// nanoseconds invalid.
pub uninterp spec fn utc_date_text_of_timestamp(secs: int, nanos: int) -> Option<Seq<char>>;

/// Some `%F` text of a calendar date whose year lies between `low` and `high`.
pub open spec fn is_some_date_text_in_years(text: Option<Seq<char>>, low: int, high: int) -> bool {
    text matches Some(t) && is_date_text_in_years(t, low, high)
}

/// A timestamp from the epoch to the end of year 9999 (253402300799 is
/// 9999-12-31 23:59:59 UTC), with fewer than a second of nanoseconds.
pub open spec fn is_timestamp_before_year_10000(secs: int, nanos: int) -> bool {
    0 <= secs <= 253402300799 && 0 <= nanos < 1_000_000_000
}

/// The text held by an optional string.
pub open spec fn text_option(s: Option<String>) -> Option<Seq<char>> {
    match s {
        Some(t) => Some(t@),
        None => None,
    }
}

/// The UTC date of the Unix timestamp `secs` (with `nanos` nanoseconds) as
/// `%F` text, from chrono's `DateTime::from_timestamp` and `format("%F")`.
///
/// The date is named `utc_date_text_of_timestamp`; the calendar arithmetic is
/// not restated. What chrono's documentation and source give is stated: a
/// timestamp from the epoch on yields a calendar date of 1970 or later, and
/// chrono represents no year past 262142; a timestamp up to the end of 9999
/// (253402300799, 9999-12-31 23:59:59) with fewer than a second of
/// nanoseconds is in range and falls in a year from 1970 to 9999.
#[verifier::external_body]
fn timestamp_date_text(secs: i64, nanos: u32) -> (text: Option<String>)
    ensures
        text_option(text) == utc_date_text_of_timestamp(secs as int, nanos as int),
        secs >= 0 ==> (text matches Some(t) ==> is_clock_date_text(t@)),
        is_timestamp_before_year_10000(secs as int, nanos as int) ==> is_some_date_text_in_years(text_option(text), 1970, 9999),
{
    chrono::DateTime::from_timestamp(secs, nanos).map(|t| t.format("%F").to_string())
}

/// The Unix epoch's date (`chrono::DateTime::UNIX_EPOCH`, documented as
/// 1970-01-01 00:00:00 UTC) rendered by chrono's `format("%F")`.
#[verifier::external_body]
fn unix_epoch_text() -> (s: String)
    ensures
        s@ == iso_date_text(1970, 1, 1),
{
    chrono::DateTime::UNIX_EPOCH.naive_utc().format("%F").to_string()
}

/// The UTC date of the Unix timestamp `secs` (with `nanos` nanoseconds) as
/// `YYYY-MM-DD`; `None` when the timestamp is beyond what chrono represents.
pub fn date_text_at(secs: u64, nanos: u32) -> (text: Option<String>)
    ensures
        secs > i64::MAX ==> text is None,
        secs <= i64::MAX ==> text_option(text) == utc_date_text_of_timestamp(
            secs as int,
            nanos as int,
        ),
        text matches Some(t) ==> is_clock_date_text(t@),
        secs <= 253402300799 && nanos < 1_000_000_000 ==> (text matches Some(t)
            && is_date_text_in_years(t@, 1970, 9999) && is_iso_date_text(t@)),
{
    if secs > 9223372036854775807u64 {
        None
    } else {
        let text = timestamp_date_text(secs as i64, nanos);
        proof {
            if secs <= 253402300799 && nanos < 1_000_000_000 {
                lemma_four_digit_year_date_passes_check(text_option(text)->0);
            }
        }
        text
    }
}

/// Today's UTC date as `YYYY-MM-DD`; `None` when the system clock reads
/// before 1970 or beyond what chrono represents.
pub fn get_date() -> (text: Option<String>)
    ensures
        text matches Some(t) ==> is_clock_date_text(t@),
{
    let now = system_time_now();
    match duration_since_epoch(&now) {
        Some(elapsed) => date_text_at(duration_secs(&elapsed), duration_subsec_nanos(&elapsed)),
        None => None,
    }
}

/// The date of the Unix epoch, `1970-01-01`.
pub fn get_date_epoch() -> (s: String)
    ensures
        s@ == iso_date_text(1970, 1, 1),
        s@ == seq!['1', '9', '7', '0', '-', '0', '1', '-', '0', '1'],
{
    let s = unix_epoch_text();
    proof {
        lemma_iso_date_text_shape(1970, 1, 1);
        lemma_nat_text_small(1970);
        lemma_nat_text_small(1);
        assert(nat_text(1970) =~= seq!['1', '9', '7', '0']);
        assert(nat_text(1) =~= seq!['1']);
        assert(zero_padded(1970, 4) =~= seq!['1', '9', '7', '0']);
        assert(zero_padded(1, 2) =~= seq!['0', '1']);
        assert(s@ =~= seq!['1', '9', '7', '0', '-', '0', '1', '-', '0', '1']);
    }
    s
}

/// Ten to the power `k`.
pub open spec fn pow10(k: nat) -> nat
    decreases k,
{
    if k == 0 {
        1
    } else {
        10 * pow10((k - 1) as nat)
    }
}

/// Every character of a decimal text is a digit.
pub proof fn lemma_nat_text_digits(n: nat)
    ensures
        forall|i: int| 0 <= i < nat_text(n).len() ==> is_digit(#[trigger] nat_text(n)[i]),
        nat_text(n).len() >= 1,
    decreases n,
{
    if n >= 10 {
        lemma_nat_text_digits(n / 10);
    }
}

/// A number below `10^k` has at most `k` decimal digits.
pub proof fn lemma_nat_text_len(n: nat, k: nat)
    requires
        1 <= k,
        n < pow10(k),
    ensures
        nat_text(n).len() <= k,
    decreases k,
{
    if n >= 10 {
        if k == 1 {
            assert(pow10(1) == 10 * pow10(0));
        } else {
            let p = pow10((k - 1) as nat);
            assert(n / 10 < p) by (nonlinear_arith)
                requires
                    n < 10 * p,
            ;
            lemma_nat_text_len(n / 10, (k - 1) as nat);
        }
    }
}

/// Decimal text of numbers below ten thousand, spelled out digit by digit.
pub proof fn lemma_nat_text_small(n: nat)
    requires
        n < 10000,
    ensures
        n < 10 ==> nat_text(n) == seq![digit_char(n as int)],
        10 <= n < 100 ==> nat_text(n) == seq![digit_char((n / 10) as int), digit_char(
            (n % 10) as int,
        )],
        100 <= n < 1000 ==> nat_text(n) == seq![
            digit_char((n / 100) as int),
            digit_char(((n / 10) % 10) as int),
            digit_char((n % 10) as int),
        ],
        1000 <= n ==> nat_text(n) == seq![
            digit_char((n / 1000) as int),
            digit_char(((n / 100) % 10) as int),
            digit_char(((n / 10) % 10) as int),
            digit_char((n % 10) as int),
        ],
{
    let a = n / 10;
    let b = n / 100;
    let c = n / 1000;
    assert(a / 10 == b);
    assert(b / 10 == c);
    assert(a % 10 == (n / 10) % 10);
    if n >= 10 {
        assert(nat_text(n) == nat_text(a).push(digit_char((n % 10) as int)));
        if a >= 10 {
            assert(nat_text(a) == nat_text(b).push(digit_char((a % 10) as int)));
            if b >= 10 {
                assert(nat_text(b) == nat_text(c).push(digit_char((b % 10) as int)));
                assert(nat_text(c) == seq![digit_char(c as int)]);
                assert(nat_text(b) =~= seq![digit_char(c as int), digit_char((b % 10) as int)]);
            } else {
                assert(nat_text(b) == seq![digit_char(b as int)]);
            }
            assert(nat_text(a) =~= nat_text(b).push(digit_char((a % 10) as int)));
        } else {
            assert(nat_text(a) == seq![digit_char(a as int)]);
        }
        assert(nat_text(n) =~= nat_text(a).push(digit_char((n % 10) as int)));
    }
}

/// A zero-padded field of width `w` holding a number below `10^w` has
/// exactly `w` characters, all digits.
pub proof fn lemma_zero_padded_digits(n: nat, w: nat)
    requires
        1 <= w,
        n < pow10(w),
    ensures
        zero_padded(n, w).len() == w,
        forall|i: int| 0 <= i < w ==> is_digit(#[trigger] zero_padded(n, w)[i]),
{
    lemma_nat_text_len(n, w);
    lemma_nat_text_digits(n);
    let digits = nat_text(n);
    if digits.len() < w {
        let pad = repeat_char('0', (w - digits.len()) as nat);
        assert forall|i: int| 0 <= i < w implies is_digit(#[trigger] zero_padded(n, w)[i]) by {
            if i < pad.len() {
                assert(zero_padded(n, w)[i] == pad[i]);
            } else {
                assert(zero_padded(n, w)[i] == digits[i - pad.len()]);
            }
        }
    }
}

/// The shape of `%F` text for a four-digit year.
pub proof fn lemma_iso_date_text_shape(year: int, month: nat, day: nat)
    requires
        0 <= year < 10000,
        is_calendar_date(year, month as int, day as int),
    ensures
        is_iso_date_text(iso_date_text(year, month, day)),
{
    assert(pow10(2) == 100) by {
        reveal_with_fuel(pow10, 3);
    }
    assert(pow10(4) == 10000) by {
        reveal_with_fuel(pow10, 5);
    }
    lemma_zero_padded_digits(year as nat, 4);
    lemma_zero_padded_digits(month, 2);
    lemma_zero_padded_digits(day, 2);
    let y = zero_padded(year as nat, 4);
    let m = zero_padded(month, 2);
    let d = zero_padded(day, 2);
    let t = iso_date_text(year, month, day);
    assert(t =~= y + seq!['-'] + m + seq!['-'] + d);
    assert(t[0] == y[0] && t[1] == y[1] && t[2] == y[2] && t[3] == y[3]);
    assert(t[5] == m[0] && t[6] == m[1]);
    assert(t[8] == d[0] && t[9] == d[1]);
}

/// Whether `date` is a `YYYY-MM-DD` date: ten characters, digits around two
/// dashes at positions 4 and 7.
pub fn is_date_iso8601(date: String) -> (valid: bool)
    ensures
        valid == is_iso_date_text(date@),
{
    let s = date.as_str();
    if s.unicode_len() != 10 {
        return false;
    }
    let c0 = s.get_char(0);
    let c1 = s.get_char(1);
    let c2 = s.get_char(2);
    let c3 = s.get_char(3);
    let c4 = s.get_char(4);
    let c5 = s.get_char(5);
    let c6 = s.get_char(6);
    let c7 = s.get_char(7);
    let c8 = s.get_char(8);
    let c9 = s.get_char(9);
    ascii_digit(c0) && ascii_digit(c1) && ascii_digit(c2) && ascii_digit(c3) && c4 == '-'
        && ascii_digit(c5) && ascii_digit(c6) && c7 == '-' && ascii_digit(c8) && ascii_digit(c9)
}

/// Whether `c` is an ASCII digit.
fn ascii_digit(c: char) -> (b: bool)
    ensures
        b == is_digit(c),
{
    '0' <= c && c <= '9'
}

/// The current date always passes the date check while the year has four
/// digits; the epoch date passes it too.
pub proof fn lemma_dates_pass_check(year: int, month: nat, day: nat)
    requires
        0 <= year < 10000,
        is_calendar_date(year, month as int, day as int),
    ensures
        is_iso_date_text(iso_date_text(year, month, day)),
        is_iso_date_text(iso_date_text(1970, 1, 1)),
{
    lemma_iso_date_text_shape(year, month, day);
    lemma_iso_date_text_shape(1970, 1, 1);
}

/// A `%F` date whose year has four digits passes the date check.
pub proof fn lemma_four_digit_year_date_passes_check(s: Seq<char>)
    requires
        is_date_text_in_years(s, 0, 9999),
    ensures
        is_iso_date_text(s),
{
    let (year, month, day) = choose|year: int, month: nat, day: nat|
        0 <= year <= 9999 && is_calendar_date(year, month as int, day as int) && s
            == #[trigger] iso_date_text(year, month, day);
    lemma_iso_date_text_shape(year, month, day);
}

/// Today's date passes the date check for as long as the year has four
/// digits: a clock date that fails it starts with the `+` of a year past 9999.
pub proof fn lemma_clock_date_passes_check(s: Seq<char>)
    requires
        is_clock_date_text(s),
    ensures
        is_iso_date_text(s) || s[0] == '+',
{
    let (year, month, day) = choose|year: int, month: nat, day: nat|
        1970 <= year <= 262142 && is_calendar_date(year, month as int, day as int) && s
            == #[trigger] iso_date_text(year, month, day);
    if year < 10000 {
        lemma_iso_date_text_shape(year, month, day);
    } else {
        assert(s[0] == year_text(year)[0]);
    }
}

} // verus!
