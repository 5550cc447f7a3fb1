//! Dates of the proleptic Gregorian calendar, and timestamps as seconds since 1970-01-01 00:00:00
//! UTC.
use vstd::prelude::*;

use crate::number::{
    padded, padded_signed, padded_signed_spec, padded_spec, parse_short, parse_signed,
    parse_signed_spec, parse_unsigned_spec,
};
use crate::text::{cat2, cat5, chars_of, split_once, split_once_spec, trim, trim_spec};

verus! {

// ---------------------------------------------------------------------------------------------
// Dates
// ---------------------------------------------------------------------------------------------
/// Whether a year has a 29th of February.
pub open spec fn leap_spec(year: int) -> bool {
    (year % 4 == 0 && year % 100 != 0) || year % 400 == 0
}

/// The days of a year.
pub open spec fn year_length_spec(year: int) -> int {
    if leap_spec(year) {
        366
    } else {
        365
    }
}

/// The days of a month.
pub open spec fn month_length_spec(year: int, month: int) -> int {
    if month == 2 {
        if leap_spec(year) {
            29
        } else {
            28
        }
    } else if month == 4 || month == 6 || month == 9 || month == 11 {
        30
    } else {
        31
    }
}

/// The leap years among the years 1 to `year - 1`.
pub open spec fn leaps_before(year: int) -> int {
    (year - 1) / 4 - (year - 1) / 100 + (year - 1) / 400
}

/// The days from 1970-01-01 to the first day of a year.
pub open spec fn days_before_year(year: int) -> int {
    365 * (year - 1970) + leaps_before(year) - leaps_before(1970)
}

/// The days of a year before the first day of a month.
pub open spec fn days_before_month(year: int, month: int) -> int
    decreases month,
{
    if month <= 1 {
        0
    } else {
        days_before_month(year, month - 1) + month_length_spec(year, month - 1)
    }
}

/// A calendar date.
pub struct Date {
    pub year: int,
    pub month: int,
    pub day: int,
}

impl Date {
    /// Whether the calendar has the date.
    pub open spec fn valid(self) -> bool {
        1 <= self.month <= 12 && 1 <= self.day <= month_length_spec(self.year, self.month)
    }

    /// The days from 1970-01-01 to the date.
    pub open spec fn number(self) -> int {
        days_before_year(self.year) + days_before_month(self.year, self.month) + self.day - 1
    }
}

/// The date that many days after 1970-01-01.
pub open spec fn date_of(number: int) -> Date {
    choose|date: Date| date.valid() && #[trigger] date.number() == number
}

/// A year is as long as the distance to the first day of the next.
proof fn year_step(year: int)
    ensures
        days_before_year(year + 1) == days_before_year(year) + year_length_spec(year),
{
}

/// Years that begin later, begin on later days.
proof fn years_ordered(earlier: int, later: int)
    requires
        earlier <= later,
    ensures
        days_before_year(earlier) + 365 * (later - earlier) <= days_before_year(later),
    decreases later - earlier,
{
    if earlier < later {
        years_ordered(earlier, later - 1);
        year_step(later - 1);
    }
}

/// The twelve months make up the year.
proof fn months_fill_year(year: int)
    ensures
        days_before_month(year, 13) == year_length_spec(year),
{
    reveal_with_fuel(days_before_month, 14);
}

/// Months that begin later, begin on later days.
proof fn months_ordered(year: int, earlier: int, later: int)
    requires
        1 <= earlier < later <= 13,
    ensures
        days_before_month(year, earlier) + month_length_spec(year, earlier) <= days_before_month(
            year,
            later,
        ),
    decreases later - earlier,
{
    if earlier < later - 1 {
        months_ordered(year, earlier, later - 1);
    }
}

/// A valid date falls into its year.
proof fn within_year(date: Date)
    requires
        date.valid(),
    ensures
        days_before_year(date.year) <= date.number() < days_before_year(date.year + 1),
{
    months_fill_year(date.year);
    months_ordered(date.year, date.month, 13);
    year_step(date.year);
    if date.month > 1 {
        months_ordered(date.year, 1, date.month);
    }
}

/// Two valid dates with the same day number are the same date.
pub proof fn law_dates_are_distinct(a: Date, b: Date)
    requires
        a.valid(),
        b.valid(),
        a.number() == b.number(),
    ensures
        a == b,
{
    within_year(a);
    within_year(b);
    if a.year < b.year {
        years_ordered(a.year + 1, b.year);
    } else if b.year < a.year {
        years_ordered(b.year + 1, a.year);
    } else if a.month < b.month {
        months_ordered(a.year, a.month, b.month);
    } else if b.month < a.month {
        months_ordered(b.year, b.month, a.month);
    }
}

proof fn year_of(number: int) -> (year: int)
    ensures
        days_before_year(year) <= number < days_before_year(year + 1),
    decreases if number < 0 {
        -number
    } else {
        number
    },
{
    if number < 0 {
        let year = if number == -1 {
            1969
        } else {
            year_of(number + 1)
        };
        year_step(year);
        year_step(year - 1);
        if days_before_year(year) <= number {
            year
        } else {
            year - 1
        }
    } else if number == 0 {
        1970
    } else {
        let year = year_of(number - 1);
        year_step(year);
        year_step(year + 1);
        if number < days_before_year(year + 1) {
            year
        } else {
            year + 1
        }
    }
}

proof fn month_of(year: int, day: int, month: int) -> (found: int)
    requires
        1 <= month <= 12,
        days_before_month(year, month) <= day < year_length_spec(year),
    ensures
        1 <= found <= 12,
        days_before_month(year, found) <= day < days_before_month(year, found)
            + month_length_spec(year, found),
    decreases 12 - month,
{
    if day < days_before_month(year, month) + month_length_spec(year, month) {
        month
    } else if month == 12 {
        months_fill_year(year);
        12
    } else {
        month_of(year, day, month + 1)
    }
}

/// Every day number has a date, and the date has that day number.
pub proof fn law_every_day_has_a_date(number: int)
    ensures
        date_of(number).valid(),
        date_of(number).number() == number,
{
    let year = year_of(number);
    year_step(year);
    let day = number - days_before_year(year);
    let month = month_of(year, day, 1);
    let date = Date { year, month, day: day - days_before_month(year, month) + 1 };
    assert(date.valid() && date.number() == number);
}

/// The date of the day number of a valid date is that date.
pub proof fn law_date_of_day_number(date: Date)
    requires
        date.valid(),
    ensures
        date_of(date.number()) == date,
{
    law_every_day_has_a_date(date.number());
    law_dates_are_distinct(date_of(date.number()), date);
}

/// Whether a year has a 29th of February.
fn leap(year: i64) -> (r: bool)
    ensures
        r == leap_spec(year as int),
{
    (year % 4 == 0 && year % 100 != 0) || year % 400 == 0
}

/// The days of a year.
fn year_length(year: i64) -> (r: i64)
    ensures
        r == year_length_spec(year as int),
{
    if leap(year) {
        366
    } else {
        365
    }
}

/// The days of a month.
fn month_length(year: i64, month: i64) -> (r: i64)
    ensures
        r == month_length_spec(year as int, month as int),
{
    if month == 2 {
        if leap(year) {
            29
        } else {
            28
        }
    } else if month == 4 || month == 6 || month == 9 || month == 11 {
        30
    } else {
        31
    }
}

/// The quotient, rounded down, and the remainder.
fn divide(n: i64, by: i64) -> (r: (i64, i64))
    requires
        by > 1,
    ensures
        r.0 == n as int / by as int,
        r.1 == n as int % by as int,
        0 <= r.1 < by,
{
    if n >= 0 {
        (n / by, n % by)
    } else {
        let back = -(n + 1);
        let quotient = -(back / by) - 1;
        let remainder = by - 1 - back % by;
        proof {
            let q = quotient as int;
            let r = remainder as int;
            vstd::arithmetic::div_mod::lemma_fundamental_div_mod(back as int, by as int);
            assert(n as int == q * (by as int) + r) by (nonlinear_arith)
                requires
                    back as int == (by as int) * (back as int / by as int) + back as int % by as int,
                    n == -back - 1,
                    q == -(back as int / by as int) - 1,
                    r == by - 1 - back as int % by as int,
            ;
            vstd::arithmetic::div_mod::lemma_fundamental_div_mod_converse(n as int, by as int, q, r);
        }
        (quotient, remainder)
    }
}

/// The year, month and day of the date that many days after 1970-01-01.
fn civil(number: i64) -> (r: (i64, i64, i64))
    requires
        -200_000_000_000_000 <= number <= 200_000_000_000_000,
    ensures
        date_of(number as int) == (Date { year: r.0 as int, month: r.1 as int, day: r.2 as int }),
        1 <= r.1 <= 12,
        1 <= r.2 <= 31,
{
    let (cycles, rest) = divide(number, 146_097);
    let mut year: i64 = 1970 + 400 * cycles;
    let mut days: i64 = rest;
    let ghost first = year as int;
    while days >= year_length(year)
        invariant
            -1_000_000_000_000 <= first <= 1_000_000_000_000,
            first <= year,
            0 <= days,
            365 * (year - first) + days <= 146_097,
            number == days_before_year(year as int) + days,
        decreases days,
    {
        proof {
            year_step(year as int);
        }
        days = days - year_length(year);
        year = year + 1;
    }
    let mut month: i64 = 1;
    let mut day: i64 = days + 1;
    while day > month_length(year, month)
        invariant
            1 <= month <= 12,
            1 <= day <= 366,
            days_before_month(year as int, month as int) + day <= year_length_spec(year as int),
            number == days_before_year(year as int) + days_before_month(year as int, month as int)
                + day - 1,
        decreases day,
    {
        proof {
            if month == 12 {
                months_fill_year(year as int);
            }
        }
        day = day - month_length(year, month);
        month = month + 1;
    }
    proof {
        law_date_of_day_number(Date { year: year as int, month: month as int, day: day as int });
    }
    (year, month, day)
}

/// The days from 1970-01-01 to a day of a month.
fn day_number(year: i64, month: i64, day: i64) -> (r: i64)
    requires
        -9999 <= year <= 9999,
        1 <= month <= 12,
        1 <= day <= 31,
    ensures
        r == (Date { year: year as int, month: month as int, day: day as int }).number(),
        -5_000_000 <= r <= 5_000_000,
{
    let mut r: i64 = 365 * (year - 1970) + divide(year - 1, 4).0 - divide(year - 1, 100).0 + divide(
        year - 1,
        400,
    ).0 - 477;
    let mut m: i64 = 1;
    while m < month
        invariant
            1 <= m <= month <= 12,
            r == days_before_year(year as int) + days_before_month(year as int, m as int),
            -4_900_000 <= days_before_year(year as int) <= 4_900_000,
            -4_900_000 <= r <= 4_900_000 + 31 * (m - 1),
        decreases month - m,
    {
        r = r + month_length(year, m);
        m = m + 1;
    }
    r + day - 1
}

// ---------------------------------------------------------------------------------------------
// Timestamps
// ---------------------------------------------------------------------------------------------
/// The seconds of a day.
pub const SECONDS_PER_DAY: i64 = 86400;

/// The parts of the text before and after its last `c`, where it has one.
pub open spec fn rsplit_once_spec(s: Seq<char>, c: char) -> Option<(Seq<char>, Seq<char>)>
    decreases s.len(),
{
    if s.len() == 0 {
        None
    } else if s.last() == c {
        Some((s.drop_last(), Seq::empty()))
    } else {
        match rsplit_once_spec(s.drop_last(), c) {
            Some((before, after)) => Some((before, after.push(s.last()))),
            None => None,
        }
    }
}

/// Where the last `c` stands.
fn last_at(v: &Vec<char>, c: char) -> (r: Option<usize>)
    ensures
        match r {
            Some(at) => at < v.len() && rsplit_once_spec(v@, c) == Some(
                (v@.take(at as int), v@.skip(at + 1)),
            ),
            None => rsplit_once_spec(v@, c) is None,
        },
{
    let mut to: usize = v.len();
    assert(v@.take(v.len() as int) =~= v@);
    assert(v@.skip(v.len() as int) =~= Seq::empty());
    while to > 0
        invariant
            to <= v.len(),
            match rsplit_once_spec(v@.take(to as int), c) {
                Some((before, after)) => rsplit_once_spec(v@, c) == Some(
                    (before, after + v@.skip(to as int)),
                ),
                None => rsplit_once_spec(v@, c) is None,
            },
        decreases to,
    {
        assert(v@.take(to as int).drop_last() =~= v@.take(to - 1));
        if v[to - 1] == c {
            assert(Seq::<char>::empty() + v@.skip(to as int) =~= v@.skip(to as int));
            return Some(to - 1);
        }
        proof {
            match rsplit_once_spec(v@.take(to - 1), c) {
                Some((before, after)) => {
                    assert(after.push(v@[to - 1]) + v@.skip(to as int) =~= after + v@.skip(to - 1));
                },
                None => {},
            }
        }
        to = to - 1;
    }
    None
}

/// The local timestamp that begins a text of the form `YYYY-MM-DDTHH:MM:SS`, as if it were in UTC;
/// what follows the seconds is not looked at.
pub open spec fn local_time_spec(s: Seq<char>) -> Option<int> {
    if s.len() < 19 || s[4] != '-' || s[7] != '-' || s[10] != 'T' || s[13] != ':' || s[16] != ':' {
        None
    } else {
        let max = u32::MAX as int;
        match (
            parse_signed_spec(s.subrange(0, 4)),
            parse_unsigned_spec(s.subrange(5, 7), max),
            parse_unsigned_spec(s.subrange(8, 10), max),
            parse_unsigned_spec(s.subrange(11, 13), max),
            parse_unsigned_spec(s.subrange(14, 16), max),
            parse_unsigned_spec(s.subrange(17, 19), max),
        ) {
            (Some(year), Some(month), Some(day), Some(hour), Some(minute), Some(second)) => {
                if 1 <= month <= 12 && 1 <= day <= 31 && hour < 24 && minute < 60 && second < 60 {
                    Some(
                        (Date { year, month, day }).number() * 86400 + hour * 3600 + minute * 60
                            + second,
                    )
                } else {
                    None
                }
            },
            _ => None,
        }
    }
}

/// The offset, in seconds, that begins a text of the form `HH:MM`.
pub open spec fn offset_spec(s: Seq<char>) -> Option<int> {
    if s.len() < 5 || s[2] != ':' {
        None
    } else {
        match (parse_signed_spec(s.subrange(0, 2)), parse_signed_spec(s.subrange(3, 5))) {
            (Some(hours), Some(minutes)) => Some(hours * 3600 + minutes * 60),
            _ => None,
        }
    }
}

/// A local timestamp and its distance to UTC, as the seconds since the epoch.
pub open spec fn moment_spec(local: Option<int>, sign: int, offset: Option<int>) -> Option<int> {
    match (local, offset) {
        (Some(local), Some(offset)) => Some(local - sign * offset),
        _ => None,
    }
}

/// The seconds since the epoch that an ISO-8601 timestamp denotes: a local timestamp, an optional
/// fraction, and `Z` or an offset. A `Z` decides before a plus sign, and a plus sign before a minus
/// sign; the minus signs of the date are no offset.
pub open spec fn parse_iso8601_spec(text: Seq<char>) -> Option<int> {
    let s = trim_spec(text);
    match (split_once_spec(s, 'Z'), rsplit_once_spec(s, '+'), rsplit_once_spec(s, '-')) {
        (Some((local, _)), _, _) => local_time_spec(local),
        (None, Some((local, zone)), _) => moment_spec(local_time_spec(local), 1, offset_spec(zone)),
        (None, None, Some((local, zone))) => if local.len() > 10 {
            moment_spec(local_time_spec(local), -1, offset_spec(zone))
        } else {
            None
        },
        _ => None,
    }
}

/// The local timestamp at the start of `v`, with nothing from `to` on.
fn local_time(v: &Vec<char>, to: usize) -> (r: Option<i64>)
    requires
        to <= v.len(),
    ensures
        match r {
            Some(t) => local_time_spec(v@.take(to as int)) == Some(t as int) && -500_000_000_000
                <= t <= 500_000_000_000,
            None => local_time_spec(v@.take(to as int)) is None,
        },
{
    let ghost s = v@.take(to as int);
    if to < 19 || v[4] != '-' || v[7] != '-' || v[10] != 'T' || v[13] != ':' || v[16] != ':' {
        return None;
    }
    proof {
        assert(s.subrange(0, 4) =~= v@.subrange(0, 4));
        assert(s.subrange(5, 7) =~= v@.subrange(5, 7));
        assert(s.subrange(8, 10) =~= v@.subrange(8, 10));
        assert(s.subrange(11, 13) =~= v@.subrange(11, 13));
        assert(s.subrange(14, 16) =~= v@.subrange(14, 16));
        assert(s.subrange(17, 19) =~= v@.subrange(17, 19));
    }
    match (
        parse_signed(v, 0, 4),
        parse_short(v, 5, 7),
        parse_short(v, 8, 10),
        parse_short(v, 11, 13),
        parse_short(v, 14, 16),
        parse_short(v, 17, 19),
    ) {
        (Some(year), Some(month), Some(day), Some(hour), Some(minute), Some(second)) => {
            if 1 <= month && month <= 12 && 1 <= day && day <= 31 && hour < 24 && minute < 60
                && second < 60 {
                Some(
                    day_number(year, month, day) * SECONDS_PER_DAY + hour * 3600 + minute * 60
                        + second,
                )
            } else {
                None
            }
        },
        _ => None,
    }
}

/// The offset, in seconds, in `v` from `from` on.
fn offset(v: &Vec<char>, from: usize) -> (r: Option<i64>)
    requires
        from <= v.len(),
    ensures
        match r {
            Some(t) => offset_spec(v@.skip(from as int)) == Some(t as int) && -100_000_000 <= t
                <= 100_000_000,
            None => offset_spec(v@.skip(from as int)) is None,
        },
{
    let ghost s = v@.skip(from as int);
    if v.len() - from < 5 || v[from + 2] != ':' {
        return None;
    }
    proof {
        assert(s.subrange(0, 2) =~= v@.subrange(from as int, from + 2));
        assert(s.subrange(3, 5) =~= v@.subrange(from + 3, from + 5));
    }
    match (parse_signed(v, from, from + 2), parse_signed(v, from + 3, from + 5)) {
        (Some(hours), Some(minutes)) => Some(hours * 3600 + minutes * 60),
        _ => None,
    }
}

/// Parse an ISO-8601 timestamp to epoch seconds.
///
/// Handles formats like:
/// - 2024-09-26T10:30:45Z
/// - 2024-09-26T10:30:45.123456Z
/// - 2024-09-26T10:30:45+02:00
/// - 2024-09-26T10:30:45-05:00
pub fn parse_iso8601(s: &str) -> (r: Option<i64>)
    ensures
        match r {
            Some(t) => parse_iso8601_spec(s@) == Some(t as int),
            None => parse_iso8601_spec(s@) is None,
        },
{
    let trimmed = trim(s);
    let v = chars_of(trimmed.as_str());
    match split_once(trimmed.as_str(), 'Z') {
        Some((local, _)) => {
            let w = chars_of(local.as_str());
            assert(w@.take(w.len() as int) =~= local@);
            return local_time(&w, w.len());
        },
        None => {},
    }
    match last_at(&v, '+') {
        Some(at) => {
            return match (local_time(&v, at), offset(&v, at + 1)) {
                (Some(local), Some(offset)) => Some(local - offset),
                _ => None,
            };
        },
        None => {},
    }
    match last_at(&v, '-') {
        Some(at) => if at > 10 {
            match (local_time(&v, at), offset(&v, at + 1)) {
                (Some(local), Some(offset)) => Some(local + offset),
                _ => None,
            }
        } else {
            None
        },
        None => None,
    }
}

/// A date as `YYYY-MM-DD`.
pub open spec fn date_text_spec(date: Date) -> Seq<char> {
    padded_signed_spec(date.year, 4) + "-"@ + padded_spec(date.month, 2) + "-"@ + padded_spec(
        date.day,
        2,
    )
}

/// A second of the day as `HH:MM:SS`.
pub open spec fn time_text_spec(second: int) -> Seq<char> {
    padded_spec(second / 3600, 2) + ":"@ + padded_spec(second % 3600 / 60, 2) + ":"@ + padded_spec(
        second % 60,
        2,
    )
}

/// A timestamp as `YYYY-MM-DD HH:MM:SS UTC`.
pub open spec fn format_epoch_utc_spec(epoch_secs: int) -> Seq<char> {
    date_text_spec(date_of(epoch_secs / 86400)) + " "@ + time_text_spec(epoch_secs % 86400)
        + " UTC"@
}

/// Format an epoch timestamp (seconds since the Unix epoch) as `YYYY-MM-DD HH:MM:SS UTC`.
pub fn format_epoch_utc(epoch_secs: i64) -> (r: String)
    ensures
        r@ == format_epoch_utc_spec(epoch_secs as int),
{
    let (number, second) = divide(epoch_secs, SECONDS_PER_DAY);
    let (year, month, day) = civil(number);
    let date = cat5(
        padded_signed(year, 4).as_str(),
        "-",
        padded(month as u64, 2).as_str(),
        "-",
        padded(day as u64, 2).as_str(),
    );
    let time = cat5(
        padded((second / 3600) as u64, 2).as_str(),
        ":",
        padded((second % 3600 / 60) as u64, 2).as_str(),
        ":",
        padded((second % 60) as u64, 2).as_str(),
    );
    let day_and_time = crate::text::cat3(date.as_str(), " ", time.as_str());
    cat2(day_and_time.as_str(), " UTC")
}

/// A timestamp as `YYYY-MM-DDTHH:MM:SS`.
pub open spec fn iso_local_spec(epoch_secs: int) -> Seq<char> {
    date_text_spec(date_of(epoch_secs / 86400)) + "T"@ + time_text_spec(epoch_secs % 86400)
}

/// Where the first `c` stands, the text is split.
proof fn splits_at(s: Seq<char>, c: char, at: int)
    requires
        0 <= at < s.len(),
        s[at] == c,
        forall|i: int| 0 <= i < at ==> s[i] != c,
    ensures
        split_once_spec(s, c) == Some((s.take(at), s.skip(at + 1))),
    decreases at,
{
    if at == 0 {
        assert(s.take(0) =~= Seq::empty());
    } else {
        splits_at(s.skip(1), c, at - 1);
        assert(seq![s[0]] + s.skip(1).take(at - 1) =~= s.take(at));
        assert(s.skip(1).skip(at) =~= s.skip(at + 1));
    }
}

/// Six rows of digits with the separators between them.
spec fn assembled(y: Seq<char>, m: Seq<char>, d: Seq<char>, h: Seq<char>, i: Seq<char>, s: Seq<char>) -> Seq<
    char,
> {
    (y + "-"@ + m + "-"@ + d) + "T"@ + (h + ":"@ + i + ":"@ + s)
}

/// The rows stand in their places.
proof fn assembled_parts(
    y: Seq<char>,
    m: Seq<char>,
    d: Seq<char>,
    h: Seq<char>,
    i: Seq<char>,
    s: Seq<char>,
)
    requires
        y.len() == 4,
        m.len() == 2,
        d.len() == 2,
        h.len() == 2,
        i.len() == 2,
        s.len() == 2,
    ensures
        ({
            let t = assembled(y, m, d, h, i, s);
            &&& t.len() == 19
            &&& t.subrange(0, 4) == y
            &&& t.subrange(5, 7) == m
            &&& t.subrange(8, 10) == d
            &&& t.subrange(11, 13) == h
            &&& t.subrange(14, 16) == i
            &&& t.subrange(17, 19) == s
            &&& t[4] == '-' && t[7] == '-' && t[10] == 'T' && t[13] == ':' && t[16] == ':'
        }),
{
    reveal_strlit("-");
    reveal_strlit(":");
    reveal_strlit("T");
    let t = assembled(y, m, d, h, i, s);
    assert(t.subrange(0, 4) =~= y);
    assert(t.subrange(5, 7) =~= m);
    assert(t.subrange(8, 10) =~= d);
    assert(t.subrange(11, 13) =~= h);
    assert(t.subrange(14, 16) =~= i);
    assert(t.subrange(17, 19) =~= s);
}

/// Six rows of digits that denote a date and a time of day make a timestamp.
proof fn assembled_denotes(
    y: Seq<char>,
    m: Seq<char>,
    d: Seq<char>,
    h: Seq<char>,
    i: Seq<char>,
    s: Seq<char>,
    date: Date,
    hour: int,
    minute: int,
    second: int,
)
    requires
        y.len() == 4,
        m.len() == 2,
        d.len() == 2,
        h.len() == 2,
        i.len() == 2,
        s.len() == 2,
        parse_signed_spec(y) == Some(date.year),
        parse_unsigned_spec(m, u32::MAX as int) == Some(date.month),
        parse_unsigned_spec(d, u32::MAX as int) == Some(date.day),
        parse_unsigned_spec(h, u32::MAX as int) == Some(hour),
        parse_unsigned_spec(i, u32::MAX as int) == Some(minute),
        parse_unsigned_spec(s, u32::MAX as int) == Some(second),
        1 <= date.month <= 12,
        1 <= date.day <= 31,
        hour < 24,
        minute < 60,
        second < 60,
    ensures
        local_time_spec(assembled(y, m, d, h, i, s)) == Some(
            date.number() * 86400 + hour * 3600 + minute * 60 + second,
        ),
{
    assembled_parts(y, m, d, h, i, s);
    assert(date == Date { year: date.year, month: date.month, day: date.day });
}

/// The text of a timestamp of the years 0 to 9999 denotes the timestamp.
proof fn iso_local_value(t: int)
    requires
        0 <= date_of(t / 86400).year <= 9999,
    ensures
        local_time_spec(iso_local_spec(t)) == Some(t),
{
    let date = date_of(t / 86400);
    let second = t % 86400;
    let max = u32::MAX as int;
    law_every_day_has_a_date(t / 86400);
    crate::number::four_digits(date.year);
    crate::number::two_digits(date.month, max);
    crate::number::two_digits(date.day, max);
    crate::number::two_digits(second / 3600, max);
    crate::number::two_digits(second % 3600 / 60, max);
    crate::number::two_digits(second % 60, max);
    assembled_denotes(
        padded_signed_spec(date.year, 4),
        padded_spec(date.month, 2),
        padded_spec(date.day, 2),
        padded_spec(second / 3600, 2),
        padded_spec(second % 3600 / 60, 2),
        padded_spec(second % 60, 2),
        date,
        second / 3600,
        second % 3600 / 60,
        second % 60,
    );
    assert(second == (second / 3600) * 3600 + (second % 3600 / 60) * 60 + second % 60);
    assert(t == t / 86400 * 86400 + second);
}

/// A row of characters in its place.
proof fn part_digits(t: Seq<char>, from: int, to: int, part: Seq<char>)
    requires
        0 <= from <= to <= t.len(),
        t.subrange(from, to) == part,
        crate::number::all_digits_spec(part),
    ensures
        forall|i: int| from <= i < to ==> 48 <= (#[trigger] t[i]) as u32 <= 57,
{
    assert forall|i: int| from <= i < to implies 48 <= (#[trigger] t[i]) as u32 <= 57 by {
        assert(crate::number::is_digit_spec(part[i - from]));
        assert(t.subrange(from, to)[i - from] == t[i]);
    }
}

/// The text of a timestamp of the years 0 to 9999 has nineteen characters, each a digit or a
/// separator in its place, and denotes the timestamp.
proof fn iso_local_denotes(t: int)
    requires
        0 <= date_of(t / 86400).year <= 9999,
    ensures
        iso_local_spec(t).len() == 19,
        forall|i: int|
            0 <= i < 19 ==> {
                let c = #[trigger] iso_local_spec(t)[i];
                48 <= c as u32 <= 58 || c == '-' || c == 'T'
            },
        iso_local_spec(t)[0] != '-',
        local_time_spec(iso_local_spec(t)) == Some(t),
{
    iso_local_value(t);
    let date = date_of(t / 86400);
    let second = t % 86400;
    let max = u32::MAX as int;
    law_every_day_has_a_date(t / 86400);
    let y = padded_signed_spec(date.year, 4);
    let m = padded_spec(date.month, 2);
    let d = padded_spec(date.day, 2);
    let h = padded_spec(second / 3600, 2);
    let i = padded_spec(second % 3600 / 60, 2);
    let s = padded_spec(second % 60, 2);
    crate::number::four_digits(date.year);
    crate::number::two_digits(date.month, max);
    crate::number::two_digits(date.day, max);
    crate::number::two_digits(second / 3600, max);
    crate::number::two_digits(second % 3600 / 60, max);
    crate::number::two_digits(second % 60, max);
    assembled_parts(y, m, d, h, i, s);
    let text = iso_local_spec(t);
    assert(text == assembled(y, m, d, h, i, s));
    part_digits(text, 0, 4, y);
    part_digits(text, 5, 7, m);
    part_digits(text, 8, 10, d);
    part_digits(text, 11, 13, h);
    part_digits(text, 14, 16, i);
    part_digits(text, 17, 19, s);
}

/// Reading back what a timestamp is written as gives the timestamp: the date and the time of day
/// that `format_epoch_utc` writes, joined by `T` and closed by `Z`, denote the same second. Holds
/// for the years that have four digits.
pub proof fn law_timestamp_round_trip(epoch_secs: int)
    requires
        0 <= date_of(epoch_secs / 86400).year <= 9999,
    ensures
        format_epoch_utc_spec(epoch_secs) == date_text_spec(date_of(epoch_secs / 86400)) + " "@
            + time_text_spec(epoch_secs % 86400) + " UTC"@,
        parse_iso8601_spec(iso_local_spec(epoch_secs) + "Z"@) == Some(epoch_secs),
{
    iso_local_denotes(epoch_secs);
    reveal_strlit("Z");
    let local = iso_local_spec(epoch_secs);
    let s = local + "Z"@;
    assert(48 <= s[0] as u32 <= 58 || s[0] == 'T') by {
        assert(s[0] == local[0]);
    }
    assert(s.last() == 'Z');
    assert(trim_spec(s) == s);
    assert forall|i: int| 0 <= i < 19 implies s[i] != 'Z' by {
        assert(s[i] == local[i]);
    }
    splits_at(s, 'Z', 19);
    assert(s.take(19) =~= local);
}

/// Where the last `c` stands, the text is split.
proof fn splits_at_last(s: Seq<char>, c: char, at: int)
    requires
        0 <= at < s.len(),
        s[at] == c,
        forall|i: int| at < i < s.len() ==> s[i] != c,
    ensures
        rsplit_once_spec(s, c) == Some((s.take(at), s.skip(at + 1))),
    decreases s.len(),
{
    if at == s.len() - 1 {
        assert(s.take(at) =~= s.drop_last());
        assert(s.skip(at + 1) =~= Seq::empty());
    } else {
        splits_at_last(s.drop_last(), c, at);
        assert(s.drop_last().take(at) =~= s.take(at));
        assert(s.drop_last().skip(at + 1).push(s.last()) =~= s.skip(at + 1));
    }
}

/// A text without `c` is not split.
proof fn splits_nowhere(s: Seq<char>, c: char)
    requires
        forall|i: int| 0 <= i < s.len() ==> s[i] != c,
    ensures
        split_once_spec(s, c) is None,
        rsplit_once_spec(s, c) is None,
    decreases s.len(),
{
    if s.len() > 0 {
        splits_nowhere(s.skip(1), c);
        splits_nowhere(s.drop_last(), c);
    }
}

/// A local time and an offset that hold neither `Z` nor a sign beyond the dashes of the date are
/// told apart at the sign between them.
proof fn offset_applies(local: Seq<char>, sign: char, zone: Seq<char>, t: int, shift: int)
    requires
        local.len() == 19,
        zone.len() == 5,
        sign == '+' || sign == '-',
        forall|i: int|
            0 <= i < 19 ==> {
                let c = #[trigger] local[i];
                48 <= c as u32 <= 58 || c == '-' || c == 'T'
            },
        forall|i: int| 0 <= i < 5 ==> 48 <= (#[trigger] zone[i]) as u32 <= 58,
        local_time_spec(local) == Some(t),
        offset_spec(zone) == Some(shift),
    ensures
        parse_iso8601_spec(local.push(sign) + zone) == Some(
            if sign == '+' {
                t - shift
            } else {
                t + shift
            },
        ),
{
    let s = local.push(sign) + zone;
    assert(s[0] == local[0] && s.last() == zone[4]);
    assert(trim_spec(s) == s);
    assert forall|i: int| 0 <= i < 25 implies s[i] != 'Z' && (i != 19 ==> s[i] != '+') && (i > 19
        ==> s[i] != '-') by {
        if i < 19 {
            assert(s[i] == local[i]);
        } else if i > 19 {
            assert(s[i] == zone[i - 20]);
        }
    }
    splits_nowhere(s, 'Z');
    splits_at_last(s, sign, 19);
    if sign == '-' {
        splits_nowhere(s, '+');
    }
    assert(s.take(19) =~= local);
    assert(s.skip(20) =~= zone);
}

/// Two digits, a colon and two digits denote an offset.
proof fn zone_denotes(hours: int, minutes: int)
    requires
        0 <= hours < 100,
        0 <= minutes < 100,
    ensures
        ({
            let zone = padded_spec(hours, 2) + ":"@ + padded_spec(minutes, 2);
            &&& zone.len() == 5
            &&& offset_spec(zone) == Some(hours * 3600 + minutes * 60)
            &&& forall|i: int| 0 <= i < 5 ==> 48 <= (#[trigger] zone[i]) as u32 <= 58
        }),
{
    crate::number::two_digits(hours, 100);
    crate::number::two_digits(minutes, 100);
    reveal_strlit(":");
    let zone = padded_spec(hours, 2) + ":"@ + padded_spec(minutes, 2);
    assert(zone.subrange(0, 2) =~= padded_spec(hours, 2));
    assert(zone.subrange(3, 5) =~= padded_spec(minutes, 2));
    part_digits(zone, 0, 2, padded_spec(hours, 2));
    part_digits(zone, 3, 5, padded_spec(minutes, 2));
}

/// An offset east of UTC is subtracted, and one west of UTC is added: the same local time with
/// `+HH:MM` or `-HH:MM` in place of `Z` denotes the second that lies that much earlier or later.
pub proof fn law_offset_shifts_timestamp(epoch_secs: int, hours: int, minutes: int)
    requires
        0 <= date_of(epoch_secs / 86400).year <= 9999,
        0 <= hours < 100,
        0 <= minutes < 100,
    ensures
        parse_iso8601_spec(
            iso_local_spec(epoch_secs).push('+') + (padded_spec(hours, 2) + ":"@ + padded_spec(
                minutes,
                2,
            )),
        ) == Some(epoch_secs - (hours * 3600 + minutes * 60)),
        parse_iso8601_spec(
            iso_local_spec(epoch_secs).push('-') + (padded_spec(hours, 2) + ":"@ + padded_spec(
                minutes,
                2,
            )),
        ) == Some(epoch_secs + (hours * 3600 + minutes * 60)),
{
    iso_local_denotes(epoch_secs);
    let zone = padded_spec(hours, 2) + ":"@ + padded_spec(minutes, 2);
    let shift = hours * 3600 + minutes * 60;
    zone_denotes(hours, minutes);
    offset_applies(iso_local_spec(epoch_secs), '+', zone, epoch_secs, shift);
    offset_applies(iso_local_spec(epoch_secs), '-', zone, epoch_secs, shift);
}

} // verus!
