//! Calendar dates and local timestamps as plain numbers, with the clock and
//! chrono's text formatting behind trusted wrappers.

use chrono::{Datelike, TimeZone, Timelike};
use vstd::prelude::*;

use crate::text::{decimal_text, power_of_ten};

verus! {

/// The earliest year that chrono's `NaiveDate` represents.
pub const MIN_YEAR: i32 = -262143;

/// The latest year that chrono's `NaiveDate` represents.
pub const MAX_YEAR: i32 = 262142;

/// Whether `year` is a leap year of the proleptic Gregorian calendar.
pub open spec fn is_leap_year(year: int) -> bool {
    year % 4 == 0 && (year % 100 != 0 || year % 400 == 0)
}

/// The number of days of `month` (1 to 12) in `year`.
pub open spec fn days_in_month(year: int, month: int) -> int {
    if month == 2 {
        if is_leap_year(year) {
            29
        } else {
            28
        }
    } else if month == 4 || month == 6 || month == 9 || month == 11 {
        30
    } else {
        31
    }
}

/// A calendar date: year, month (1 to 12) and day of the month (from 1).
#[derive(Debug, Clone, Copy, PartialEq, Eq, Structural)]
pub struct CalendarDate {
    pub year: i32,
    pub month: u32,
    pub day: u32,
}

impl CalendarDate {
    /// The date exists in the proleptic Gregorian calendar and within chrono's range.
    pub open spec fn is_valid(self) -> bool {
        &&& MIN_YEAR <= self.year <= MAX_YEAR
        &&& 1 <= self.month <= 12
        &&& 1 <= self.day <= days_in_month(self.year as int, self.month as int)
    }
}

/// A local timestamp: the wall-clock date and time, and the instant as seconds
/// since the Unix epoch and nanoseconds within the second (which order
/// timestamps across time zones).
#[derive(Debug, Clone, Copy, PartialEq, Eq, Structural)]
pub struct Timestamp {
    pub date: CalendarDate,
    pub hour: u32,
    pub minute: u32,
    pub second: u32,
    pub unix_seconds: i64,
    pub nanosecond: u32,
}

impl Timestamp {
    /// The date is valid and the time of day is hour < 24, minute < 60, second < 60.
    pub open spec fn is_valid(self) -> bool {
        &&& self.date.is_valid()
        &&& self.hour < 24
        &&& self.minute < 60
        &&& self.second < 60
    }
}

/// The pattern that writes a date as year-month-day.
pub open spec fn date_pattern() -> Seq<char> {
    "%Y-%m-%d"@
}

/// The pattern that writes a date and the time to the minute.
pub open spec fn minute_pattern() -> Seq<char> {
    "%Y-%m-%d %H:%M"@
}

/// The pattern that writes a date in words: weekday, month name, day and year.
pub open spec fn long_date_pattern() -> Seq<char> {
    "%A, %B %d, %Y"@
}

/// The pattern that writes a date and time to the second with dashes only.
pub open spec fn file_pattern() -> Seq<char> {
    "%Y-%m-%d-%H-%M-%S"@
}

/// The text chrono writes for a date and time with one of the three patterns above.
pub uninterp spec fn chrono_text(
    year: int,
    month: int,
    day: int,
    hour: int,
    minute: int,
    second: int,
    pattern: Seq<char>,
) -> Seq<char>;

/// `n` written in decimal and padded with zeros on the left to `width` digits.
pub open spec fn zero_padded(n: nat, width: nat) -> Seq<char>
    decreases width,
{
    if width > 1 && n < power_of_ten((width - 1) as nat) {
        seq!['0'] + zero_padded(n, (width - 1) as nat)
    } else {
        decimal_text(n)
    }
}

/// Every character is a decimal digit.
pub open spec fn digits_only(t: Seq<char>) -> bool {
    forall|k: int| 0 <= k < t.len() ==> '0' <= #[trigger] t[k] && t[k] <= '9'
}

/// Decimal text is made of digits, and has `k` of them for a number from
/// 10^(k-1) up to 10^k.
pub proof fn lemma_decimal_digits(n: nat, k: nat)
    ensures
        digits_only(decimal_text(n)),
        k >= 1 && power_of_ten((k - 1) as nat) <= n < power_of_ten(k) ==> decimal_text(n).len() == k,
    decreases n,
{
    if n >= 10 {
        let q = n / 10;
        if k >= 2 {
            let p = power_of_ten((k - 2) as nat);
            assert(power_of_ten((k - 1) as nat) == 10 * p);
            assert(power_of_ten(k) == 10 * power_of_ten((k - 1) as nat));
            assert(power_of_ten((k - 1) as nat) <= n < power_of_ten(k) ==> p <= q < power_of_ten((k - 1) as nat))
                by (nonlinear_arith)
                requires
                    q == n / 10,
                    power_of_ten((k - 1) as nat) == 10 * p,
                    power_of_ten(k) == 10 * power_of_ten((k - 1) as nat),
            ;
            assert(((k - 1) as nat) as int == k - 1);
            lemma_decimal_digits(q, (k - 1) as nat);
        } else {
            lemma_decimal_digits(q, k);
            if k == 1 {
                assert(power_of_ten(1) == 10 * power_of_ten(0));
            }
        }
        let t = decimal_text(n);
        assert forall|j: int| 0 <= j < t.len() implies '0' <= #[trigger] t[j] && t[j] <= '9' by {
            if j < decimal_text(q).len() {
                assert(t[j] == decimal_text(q)[j]);
            }
        }
    } else {
        if k >= 2 {
            assert(power_of_ten((k - 1) as nat) == 10 * power_of_ten((k - 2) as nat));
            lemma_power_of_ten_positive((k - 2) as nat);
        }
    }
}

/// Powers of ten are at least one.
pub proof fn lemma_power_of_ten_positive(k: nat)
    ensures
        power_of_ten(k) >= 1,
    decreases k,
{
    if k > 0 {
        lemma_power_of_ten_positive((k - 1) as nat);
    }
}

/// A number below 10^width written zero-padded to `width` digits has exactly
/// `width` digits.
pub proof fn lemma_zero_padded_digits(n: nat, width: nat)
    ensures
        digits_only(zero_padded(n, width)),
        width >= 1 && n < power_of_ten(width) ==> zero_padded(n, width).len() == width,
    decreases width,
{
    lemma_decimal_digits(n, width);
    if width > 1 && n < power_of_ten((width - 1) as nat) {
        lemma_zero_padded_digits(n, (width - 1) as nat);
        let z = zero_padded(n, (width - 1) as nat);
        let t = zero_padded(n, width);
        assert forall|j: int| 0 <= j < t.len() implies '0' <= #[trigger] t[j] && t[j] <= '9' by {
            if j > 0 {
                assert(t[j] == z[j - 1]);
            }
        }
        assert(power_of_ten(width) == 10 * power_of_ten((width - 1) as nat));
    } else if width == 1 {
        assert(power_of_ten(1) == 10 * power_of_ten(0));
        if n < 10 {
            assert(decimal_text(n).len() == 1);
        }
    }
}

/// What chrono's documented specifiers write for a year from 0 to 9999:
/// %Y four digits, %m %d %H %M %S two digits each.
pub open spec fn documented_text(
    year: int,
    month: int,
    day: int,
    hour: int,
    minute: int,
    second: int,
    pattern: Seq<char>,
) -> Seq<char> {
    let ymd = zero_padded(year as nat, 4) + seq!['-'] + zero_padded(month as nat, 2) + seq!['-']
        + zero_padded(day as nat, 2);
    if pattern == date_pattern() {
        ymd
    } else if pattern == minute_pattern() {
        ymd + seq![' '] + zero_padded(hour as nat, 2) + seq![':'] + zero_padded(minute as nat, 2)
    } else {
        ymd + seq!['-'] + zero_padded(hour as nat, 2) + seq!['-'] + zero_padded(minute as nat, 2)
            + seq!['-'] + zero_padded(second as nat, 2)
    }
}

/// A date and time written with the file pattern as chrono's documented
/// specifiers write it.
pub open spec fn file_fields_text(f: DateTimeFields) -> Seq<char> {
    documented_text(f.0 as int, f.1 as int, f.2 as int, f.3 as int, f.4 as int, f.5 as int, file_pattern())
}

/// A valid date and time of the years 0 to 9999 written with the file
/// pattern is 19 characters, each of them a digit or a dash.
pub proof fn lemma_file_fields_text(f: DateTimeFields)
    requires
        valid_fields(f),
        0 <= f.0 <= 9999,
    ensures
        file_fields_text(f).len() == 19,
        forall|k: int| 0 <= k < 19 ==> (#[trigger] file_fields_text(f)[k] as u32) < 128,
{
    reveal_strlit("%Y-%m-%d");
    reveal_strlit("%Y-%m-%d %H:%M");
    reveal_strlit("%Y-%m-%d-%H-%M-%S");
    assert(file_pattern().len() != date_pattern().len());
    assert(file_pattern().len() == minute_pattern().len() + 3);
    reveal_with_fuel(power_of_ten, 5);
    lemma_zero_padded_digits(f.0 as nat, 4);
    lemma_zero_padded_digits(f.1 as nat, 2);
    lemma_zero_padded_digits(f.2 as nat, 2);
    lemma_zero_padded_digits(f.3 as nat, 2);
    lemma_zero_padded_digits(f.4 as nat, 2);
    lemma_zero_padded_digits(f.5 as nat, 2);
    let y = zero_padded(f.0 as nat, 4);
    let mo = zero_padded(f.1 as nat, 2);
    let d = zero_padded(f.2 as nat, 2);
    let h = zero_padded(f.3 as nat, 2);
    let mi = zero_padded(f.4 as nat, 2);
    let se = zero_padded(f.5 as nat, 2);
    let t = y + seq!['-'] + mo + seq!['-'] + d + seq!['-'] + h + seq!['-'] + mi + seq!['-'] + se;
    assert(file_fields_text(f) == t);
    assert forall|k: int| 0 <= k < 19 implies (#[trigger] t[k] as u32) < 128 by {
        if k < 4 {
            assert(t[k] == y[k]);
        } else if 4 < k < 7 {
            assert(t[k] == mo[k - 5]);
        } else if 7 < k < 10 {
            assert(t[k] == d[k - 8]);
        } else if 10 < k < 13 {
            assert(t[k] == h[k - 11]);
        } else if 13 < k < 16 {
            assert(t[k] == mi[k - 14]);
        } else if 16 < k < 19 {
            assert(t[k] == se[k - 17]);
        } else {
            assert(t[k] == '-');
        }
    }
}

/// One of the four patterns the library formats with.
pub open spec fn is_library_pattern(pattern: Seq<char>) -> bool {
    pattern == date_pattern() || pattern == minute_pattern() || pattern == file_pattern()
        || pattern == long_date_pattern()
}

/// chrono's `NaiveDate::from_ymd_opt(..).and_hms_opt(..)` followed by
/// `NaiveDateTime::format(pattern).to_string()`. For a valid timestamp both
/// constructors succeed (chrono documents `None` only for out-of-range or
/// invalid fields). The text is named by `chrono_text`; for years 0 to 9999 it
/// is the zero-padded layout the strftime specifiers document.
#[verifier::external_body]
fn chrono_format(
    year: i32,
    month: u32,
    day: u32,
    hour: u32,
    minute: u32,
    second: u32,
    pattern: &str,
) -> (r: String)
    requires
        (CalendarDate { year, month, day }).is_valid(),
        hour < 24,
        minute < 60,
        second < 60,
        is_library_pattern(pattern@),
    ensures
        r@ == chrono_text(
            year as int,
            month as int,
            day as int,
            hour as int,
            minute as int,
            second as int,
            pattern@,
        ),
        0 <= year <= 9999 && pattern@ != long_date_pattern() ==> r@ == documented_text(
            year as int,
            month as int,
            day as int,
            hour as int,
            minute as int,
            second as int,
            pattern@,
        ),
{
    let date_time = chrono::NaiveDate::from_ymd_opt(year, month, day).unwrap().and_hms_opt(hour, minute, second).unwrap();
    date_time.format(pattern).to_string()
}

impl CalendarDate {
    /// The date in words, as the daily card is headed: "Tuesday, March 05, 2024"
    /// ("%A, %B %d, %Y").
    pub fn long_text(&self) -> (r: String)
        requires
            self.is_valid(),
        ensures
            r@ == chrono_text(
                self.year as int,
                self.month as int,
                self.day as int,
                0,
                0,
                0,
                long_date_pattern(),
            ),
    {
        proof {
            reveal_strlit("%A, %B %d, %Y");
        }
        chrono_format(self.year, self.month, self.day, 0, 0, 0, "%A, %B %d, %Y")
    }

    /// The date as year-month-day text ("%Y-%m-%d").
    pub fn iso_text(&self) -> (r: String)
        requires
            self.is_valid(),
        ensures
            r@ == chrono_text(
                self.year as int,
                self.month as int,
                self.day as int,
                0,
                0,
                0,
                date_pattern(),
            ),
    {
        proof {
            reveal_strlit("%Y-%m-%d");
        }
        chrono_format(self.year, self.month, self.day, 0, 0, 0, "%Y-%m-%d")
    }
}

impl Timestamp {
    /// The timestamp to the minute ("%Y-%m-%d %H:%M").
    pub fn minute_text(&self) -> (r: String)
        requires
            self.is_valid(),
        ensures
            r@ == chrono_text(
                self.date.year as int,
                self.date.month as int,
                self.date.day as int,
                self.hour as int,
                self.minute as int,
                self.second as int,
                minute_pattern(),
            ),
            0 <= self.date.year <= 9999 ==> r@ == documented_text(
                self.date.year as int,
                self.date.month as int,
                self.date.day as int,
                self.hour as int,
                self.minute as int,
                self.second as int,
                minute_pattern(),
            ),
    {
        proof {
            reveal_strlit("%Y-%m-%d %H:%M");
            reveal_strlit("%A, %B %d, %Y");
            assert(minute_pattern().len() != long_date_pattern().len());
        }
        chrono_format(
            self.date.year,
            self.date.month,
            self.date.day,
            self.hour,
            self.minute,
            self.second,
            "%Y-%m-%d %H:%M",
        )
    }

    /// The timestamp to the second with dashes only ("%Y-%m-%d-%H-%M-%S"),
    /// as journal file names begin.
    pub fn file_text(&self) -> (r: String)
        requires
            self.is_valid(),
        ensures
            r@ == chrono_text(
                self.date.year as int,
                self.date.month as int,
                self.date.day as int,
                self.hour as int,
                self.minute as int,
                self.second as int,
                file_pattern(),
            ),
            0 <= self.date.year <= 9999 ==> r@ == file_fields_text(wall_clock(*self)),
    {
        proof {
            reveal_strlit("%Y-%m-%d-%H-%M-%S");
            reveal_strlit("%A, %B %d, %Y");
            assert(file_pattern().len() != long_date_pattern().len());
        }
        chrono_format(
            self.date.year,
            self.date.month,
            self.date.day,
            self.hour,
            self.minute,
            self.second,
            "%Y-%m-%d-%H-%M-%S",
        )
    }
}

/// chrono's `Local::now()`, read as plain numbers: the local wall-clock date
/// and time, the Unix timestamp and the nanoseconds within the second. What time it is depends on the clock; the
/// fields are always a valid timestamp.
#[verifier::external_body]
pub fn local_now() -> (t: Timestamp)
    ensures
        t.is_valid(),
{
    let now = chrono::Local::now();
    Timestamp {
        date: CalendarDate { year: now.year(), month: now.month(), day: now.day() },
        hour: now.hour(),
        minute: now.minute(),
        second: now.second(),
        unix_seconds: now.timestamp(),
        nanosecond: now.nanosecond(),
    }
}


/// A date and time as plain numbers: year, month, day, hour, minute, second.
pub type DateTimeFields = (i32, u32, u32, u32, u32, u32);

/// The fields form a valid date and time.
pub open spec fn valid_fields(f: DateTimeFields) -> bool {
    &&& (CalendarDate { year: f.0, month: f.1, day: f.2 }).is_valid()
    &&& f.3 < 24
    &&& f.4 < 60
    &&& f.5 < 60
}

/// The wall-clock date and time of a timestamp as plain numbers.
pub open spec fn wall_clock(t: Timestamp) -> DateTimeFields {
    (t.date.year, t.date.month, t.date.day, t.hour, t.minute, t.second)
}

/// The date and time chrono reads from a text with a pattern.
pub uninterp spec fn parsed_date_time(text: Seq<char>, pattern: Seq<char>) -> Option<(i32, u32, u32, u32, u32, u32)>;

/// chrono's `NaiveDateTime::parse_from_str`, read as plain numbers. What it
/// accepts is named by `parsed_date_time`; what it gives back is a `NaiveDateTime`,
/// whose fields are always a valid date and time (a leap second reads as second 59).
/// With the file pattern it reads back exactly the fields of a text that the
/// documented specifiers wrote for a valid date and time of the years 0 to 9999:
/// four year digits, then two digits each, between dashes.
#[verifier::external_body]
pub(crate) fn parse_date_time(text: &str, pattern: &str) -> (r: Option<DateTimeFields>)
    ensures
        r == parsed_date_time(text@, pattern@),
        r matches Some(f) ==> valid_fields(f),
        pattern@ == file_pattern() ==> forall|f: DateTimeFields|
            valid_fields(f) && 0 <= f.0 <= 9999 && #[trigger] file_fields_text(f) == text@ ==> r == Some(f),
{
    match chrono::NaiveDateTime::parse_from_str(text, pattern) {
        Ok(dt) => Some((dt.year(), dt.month(), dt.day(), dt.hour(), dt.minute(), dt.second())),
        Err(_) => None,
    }
}

/// chrono's `Local.from_local_datetime(..).single()` on a valid date and time,
/// read as plain numbers. Whether the local time zone has that wall-clock time
/// exactly once depends on the machine, so nothing says when the result is
/// `None`; a result keeps the wall-clock fields it was given.
#[verifier::external_body]
pub(crate) fn local_time_at(f: DateTimeFields) -> (r: Option<Timestamp>)
    requires
        valid_fields(f),
    ensures
        r matches Some(t) ==> t.is_valid() && wall_clock(t) == f,
{
    let naive = chrono::NaiveDate::from_ymd_opt(f.0, f.1, f.2).unwrap().and_hms_opt(f.3, f.4, f.5).unwrap();
    match chrono::Local.from_local_datetime(&naive).single() {
        Some(dt) => Some(Timestamp {
            date: CalendarDate { year: dt.year(), month: dt.month(), day: dt.day() },
            hour: dt.hour(),
            minute: dt.minute(),
            second: dt.second(),
            unix_seconds: dt.timestamp(),
            nanosecond: dt.nanosecond(),
        }),
        None => None,
    }
}

} // verus!
