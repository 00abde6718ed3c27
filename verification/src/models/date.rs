//! Calendar dates in the proleptic Gregorian calendar, as `chrono::NaiveDate`
//! holds them, and the calendar arithmetic the domain rules use.
//!
//! A [`Date`] carries its year, month and day as plain numbers. The arithmetic
//! itself is done by `chrono`; each call is stated here by the calendar rule
//! that it follows.

use chrono::Datelike;
use vstd::prelude::*;

verus! {

/// The earliest year a `chrono::NaiveDate` can hold.
pub const MIN_YEAR: i32 = -262143;

/// The latest year a `chrono::NaiveDate` can hold.
pub const MAX_YEAR: i32 = 262142;

/// An instant, as microseconds since the Unix epoch (UTC). Rows carry their
/// creation and update instants; the domain rules only pass them along.
#[derive(Debug, Clone, Copy, PartialEq, Eq, Structural)]
pub struct Timestamp {
    pub micros: i64,
}

/// A calendar date.
#[derive(Debug, Clone, Copy, PartialEq, Eq, Structural)]
pub struct Date {
    pub year: i32,
    pub month: u32,
    pub day: u32,
}

/// Whether `y` is a leap year of the proleptic Gregorian calendar.
pub open spec fn is_leap_year(y: int) -> bool {
    y % 4 == 0 && (y % 100 != 0 || y % 400 == 0)
}

/// The number of days of month `m` (1 to 12) in year `y`.
pub open spec fn days_in_month(y: int, m: int) -> int {
    if m == 2 {
        if is_leap_year(y) {
            29
        } else {
            28
        }
    } else if m == 4 || m == 6 || m == 9 || m == 11 {
        30
    } else {
        31
    }
}

/// Whether year, month and day name an existing calendar date.
pub open spec fn is_calendar_date(y: int, m: int, d: int) -> bool {
    1 <= m <= 12 && 1 <= d <= days_in_month(y, m)
}

/// A date whose month and day exist (the year is left free).
pub open spec fn calendar_ok(d: Date) -> bool {
    is_calendar_date(d.year as int, d.month as int, d.day as int)
}

/// Whether `y`, `m`, `d` name a date that `chrono::NaiveDate` can hold.
pub open spec fn valid_ymd(y: int, m: int, d: int) -> bool {
    MIN_YEAR <= y <= MAX_YEAR && is_calendar_date(y, m, d)
}

/// The date with the given parts (no check).
pub open spec fn ymd(y: int, m: int, d: int) -> Date {
    Date { year: y as i32, month: m as u32, day: d as u32 }
}

impl Date {
    /// The date exists and lies within the range of `chrono::NaiveDate`.
    pub open spec fn wf(self) -> bool {
        valid_ymd(self.year as int, self.month as int, self.day as int)
    }

    /// A number that orders dates chronologically.
    pub open spec fn ordinal_key(self) -> int {
        self.year * 512 + self.month * 32 + self.day
    }

    /// `self` is the same day as `other` or an earlier one.
    pub open spec fn on_or_before(self, other: Date) -> bool {
        self.ordinal_key() <= other.ordinal_key()
    }

    /// `self` is an earlier day than `other`.
    pub open spec fn before(self, other: Date) -> bool {
        self.ordinal_key() < other.ordinal_key()
    }
}

/// The day after `d`, by the calendar (with no range limit).
pub open spec fn next_day(d: Date) -> Date {
    if (d.day as int) < days_in_month(d.year as int, d.month as int) {
        ymd(d.year as int, d.month as int, d.day + 1)
    } else if d.month < 12 {
        ymd(d.year as int, d.month + 1, 1)
    } else {
        ymd(d.year + 1, 1, 1)
    }
}

/// The day before `d`, by the calendar (with no range limit).
pub open spec fn prev_day(d: Date) -> Date {
    if d.day > 1 {
        ymd(d.year as int, d.month as int, d.day - 1)
    } else if d.month > 1 {
        ymd(d.year as int, d.month - 1, days_in_month(d.year as int, d.month - 1))
    } else {
        ymd(d.year - 1, 12, 31)
    }
}

/// `d` moved `n` days forward.
pub open spec fn add_days_spec(d: Date, n: nat) -> Date
    decreases n,
{
    if n == 0 {
        d
    } else {
        next_day(add_days_spec(d, (n - 1) as nat))
    }
}

/// `d` moved `n` days back.
pub open spec fn sub_days_spec(d: Date, n: nat) -> Date
    decreases n,
{
    if n == 0 {
        d
    } else {
        prev_day(sub_days_spec(d, (n - 1) as nat))
    }
}

/// `d` moved `k` months forward, the day clamped to the last day of the
/// resulting month when that month is shorter.
pub open spec fn add_months_spec(d: Date, k: int) -> Date {
    let total = d.year * 12 + (d.month - 1) + k;
    let y = total / 12;
    let m = total % 12 + 1;
    let dd = if (d.day as int) <= days_in_month(y, m) {
        d.day as int
    } else {
        days_in_month(y, m)
    };
    ymd(y, m, dd)
}

/// The year reached by moving `k` months from `d` lies in the supported range.
pub open spec fn months_in_range(d: Date, k: int) -> bool {
    MIN_YEAR <= (d.year * 12 + (d.month - 1) + k) / 12 <= MAX_YEAR
}

/// A move of months whose year stays in range gives a date `chrono` can hold.
pub proof fn lemma_add_months_wf(d: Date, k: int)
    requires
        d.wf(),
        months_in_range(d, k),
    ensures
        add_months_spec(d, k).wf(),
{
}

/// Moving fewer months than a move that stays in range also stays in range.
pub proof fn lemma_months_in_range_below(d: Date, k: int, n: int)
    requires
        d.wf(),
        0 <= k <= n,
        months_in_range(d, n),
    ensures
        months_in_range(d, k),
        add_months_spec(d, k).wf(),
{
    let tk = d.year * 12 + (d.month - 1) + k;
    let tn = d.year * 12 + (d.month - 1) + n;
    assert(tk / 12 <= tn / 12);
    assert(tk / 12 >= d.year);
}

/// The number of days before month `m` in year `y`.
pub open spec fn days_before_month(y: int, m: int) -> int
    decreases m,
{
    if m <= 1 || m > 12 {
        0
    } else {
        days_before_month(y, m - 1) + days_in_month(y, m - 1)
    }
}

/// Days since 1 January of year 1, counting that day as day 1
/// (`Datelike::num_days_from_ce`).
pub open spec fn days_from_ce(d: Date) -> int {
    let y1 = d.year - 1;
    365 * y1 + y1 / 4 - y1 / 100 + y1 / 400 + days_before_month(d.year as int, d.month as int)
        + d.day
}

/// The day of the week counted from Monday = 0 to Sunday = 6
/// (1 January of year 1 was a Monday).
pub open spec fn weekday_from_monday(d: Date) -> int {
    (days_from_ce(d) - 1) % 7
}

/// The result of `chrono`'s `NaiveDate::from_str` on the given text: the
/// year, month and day it reads, or the text of the error it reports.
pub uninterp spec fn naive_date_from_str(s: Seq<char>) -> Result<(int, int, int), Seq<char>>;

/// The last day of month `m` of year `y`.
pub open spec fn last_day_of_month(y: int, m: int) -> Date {
    ymd(y, m, days_in_month(y, m))
}

impl Date {
    /// `NaiveDate::from_ymd_opt`: the date with the given parts, or `None` when
    /// it does not exist or lies outside the range `chrono` supports. Claimed
    /// of `chrono`: `Some` exactly for the existing dates of years
    /// `MIN_YEAR..=MAX_YEAR`, and then with the given parts.
    #[verifier::external_body]
    pub(crate) fn from_ymd_opt(year: i32, month: u32, day: u32) -> (r: Option<Date>)
        ensures
            r == (if valid_ymd(year as int, month as int, day as int) {
                Some(Date { year, month, day })
            } else {
                None
            }),
    {
        match chrono::NaiveDate::from_ymd_opt(year, month, day) {
            Some(d) => Some(Date { year: d.year(), month: d.month(), day: d.day() }),
            None => None,
        }
    }

    /// `NaiveDate::checked_add_months`: `self` moved `months` months forward,
    /// with the day clamped to the end of a shorter month; `None` when the
    /// result leaves the supported range. Claimed of `chrono` as its
    /// documentation and source state it.
    #[verifier::external_body]
    pub(crate) fn checked_add_months(&self, months: u32) -> (r: Option<Date>)
        requires
            self.wf(),
        ensures
            r == (if add_months_spec(*self, months as int).wf() {
                Some(add_months_spec(*self, months as int))
            } else {
                None
            }),
    {
        let d = chrono::NaiveDate::from_ymd_opt(self.year, self.month, self.day).unwrap();
        match d.checked_add_months(chrono::Months::new(months)) {
            Some(r) => Some(Date { year: r.year(), month: r.month(), day: r.day() }),
            None => None,
        }
    }

    /// `NaiveDate::checked_sub_months`: `self` moved `months` months back, with
    /// the day clamped to the end of a shorter month; `None` when the result
    /// leaves the supported range.
    #[verifier::external_body]
    pub(crate) fn checked_sub_months(&self, months: u32) -> (r: Option<Date>)
        requires
            self.wf(),
        ensures
            r == (if add_months_spec(*self, -(months as int)).wf() {
                Some(add_months_spec(*self, -(months as int)))
            } else {
                None
            }),
    {
        let d = chrono::NaiveDate::from_ymd_opt(self.year, self.month, self.day).unwrap();
        match d.checked_sub_months(chrono::Months::new(months)) {
            Some(r) => Some(Date { year: r.year(), month: r.month(), day: r.day() }),
            None => None,
        }
    }

    /// `NaiveDate::checked_add_days`: the date `days` days later, or `None`
    /// when it leaves the supported range.
    #[verifier::external_body]
    pub(crate) fn checked_add_days(&self, days: u32) -> (r: Option<Date>)
        requires
            self.wf(),
        ensures
            r == (if add_days_spec(*self, days as nat).wf() {
                Some(add_days_spec(*self, days as nat))
            } else {
                None
            }),
    {
        let d = chrono::NaiveDate::from_ymd_opt(self.year, self.month, self.day).unwrap();
        match d.checked_add_days(chrono::Days::new(days as u64)) {
            Some(r) => Some(Date { year: r.year(), month: r.month(), day: r.day() }),
            None => None,
        }
    }

    /// `NaiveDate::checked_sub_days`: the date `days` days earlier, or `None`
    /// when it leaves the supported range.
    #[verifier::external_body]
    pub(crate) fn checked_sub_days(&self, days: u32) -> (r: Option<Date>)
        requires
            self.wf(),
        ensures
            r == (if sub_days_spec(*self, days as nat).wf() {
                Some(sub_days_spec(*self, days as nat))
            } else {
                None
            }),
    {
        let d = chrono::NaiveDate::from_ymd_opt(self.year, self.month, self.day).unwrap();
        match d.checked_sub_days(chrono::Days::new(days as u64)) {
            Some(r) => Some(Date { year: r.year(), month: r.month(), day: r.day() }),
            None => None,
        }
    }

    /// `Weekday::num_days_from_monday` of the date's weekday: Monday is 0 and
    /// Sunday is 6, counted in the proleptic Gregorian calendar.
    #[verifier::external_body]
    pub(crate) fn num_days_from_monday(&self) -> (r: u32)
        requires
            self.wf(),
        ensures
            r == weekday_from_monday(*self),
    {
        let d = chrono::NaiveDate::from_ymd_opt(self.year, self.month, self.day).unwrap();
        d.weekday().num_days_from_monday()
    }

    /// `NaiveDate::from_str`: reads a `YYYY-MM-DD` date. Claimed of `chrono`:
    /// the result is what `naive_date_from_str` names for the text, and a date
    /// it returns is one `chrono` can hold; the error is `chrono`'s message.
    #[verifier::external_body]
    pub(crate) fn parse(s: &str) -> (r: Result<Date, String>)
        ensures
            match r {
                Ok(d) => d.wf() && naive_date_from_str(s@) == Ok::<(int, int, int), Seq<char>>(
                    (d.year as int, d.month as int, d.day as int),
                ),
                Err(e) => naive_date_from_str(s@) == Err::<(int, int, int), Seq<char>>(e@),
            },
    {
        match <chrono::NaiveDate as std::str::FromStr>::from_str(s) {
            Ok(d) => Ok(Date { year: d.year(), month: d.month(), day: d.day() }),
            Err(e) => Err(e.to_string()),
        }
    }

    /// Today's date in UTC (`Utc::now().naive_local().date()`). It depends on
    /// the clock: only that it is a date `chrono` can hold is claimed.
    #[verifier::external_body]
    pub(crate) fn today_utc() -> (r: Date)
        ensures
            r.wf(),
    {
        let d = chrono::Utc::now().naive_local().date();
        Date { year: d.year(), month: d.month(), day: d.day() }
    }

    /// Today's date in the machine's local time zone
    /// (`Local::now().naive_local().date()`). It depends on the clock and the
    /// time zone: only that it is a date `chrono` can hold is claimed.
    #[verifier::external_body]
    pub(crate) fn today_local() -> (r: Date)
        ensures
            r.wf(),
    {
        let d = chrono::Local::now().naive_local().date();
        Date { year: d.year(), month: d.month(), day: d.day() }
    }

    /// Whether `self` is the same day as `other` or an earlier one.
    pub fn is_on_or_before(&self, other: &Date) -> (r: bool)
        requires
            self.wf(),
            other.wf(),
        ensures
            r == self.on_or_before(*other),
    {
        self.year < other.year || (self.year == other.year && (self.month < other.month || (
        self.month == other.month && self.day <= other.day)))
    }
}

/// The first day of the month after month `m` of year `y`, as
/// `safe_from_ymd` forms it.
pub open spec fn first_of_following_month(y: int, m: int) -> Date {
    if m + 1 > 12 {
        ymd(y + 1, 1, 1)
    } else {
        ymd(y, m + 1, 1)
    }
}

/// What `safe_from_ymd` gives: the date itself when it exists, otherwise the
/// day before the first day of the following month.
pub open spec fn safe_from_ymd_spec(year: int, month: int, day: int) -> Date {
    if valid_ymd(year, month, day) {
        ymd(year, month, day)
    } else {
        prev_day(first_of_following_month(year, month))
    }
}

/// The inputs on which `safe_from_ymd` returns: the following month's first
/// day and the day before it both lie in the supported range.
pub open spec fn safe_from_ymd_defined(year: int, month: int, day: int) -> bool {
    valid_ymd(year, month, day) || (month < u32::MAX && (if month + 1 > 12 {
        MIN_YEAR <= year + 1 <= MAX_YEAR
    } else {
        MIN_YEAR <= year <= MAX_YEAR
    }) && prev_day(first_of_following_month(year, month)).wf())
}

/// Builds a date, falling back to the last day of the month when the day
/// does not exist in it (31 February becomes 28 or 29 February).
pub fn safe_from_ymd(year: i32, month: u32, day: u32) -> (r: Date)
    requires
        safe_from_ymd_defined(year as int, month as int, day as int),
    ensures
        r == safe_from_ymd_spec(year as int, month as int, day as int),
        r.wf(),
{
    match Date::from_ymd_opt(year, month, day) {
        Some(d) => d,
        None => {
            let mut nm = month + 1;
            let mut ny = year;
            if nm > 12 {
                nm = 1;
                ny = ny + 1;
            }
            let first = Date::from_ymd_opt(ny, nm, 1).unwrap();
            assert(sub_days_spec(first, 1) == prev_day(sub_days_spec(first, 0)));
            first.checked_sub_days(1).unwrap()
        },
    }
}

/// For an existing month, `safe_from_ymd` clamps the day to the month's
/// length.
pub proof fn lemma_safe_from_ymd_clamps(year: int, month: int, day: int)
    requires
        MIN_YEAR <= year <= MAX_YEAR,
        1 <= month <= 12,
        1 <= day,
    ensures
        safe_from_ymd_spec(year, month, day) == (if day <= days_in_month(year, month) {
            ymd(year, month, day)
        } else {
            last_day_of_month(year, month)
        }),
{
}

/// The day count of a year's first day: the days of all earlier years.
proof fn lemma_days_before_year_step(y: int)
    ensures
        (365 * y + y / 4 - y / 100 + y / 400) - (365 * (y - 1) + (y - 1) / 4 - (y - 1) / 100 + (y
            - 1) / 400) == 365 + (if is_leap_year(y) {
            1int
        } else {
            0int
        }),
{
    assert(y / 4 - (y - 1) / 4 == (if y % 4 == 0 {
        1int
    } else {
        0int
    }));
    assert(y / 100 - (y - 1) / 100 == (if y % 100 == 0 {
        1int
    } else {
        0int
    }));
    assert(y / 400 - (y - 1) / 400 == (if y % 400 == 0 {
        1int
    } else {
        0int
    }));
}

/// The days before December: 334, and one more in a leap year.
proof fn lemma_days_before_december(y: int)
    ensures
        days_before_month(y, 12) == 334 + (if is_leap_year(y) {
            1int
        } else {
            0int
        }),
{
    reveal_with_fuel(days_before_month, 13);
}

/// The day after a date is one day later in the count of days: the calendar
/// steps by exactly one day, across month and year ends and 29 February.
pub proof fn lemma_next_day_count(d: Date)
    requires
        calendar_ok(d),
        i32::MIN < d.year < i32::MAX,
    ensures
        calendar_ok(next_day(d)),
        days_from_ce(next_day(d)) == days_from_ce(d) + 1,
{
    let y = d.year as int;
    let m = d.month as int;
    if (d.day as int) < days_in_month(y, m) {
    } else if m < 12 {
        assert(days_before_month(y, m + 1) == days_before_month(y, m) + days_in_month(y, m));
    } else {
        lemma_days_before_year_step(y);
        lemma_days_before_december(y);
        assert(days_before_month(y + 1, 1) == 0);
    }
}

/// Moving `n` days forward adds `n` to the count of days.
pub proof fn lemma_add_days_count(d: Date, n: nat)
    requires
        calendar_ok(d),
        MIN_YEAR <= d.year < MAX_YEAR,
        n <= 7,
    ensures
        calendar_ok(add_days_spec(d, n)),
        d.year <= add_days_spec(d, n).year <= d.year + n,
        days_from_ce(add_days_spec(d, n)) == days_from_ce(d) + n,
    decreases n,
{
    if n > 0 {
        lemma_add_days_count(d, (n - 1) as nat);
        let p = add_days_spec(d, (n - 1) as nat);
        assert(add_days_spec(d, n) == next_day(p));
        lemma_next_day_count(p);
    }
}

} // verus!
