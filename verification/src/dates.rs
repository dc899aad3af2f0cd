//! Calendar dates of the proleptic Gregorian calendar, and how they are written.
use vstd::prelude::*;

use crate::text;

verus! {

/// The first and the last year a date can lie in.
pub const MIN_YEAR: i32 = -262143;

pub const MAX_YEAR: i32 = 262142;

/// A calendar day. Every date the library takes or gives is [`Date::valid`].
#[derive(Clone, Copy, Debug, PartialEq, Eq, Structural)]
pub struct Date {
    pub year: i32,
    pub month: u32,
    pub day: u32,
}

/// A date and a time of day, to the second.
#[derive(Clone, Copy, Debug, PartialEq, Eq, Structural)]
pub struct DateTime {
    pub date: Date,
    pub hour: u32,
    pub minute: u32,
    pub second: u32,
}

/// A span of days, both ends included.
#[derive(Clone, Copy, Debug, PartialEq, Eq, Structural)]
pub struct DateRange {
    pub start: Date,
    pub end: Date,
}

pub open spec fn is_leap(year: int) -> bool {
    year % 4 == 0 && (year % 100 != 0 || year % 400 == 0)
}

/// How many days `month` has in `year`.
pub open spec fn month_length(year: int, month: int) -> int {
    if month == 2 {
        if is_leap(year) {
            29
        } else {
            28
        }
    } else if month == 4 || month == 6 || month == 9 || month == 11 {
        30
    } else {
        31
    }
}

/// Whether the calendar has this day.
pub open spec fn day_exists(year: int, month: int, day: int) -> bool {
    MIN_YEAR <= year <= MAX_YEAR && 1 <= month <= 12 && 1 <= day <= month_length(year, month)
}

/// How many days of a year lie before `month`.
pub open spec fn days_before_month(year: int, month: int) -> int {
    let leap: int = if is_leap(year) {
        1
    } else {
        0
    };
    if month <= 1 {
        0
    } else if month == 2 {
        31
    } else if month == 3 {
        59 + leap
    } else if month == 4 {
        90 + leap
    } else if month == 5 {
        120 + leap
    } else if month == 6 {
        151 + leap
    } else if month == 7 {
        181 + leap
    } else if month == 8 {
        212 + leap
    } else if month == 9 {
        243 + leap
    } else if month == 10 {
        273 + leap
    } else if month == 11 {
        304 + leap
    } else {
        334 + leap
    }
}

/// The running number of a day: 1 January of year 1 is day 1.
pub open spec fn day_number(year: int, month: int, day: int) -> int {
    let y = year - 1;
    365 * y + y / 4 - y / 100 + y / 400 + days_before_month(year, month) + day
}

/// `a` is an earlier day than `b`.
pub open spec fn earlier(a: Date, b: Date) -> bool {
    a.year < b.year || (a.year == b.year && (a.month < b.month || (a.month == b.month && a.day
        < b.day)))
}

impl Date {
    pub open spec fn valid(self) -> bool {
        day_exists(self.year as int, self.month as int, self.day as int)
    }

    pub open spec fn number(self) -> int {
        day_number(self.year as int, self.month as int, self.day as int)
    }

    /// The day `year`-`month`-`day`, where the calendar has it.
    ///
    /// Calls `chrono::NaiveDate::from_ymd_opt`, which gives a date exactly for the days that
    /// exist within its range of years.
    #[verifier::external_body]
    pub(crate) fn from_ymd_opt(year: i32, month: u32, day: u32) -> (r: Option<Date>)
        ensures
            r == (if day_exists(year as int, month as int, day as int) {
                Some(Date { year, month, day })
            } else {
                None
            }),
    {
        chrono::NaiveDate::from_ymd_opt(year, month, day).map(|_| Date { year, month, day })
    }

    /// The day `days` days after this one (before it, where `days` is negative).
    ///
    /// Calls `chrono::NaiveDate::checked_add_signed` with `chrono::TimeDelta::days`: the result
    /// is the day whose running number is larger by `days`.
    #[verifier::external_body]
    pub(crate) fn plus_days(self, days: i64) -> (r: Date)
        requires
            self.valid(),
            day_number(MIN_YEAR as int, 1, 1) <= self.number() + days <= day_number(
                MAX_YEAR as int,
                12,
                31,
            ),
        ensures
            r.valid(),
            r.number() == self.number() + days,
    {
        let d = chrono::NaiveDate::from_ymd_opt(self.year, self.month, self.day).unwrap();
        let r = d.checked_add_signed(chrono::TimeDelta::days(days)).unwrap();
        let (year, month, day) =
            (chrono::Datelike::year(&r), chrono::Datelike::month(&r), chrono::Datelike::day(&r));
        Date { year, month, day }
    }

    /// The day before this one.
    ///
    /// Calls `chrono::NaiveDate::pred_opt`, which gives nothing only for the very first day.
    #[verifier::external_body]
    pub(crate) fn pred_opt(self) -> (r: Option<Date>)
        requires
            self.valid(),
        ensures
            r is None <==> self.number() == day_number(MIN_YEAR as int, 1, 1),
            r matches Some(p) ==> p.valid() && p.number() == self.number() - 1,
    {
        let d = chrono::NaiveDate::from_ymd_opt(self.year, self.month, self.day).unwrap();
        let r = d.pred_opt()?;
        let (year, month, day) =
            (chrono::Datelike::year(&r), chrono::Datelike::month(&r), chrono::Datelike::day(&r));
        Some(Date { year, month, day })
    }

    /// The day after this one.
    ///
    /// Calls `chrono::NaiveDate::succ_opt`, which gives nothing only for the very last day.
    #[verifier::external_body]
    pub(crate) fn succ_opt(self) -> (r: Option<Date>)
        requires
            self.valid(),
        ensures
            r is None <==> self.number() == day_number(MAX_YEAR as int, 12, 31),
            r matches Some(n) ==> n.valid() && n.number() == self.number() + 1,
    {
        let d = chrono::NaiveDate::from_ymd_opt(self.year, self.month, self.day).unwrap();
        let r = d.succ_opt()?;
        let (year, month, day) =
            (chrono::Datelike::year(&r), chrono::Datelike::month(&r), chrono::Datelike::day(&r));
        Some(Date { year, month, day })
    }

    /// Whether this day is earlier than `other`.
    pub fn is_before(self, other: Date) -> (r: bool)
        ensures
            r == earlier(self, other),
    {
        self.year < other.year || (self.year == other.year && (self.month < other.month || (
        self.month == other.month && self.day < other.day)))
    }
}

impl DateTime {
    pub open spec fn valid(self) -> bool {
        self.date.valid() && self.hour < 24 && self.minute < 60 && self.second < 60
    }
}

impl DateRange {
    pub open spec fn valid(self) -> bool {
        self.start.valid() && self.end.valid() && !earlier(self.end, self.start)
    }

    /// The span from `start` to `end`, unless `end` is the earlier of the two.
    pub fn new(start: Date, end: Date) -> (r: Option<DateRange>)
        ensures
            r == (if earlier(end, start) {
                None
            } else {
                Some(DateRange { start, end })
            }),
    {
        if end.is_before(start) {
            None
        } else {
            Some(DateRange { start, end })
        }
    }
}

/// A multiple of `d` is where the quotient by `d` steps up.
proof fn lemma_quotient_steps(y: int, d: int)
    requires
        d > 1,
    ensures
        y / d - (y - 1) / d == (if y % d == 0 {
            1int
        } else {
            0int
        }),
{
    let q = y / d;
    let r = y % d;
    vstd::arithmetic::div_mod::lemma_fundamental_div_mod(y, d);
    vstd::arithmetic::div_mod::lemma_mod_bound(y, d);
    if r == 0 {
        assert(y - 1 == d * (q - 1) + (d - 1)) by (nonlinear_arith)
            requires
                y == d * q,
        ;
        vstd::arithmetic::div_mod::lemma_fundamental_div_mod_converse(y - 1, d, q - 1, d - 1);
    } else {
        vstd::arithmetic::div_mod::lemma_fundamental_div_mod_converse(y - 1, d, q, r - 1);
    }
}

proof fn lemma_year_start(year: int)
    ensures
        day_number(year + 1, 1, 1) == day_number(year, 12, 31) + 1,
{
    lemma_quotient_steps(year, 4);
    lemma_quotient_steps(year, 100);
    lemma_quotient_steps(year, 400);
    vstd::arithmetic::div_mod::lemma_fundamental_div_mod(year, 400);
    vstd::arithmetic::div_mod::lemma_fundamental_div_mod(year, 100);
    let leap: int = if is_leap(year) {
        1
    } else {
        0
    };
    assert(year / 4 - (year - 1) / 4 - (year / 100 - (year - 1) / 100) + (year / 400 - (year - 1)
        / 400) == leap) by {
        if year % 400 == 0 {
            assert(year == 100 * (4 * (year / 400)));
            vstd::arithmetic::div_mod::lemma_fundamental_div_mod_converse(
                year,
                100,
                4 * (year / 400),
                0,
            );
        }
        if year % 100 == 0 {
            assert(year == 4 * (25 * (year / 100)));
            vstd::arithmetic::div_mod::lemma_fundamental_div_mod_converse(
                year,
                4,
                25 * (year / 100),
                0,
            );
        }
    }
}

proof fn lemma_years_grow(a: int, b: int)
    requires
        a < b,
    ensures
        day_number(a, 12, 31) < day_number(b, 1, 1),
    decreases b - a,
{
    lemma_year_start(a);
    if a + 1 < b {
        lemma_years_grow(a + 1, b);
    }
}

/// Days are numbered in calendar order: an earlier day has a smaller number, and two days
/// with the same number are the same day.
pub proof fn law_numbers_follow_the_calendar(a: Date, b: Date)
    requires
        a.valid(),
        b.valid(),
    ensures
        earlier(a, b) <==> a.number() < b.number(),
        a.number() == b.number() ==> a == b,
{
    if a.year < b.year {
        lemma_years_grow(a.year as int, b.year as int);
    } else if b.year < a.year {
        lemma_years_grow(b.year as int, a.year as int);
    }
}

fn days_before(leap: bool, month: u32) -> (r: i64)
    requires
        1 <= month <= 12,
    ensures
        forall|year: int|
            is_leap(year) == leap ==> r == #[trigger] days_before_month(year, month as int),
        0 <= r <= 335,
{
    let past_february: i64 = if leap && month > 2 {
        1
    } else {
        0
    };
    let days: i64 = match month {
        1 => 0,
        2 => 31,
        3 => 59,
        4 => 90,
        5 => 120,
        6 => 151,
        7 => 181,
        8 => 212,
        9 => 243,
        10 => 273,
        11 => 304,
        _ => 334,
    };
    days + past_february
}

impl Date {
    /// The running number of the day.
    pub fn day_count(self) -> (r: i64)
        requires
            self.valid(),
        ensures
            r == self.number(),
    {
        let shifted: i64 = self.year as i64 - 1 + 400_000;
        let leap = {
            let year: i64 = self.year as i64 + 400_000;
            year % 4 == 0 && (year % 100 != 0 || year % 400 == 0)
        };
        proof {
            let y = self.year - 1;
            assert(shifted as int / 4 == y / 4 + 100_000);
            assert(shifted as int / 100 == y / 100 + 4_000);
            assert(shifted as int / 400 == y / 400 + 1_000);
            assert(leap == is_leap(self.year as int));
        }
        let years: i64 = 365 * shifted + shifted / 4 - shifted / 100 + shifted / 400;
        years - 1_000 * 146_097 + days_before(leap, self.month) + self.day as i64
    }
}

/// The number of the last day of `month` in `year`.
pub(crate) fn last_day_of_month(year: i32, month: u32) -> (r: u32)
    requires
        MIN_YEAR <= year <= MAX_YEAR,
        1 <= month <= 12,
        !(year == MAX_YEAR && month == 12),
    ensures
        r == month_length(year as int, month as int),
{
    let (ny, nm): (i32, u32) = if month == 12 {
        (year + 1, 1)
    } else {
        (year, month + 1)
    };
    let next = Date::from_ymd_opt(ny, nm, 1).unwrap();
    proof {
        lemma_year_start(year as int);
        let first = Date { year: MIN_YEAR, month: 1, day: 1 };
        law_numbers_follow_the_calendar(first, next);
    }
    let last = next.pred_opt().unwrap();
    proof {
        let end = Date {
            year,
            month,
            day: month_length(year as int, month as int) as u32,
        };
        law_numbers_follow_the_calendar(last, end);
    }
    last.day
}

// --- names and labels ---

/// `Jan` to `Dec`.
pub open spec fn month_short(month: int) -> Seq<char> {
    if month == 1 {
        "Jan"@
    } else if month == 2 {
        "Feb"@
    } else if month == 3 {
        "Mar"@
    } else if month == 4 {
        "Apr"@
    } else if month == 5 {
        "May"@
    } else if month == 6 {
        "Jun"@
    } else if month == 7 {
        "Jul"@
    } else if month == 8 {
        "Aug"@
    } else if month == 9 {
        "Sep"@
    } else if month == 10 {
        "Oct"@
    } else if month == 11 {
        "Nov"@
    } else {
        "Dec"@
    }
}

/// `January` to `December`.
pub open spec fn month_long(month: int) -> Seq<char> {
    if month == 1 {
        "January"@
    } else if month == 2 {
        "February"@
    } else if month == 3 {
        "March"@
    } else if month == 4 {
        "April"@
    } else if month == 5 {
        "May"@
    } else if month == 6 {
        "June"@
    } else if month == 7 {
        "July"@
    } else if month == 8 {
        "August"@
    } else if month == 9 {
        "September"@
    } else if month == 10 {
        "October"@
    } else if month == 11 {
        "November"@
    } else {
        "December"@
    }
}

/// The name of the weekday of the day numbered `number`; day 1 is a Monday.
pub open spec fn weekday_long(number: int) -> Seq<char> {
    let w = number % 7;
    if w == 1 {
        "Monday"@
    } else if w == 2 {
        "Tuesday"@
    } else if w == 3 {
        "Wednesday"@
    } else if w == 4 {
        "Thursday"@
    } else if w == 5 {
        "Friday"@
    } else if w == 6 {
        "Saturday"@
    } else {
        "Sunday"@
    }
}

/// A year in at least four digits, with a sign outside the years 0 to 9999.
pub open spec fn year_text(year: int) -> Seq<char> {
    if 0 <= year <= 9999 {
        text::zero_filled(text::digits(year as nat), 4)
    } else if year < 0 {
        seq!['-'] + text::zero_filled(text::digits((-year) as nat), 4)
    } else {
        seq!['+'] + text::zero_filled(text::digits(year as nat), 4)
    }
}

/// Calls `chrono::NaiveDate::format` with `%b`: the month's English name in three letters.
#[verifier::external_body]
pub(crate) fn short_month(d: Date) -> (r: String)
    requires
        d.valid(),
    ensures
        r@ == month_short(d.month as int),
{
    chrono::NaiveDate::from_ymd_opt(d.year, d.month, d.day).unwrap().format("%b").to_string()
}

/// Calls `chrono::NaiveDate::format` with `%B`: the month's English name.
#[verifier::external_body]
pub(crate) fn long_month(d: Date) -> (r: String)
    requires
        d.valid(),
    ensures
        r@ == month_long(d.month as int),
{
    chrono::NaiveDate::from_ymd_opt(d.year, d.month, d.day).unwrap().format("%B").to_string()
}

/// Calls `chrono::NaiveDate::format` with `%A`: the weekday's English name.
#[verifier::external_body]
pub(crate) fn long_weekday(d: Date) -> (r: String)
    requires
        d.valid(),
    ensures
        r@ == weekday_long(d.number()),
{
    chrono::NaiveDate::from_ymd_opt(d.year, d.month, d.day).unwrap().format("%A").to_string()
}

/// Calls `chrono::NaiveDate::format` with `%B %Y`: the month's English name, a space and the
/// year.
#[verifier::external_body]
pub(crate) fn month_and_year(d: Date) -> (r: String)
    requires
        d.valid(),
    ensures
        r@ == month_long(d.month as int) + " "@ + year_text(d.year as int),
{
    chrono::NaiveDate::from_ymd_opt(d.year, d.month, d.day).unwrap().format("%B %Y").to_string()
}

/// Year, month and day run together: `20260825`.
pub open spec fn day_stamp(d: Date) -> Seq<char> {
    year_text(d.year as int) + text::padded(d.month as int, 2) + text::padded(d.day as int, 2)
}

/// Date and time run together: `20260825_140509`.
pub open spec fn time_stamp(t: DateTime) -> Seq<char> {
    day_stamp(t.date) + "_"@ + text::padded(t.hour as int, 2) + text::padded(t.minute as int, 2) + text::padded(
        t.second as int,
        2,
    )
}

/// Calls `chrono::NaiveDate::format` with `%Y%m%d`.
#[verifier::external_body]
pub(crate) fn format_day_stamp(d: Date) -> (r: String)
    requires
        d.valid(),
    ensures
        r@ == day_stamp(d),
{
    chrono::NaiveDate::from_ymd_opt(d.year, d.month, d.day).unwrap().format("%Y%m%d").to_string()
}

/// Calls `chrono::NaiveDateTime::format` with `%Y%m%d_%H%M%S`.
#[verifier::external_body]
pub(crate) fn format_time_stamp(t: DateTime) -> (r: String)
    requires
        t.valid(),
    ensures
        r@ == time_stamp(t),
{
    let d = chrono::NaiveDate::from_ymd_opt(t.date.year, t.date.month, t.date.day).unwrap();
    d.and_hms_opt(t.hour, t.minute, t.second).unwrap().format("%Y%m%d_%H%M%S").to_string()
}

/// Date and time to the minute: `2026-08-25 14:05`.
pub open spec fn minute_text(t: DateTime) -> Seq<char> {
    year_text(t.date.year as int) + "-"@ + text::padded(t.date.month as int, 2) + "-"@ + text::padded(
        t.date.day as int,
        2,
    ) + " "@ + text::padded(t.hour as int, 2) + ":"@ + text::padded(t.minute as int, 2)
}

/// Calls `chrono::NaiveDateTime::format` with `%Y-%m-%d %H:%M`.
#[verifier::external_body]
pub(crate) fn format_minute(t: DateTime) -> (r: String)
    requires
        t.valid(),
    ensures
        r@ == minute_text(t),
{
    let d = chrono::NaiveDate::from_ymd_opt(t.date.year, t.date.month, t.date.day).unwrap();
    d.and_hms_opt(t.hour, t.minute, t.second).unwrap().format("%Y-%m-%d %H:%M").to_string()
}

/// `17 Aug`.
pub open spec fn day_month_text(d: Date) -> Seq<char> {
    text::digits(d.day as nat) + " "@ + month_short(d.month as int)
}

/// `17 Aug`: the day without a leading zero, and the short month.
pub fn day_month(d: Date) -> (r: String)
    requires
        d.valid(),
    ensures
        r@ == day_month_text(d),
{
    let mut s = String::new();
    text::push_decimal(&mut s, d.day as i64);
    text::push_text(&mut s, " ");
    text::push_text(&mut s, short_month(d).as_str());
    assert(s@ =~= day_month_text(d));
    s
}

/// `2026-08-25`.
pub open spec fn sql_text(d: Date) -> Seq<char> {
    text::padded(d.year as int, 4) + "-"@ + text::padded(d.month as int, 2) + "-"@ + text::padded(d.day as int, 2)
}

/// `2026-08-25`: year, month and day in four, two and two digits.
pub fn date_sql(d: Date) -> (r: String)
    ensures
        r@ == sql_text(d),
{
    let mut s = String::new();
    text::push_padded(&mut s, d.year as i64, 4);
    text::push_text(&mut s, "-");
    text::push_padded(&mut s, d.month as i64, 2);
    text::push_text(&mut s, "-");
    text::push_padded(&mut s, d.day as i64, 2);
    assert(s@ =~= sql_text(d));
    s
}

// --- laws ---

/// The months follow each other without a gap: where one ends the next begins, and the year
/// after the last of December begins with the first of January.
pub proof fn law_months_follow_each_other(year: int, month: int)
    requires
        1 <= month <= 12,
    ensures
        month < 12 ==> day_number(year, month + 1, 1) == day_number(
            year,
            month,
            month_length(year, month),
        ) + 1,
        month == 12 ==> day_number(year + 1, 1, 1) == day_number(year, 12, 31) + 1,
        month_length(year, 12) == 31,
{
    lemma_year_start(year);
}

/// The weekdays follow each other and come again after seven days.
pub proof fn law_weeks_have_seven_days(number: int)
    ensures
        weekday_long(number + 7) == weekday_long(number),
        number % 7 == 1 ==> weekday_long(number) == "Monday"@ && weekday_long(number + 6)
            == "Sunday"@,
{
}

proof fn lemma_two_digits(n: int)
    requires
        0 <= n <= 99,
    ensures
        text::padded(n, 2) == seq![text::digit(n / 10), text::digit(n % 10)],
{
    reveal_with_fuel(text::digits, 3);
    let wanted = seq![text::digit(n / 10), text::digit(n % 10)];
    if n < 10 {
        assert(text::padded(n, 2) =~= wanted);
    } else {
        assert(text::digits(n as nat) =~= wanted);
        assert(text::padded(n, 2) =~= wanted);
    }
}

proof fn lemma_four_digits(n: int)
    requires
        0 <= n <= 9999,
    ensures
        text::padded(n, 4) == seq![
            text::digit(n / 1000),
            text::digit(n / 100 % 10),
            text::digit(n / 10 % 10),
            text::digit(n % 10),
        ],
{
    reveal_with_fuel(text::digits, 5);
    let wanted = seq![
        text::digit(n / 1000),
        text::digit(n / 100 % 10),
        text::digit(n / 10 % 10),
        text::digit(n % 10),
    ];
    let m = n as nat;
    if n >= 1000 {
        assert(m / 10 / 10 / 10 == m / 1000 && m / 10 / 10 == m / 100);
        assert(text::digits(m) =~= wanted);
    } else if n >= 100 {
        assert(m / 10 / 10 == m / 100);
        assert(text::digits(m) =~= wanted.skip(1));
    } else if n >= 10 {
        assert(text::digits(m) =~= wanted.skip(2));
    }
    assert(text::padded(n, 4) =~= wanted);
}

/// A day of the years 0 to 9999 is written in ten characters: four digits of the year, two of
/// the month and two of the day, with a hyphen between them.
pub proof fn law_days_are_written_in_ten_characters(d: Date)
    requires
        d.valid(),
        0 <= d.year <= 9999,
    ensures
        sql_text(d) == seq![
            text::digit(d.year as int / 1000),
            text::digit(d.year as int / 100 % 10),
            text::digit(d.year as int / 10 % 10),
            text::digit(d.year as int % 10),
            '-',
            text::digit(d.month as int / 10),
            text::digit(d.month as int % 10),
            '-',
            text::digit(d.day as int / 10),
            text::digit(d.day as int % 10),
        ],
{
    reveal_strlit("-");
    lemma_four_digits(d.year as int);
    lemma_two_digits(d.month as int);
    lemma_two_digits(d.day as int);
    assert("-"@ =~= seq!['-']);
    assert(sql_text(d) =~= seq![
        text::digit(d.year as int / 1000),
        text::digit(d.year as int / 100 % 10),
        text::digit(d.year as int / 10 % 10),
        text::digit(d.year as int % 10),
        '-',
        text::digit(d.month as int / 10),
        text::digit(d.month as int % 10),
        '-',
        text::digit(d.day as int / 10),
        text::digit(d.day as int % 10),
    ]);
}

proof fn lemma_same_digit(a: int, b: int)
    requires
        0 <= a <= 9,
        0 <= b <= 9,
        text::digit(a) == text::digit(b),
    ensures
        a == b,
{
}

proof fn lemma_digits_make_the_number(n: int)
    requires
        0 <= n <= 9999,
    ensures
        n == 1000 * (n / 1000) + 100 * (n / 100 % 10) + 10 * (n / 10 % 10) + n % 10,
        0 <= n / 1000 <= 9,
        0 <= n / 100 % 10 <= 9,
        0 <= n / 10 % 10 <= 9,
        0 <= n % 10 <= 9,
{
}

/// Different days of these years are written differently.
pub proof fn law_different_days_are_written_differently(a: Date, b: Date)
    requires
        a.valid(),
        b.valid(),
        0 <= a.year <= 9999,
        0 <= b.year <= 9999,
        sql_text(a) == sql_text(b),
    ensures
        a == b,
{
    law_days_are_written_in_ten_characters(a);
    law_days_are_written_in_ten_characters(b);
    let (x, y) = (sql_text(a), sql_text(b));
    let (m, n) = (a.year as int, b.year as int);
    assert(m == n) by {
        lemma_digits_make_the_number(m);
        lemma_digits_make_the_number(n);
        assert(x[0] == y[0] && x[1] == y[1] && x[2] == y[2] && x[3] == y[3]);
        lemma_same_digit(m / 1000, n / 1000);
        lemma_same_digit(m / 100 % 10, n / 100 % 10);
        lemma_same_digit(m / 10 % 10, n / 10 % 10);
        lemma_same_digit(m % 10, n % 10);
    }
    assert(a.month == b.month) by {
        assert(x[5] == y[5] && x[6] == y[6]);
        lemma_same_digit(a.month as int / 10, b.month as int / 10);
        lemma_same_digit(a.month as int % 10, b.month as int % 10);
    }
    assert(a.day == b.day) by {
        assert(x[8] == y[8] && x[9] == y[9]);
        lemma_same_digit(a.day as int / 10, b.day as int / 10);
        lemma_same_digit(a.day as int % 10, b.day as int % 10);
    }
}

/// The short form of a day is the number of the day, a space and the short name of its month.
pub proof fn law_short_days_name_day_and_month(d: Date)
    requires
        d.valid(),
    ensures
        d.day < 10 ==> day_month_text(d) == seq![text::digit(d.day as int)] + " "@ + month_short(
            d.month as int,
        ),
        d.day >= 10 ==> day_month_text(d) == seq![
            text::digit(d.day as int / 10),
            text::digit(d.day as int % 10),
        ] + " "@ + month_short(d.month as int),
{
    reveal_with_fuel(text::digits, 3);
    if d.day >= 10 {
        assert(text::digits(d.day as nat) =~= seq![
            text::digit(d.day as int / 10),
            text::digit(d.day as int % 10),
        ]);
    }
}

/// A year is a leap year every four years, but not at the turn of a century unless it is the
/// fourth.
pub proof fn law_leap_years(n: int)
    ensures
        is_leap(400 * n),
        !is_leap(400 * n + 100) && !is_leap(400 * n + 200) && !is_leap(400 * n + 300),
        (4 * n) % 100 != 0 ==> is_leap(4 * n),
        !is_leap(4 * n + 1) && !is_leap(4 * n + 2) && !is_leap(4 * n + 3),
        is_leap(n) ==> month_length(n, 2) == 29,
        !is_leap(n) ==> month_length(n, 2) == 28,
{
}

/// A day exists from the first to the last of its month, a time from midnight to one second before
/// it, and a span where its end is not before its start.
pub proof fn law_dates_and_times_that_exist(
    year: i32,
    month: int,
    day: int,
    t: DateTime,
    r: DateRange,
)
    requires
        MIN_YEAR <= year <= MAX_YEAR,
        1 <= month <= 12,
    ensures
        day_exists(year as int, month, 1),
        day_exists(year as int, month, month_length(year as int, month)),
        !day_exists(year as int, month, 0),
        !day_exists(year as int, month, month_length(year as int, month) + 1),
        1 <= day <= month_length(year as int, month) ==> day_exists(year as int, month, day),
        !day_exists(year as int, 0, day) && !day_exists(year as int, 13, day),
        t.valid() <==> t.date.valid() && t.hour <= 23 && t.minute <= 59 && t.second <= 59,
        r.start.valid() && r.start == r.end ==> r.valid(),
        r.valid() ==> r.start.valid() && r.end.valid() && !earlier(r.end, r.start),
        r.start.valid() && r.end.valid() && earlier(r.start, r.end) ==> r.valid(),
{
}

/// The months have their English names, in short their first three letters.
pub proof fn law_months_have_their_names(month: int)
    ensures
        month_long(1) == "January"@ && month_short(1) == "Jan"@,
        month_long(2) == "February"@ && month_short(2) == "Feb"@,
        month_long(3) == "March"@ && month_short(3) == "Mar"@,
        month_long(4) == "April"@ && month_short(4) == "Apr"@,
        month_long(5) == "May"@ && month_short(5) == "May"@,
        month_long(6) == "June"@ && month_short(6) == "Jun"@,
        month_long(7) == "July"@ && month_short(7) == "Jul"@,
        month_long(8) == "August"@ && month_short(8) == "Aug"@,
        month_long(9) == "September"@ && month_short(9) == "Sep"@,
        month_long(10) == "October"@ && month_short(10) == "Oct"@,
        month_long(11) == "November"@ && month_short(11) == "Nov"@,
        month_long(12) == "December"@ && month_short(12) == "Dec"@,
        1 <= month <= 12 ==> month_short(month) =~= month_long(month).take(3),
{
    reveal_strlit("January");
    reveal_strlit("February");
    reveal_strlit("March");
    reveal_strlit("April");
    reveal_strlit("May");
    reveal_strlit("June");
    reveal_strlit("July");
    reveal_strlit("August");
    reveal_strlit("September");
    reveal_strlit("October");
    reveal_strlit("November");
    reveal_strlit("December");
    reveal_strlit("Jan");
    reveal_strlit("Feb");
    reveal_strlit("Mar");
    reveal_strlit("Apr");
    reveal_strlit("Jun");
    reveal_strlit("Jul");
    reveal_strlit("Aug");
    reveal_strlit("Sep");
    reveal_strlit("Oct");
    reveal_strlit("Nov");
    reveal_strlit("Dec");
}

/// Stamps run year, month and day together, then hour, minute and second behind an underscore; a
/// time to read parts the date by dashes and hour and minute by a colon.
pub proof fn law_stamps_run_from_year_to_second(t: DateTime)
    ensures
        day_stamp(t.date) == year_text(t.date.year as int) + text::padded(t.date.month as int, 2)
            + text::padded(t.date.day as int, 2),
        time_stamp(t) == day_stamp(t.date) + "_"@ + text::padded(t.hour as int, 2) + text::padded(
            t.minute as int,
            2,
        ) + text::padded(t.second as int, 2),
        minute_text(t) == year_text(t.date.year as int) + "-"@ + text::padded(
            t.date.month as int,
            2,
        ) + "-"@ + text::padded(t.date.day as int, 2) + " "@ + text::padded(t.hour as int, 2)
            + ":"@ + text::padded(t.minute as int, 2),
{
}

/// A year has four digits at least, and a sign where it is not between 0 and 9999.
pub proof fn law_years_have_four_digits(n: nat)
    ensures
        n <= 9999 ==> year_text(n as int) == text::zero_filled(text::digits(n), 4),
        n >= 10000 ==> year_text(n as int) == seq!['+'] + text::zero_filled(text::digits(n), 4),
        n > 0 ==> year_text(-n) == seq!['-'] + text::zero_filled(text::digits(n), 4),
{
}

} // verus!
