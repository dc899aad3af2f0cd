//! The Insights screen: which span of days is shown, and how its numbers read.
use vstd::prelude::*;

use crate::catalog::{RangeSummary, TypeRangeTotal};
use crate::dates::{self, Date, DateRange, MAX_YEAR, MIN_YEAR};
use crate::error::DbError;
use crate::text;

verus! {

/// The kind of span the toolbar has selected.
#[derive(Clone, Copy, Debug, PartialEq, Eq, Structural)]
pub enum RangeKind {
    Week,
    Month,
    Quarter,
    Year,
    Custom,
}

/// The string that stands for a kind in the settings file.
pub open spec fn kind_text(k: RangeKind) -> Seq<char> {
    match k {
        RangeKind::Week => "week"@,
        RangeKind::Month => "month"@,
        RangeKind::Quarter => "quarter"@,
        RangeKind::Year => "year"@,
        RangeKind::Custom => "custom"@,
    }
}

/// The kind a string stands for; one that stands for none falls back to `Week`.
pub open spec fn kind_of(s: Seq<char>) -> RangeKind {
    if s == "month"@ {
        RangeKind::Month
    } else if s == "quarter"@ {
        RangeKind::Quarter
    } else if s == "year"@ {
        RangeKind::Year
    } else if s == "custom"@ {
        RangeKind::Custom
    } else {
        RangeKind::Week
    }
}

/// The lower-case noun of a kind, for "vs previous ...".
pub open spec fn noun_of(k: RangeKind) -> Seq<char> {
    match k {
        RangeKind::Week => "week"@,
        RangeKind::Month => "month"@,
        RangeKind::Quarter => "quarter"@,
        RangeKind::Year => "year"@,
        RangeKind::Custom => "range"@,
    }
}

impl RangeKind {
    /// Every kind, in the order of the toolbar.
    pub fn all() -> (r: [RangeKind; 5])
        ensures
            r@ == seq![
                RangeKind::Week,
                RangeKind::Month,
                RangeKind::Quarter,
                RangeKind::Year,
                RangeKind::Custom,
            ],
    {
        [
            RangeKind::Week,
            RangeKind::Month,
            RangeKind::Quarter,
            RangeKind::Year,
            RangeKind::Custom,
        ]
    }

    /// The label in the toolbar.
    pub fn label(self) -> (r: &'static str)
        ensures
            r@ == (match self {
                RangeKind::Week => "Week"@,
                RangeKind::Month => "Month"@,
                RangeKind::Quarter => "Quarter"@,
                RangeKind::Year => "Year"@,
                RangeKind::Custom => "Custom"@,
            }),
    {
        match self {
            RangeKind::Week => "Week",
            RangeKind::Month => "Month",
            RangeKind::Quarter => "Quarter",
            RangeKind::Year => "Year",
            RangeKind::Custom => "Custom",
        }
    }

    /// The lower-case noun, for "vs previous ...".
    pub fn noun(self) -> (r: &'static str)
        ensures
            r@ == noun_of(self),
    {
        match self {
            RangeKind::Week => "week",
            RangeKind::Month => "month",
            RangeKind::Quarter => "quarter",
            RangeKind::Year => "year",
            RangeKind::Custom => "range",
        }
    }

    /// The string that stands for the kind in the settings file.
    pub fn as_str(self) -> (r: &'static str)
        ensures
            r@ == kind_text(self),
    {
        match self {
            RangeKind::Week => "week",
            RangeKind::Month => "month",
            RangeKind::Quarter => "quarter",
            RangeKind::Year => "year",
            RangeKind::Custom => "custom",
        }
    }

    /// The kind a string stands for. An unknown string falls back to `Week` rather than failing
    /// to load.
    pub fn from_str(s: &str) -> (r: RangeKind)
        ensures
            r == kind_of(s@),
    {
        if text::same_text(s, "month") {
            RangeKind::Month
        } else if text::same_text(s, "quarter") {
            RangeKind::Quarter
        } else if text::same_text(s, "year") {
            RangeKind::Year
        } else if text::same_text(s, "custom") {
            RangeKind::Custom
        } else {
            RangeKind::Week
        }
    }
}

/// Every kind is found again under the string that stands for it.
pub proof fn law_range_kind_round_trips(k: RangeKind)
    ensures
        kind_of(kind_text(k)) == k,
{
    reveal_strlit("week");
    reveal_strlit("month");
    reveal_strlit("quarter");
    reveal_strlit("year");
    reveal_strlit("custom");
    assert("week"@[0] != "year"@[0]);
    assert("month"@.len() == 5 && "quarter"@.len() == 7 && "custom"@.len() == 6);
    assert("week"@.len() == 4 && "year"@.len() == 4);
}

// --- the span ---

/// What has to be worked out to resolve the toolbar's selection.
#[derive(Debug)]
pub enum RangeRequest {
    WeekOf(Date),
    MonthOf(Date),
    QuarterOf(Date),
    YearOf(Date),
    /// Two texts to be read as dates.
    Parse { from: String, to: String },
}

/// The answer to a [`RangeRequest`].
#[derive(Clone, Copy, Debug)]
pub enum RangeReply {
    Span(DateRange),
    /// The dates that the texts were read as.
    Dates { from: Option<Date>, to: Option<Date> },
}

/// Whether `r` is what has to be worked out for a selection.
pub open spec fn selection_asks(
    kind: RangeKind,
    anchor: Date,
    custom_from: Seq<char>,
    custom_to: Seq<char>,
    r: RangeRequest,
) -> bool {
    match kind {
        RangeKind::Week => r == RangeRequest::WeekOf(anchor),
        RangeKind::Month => r == RangeRequest::MonthOf(anchor),
        RangeKind::Quarter => r == RangeRequest::QuarterOf(anchor),
        RangeKind::Year => r == RangeRequest::YearOf(anchor),
        RangeKind::Custom => r matches RangeRequest::Parse { from, to } && from@ == text::trimmed(
            custom_from,
        ) && to@ == text::trimmed(custom_to),
    }
}

/// What has to be worked out for a selection: the calendar period around the anchor, or the
/// dates in the two fields, which are read without the white space around them.
pub fn range_request(
    kind: RangeKind,
    anchor: Date,
    custom_from: &str,
    custom_to: &str,
) -> (r: RangeRequest)
    ensures
        selection_asks(kind, anchor, custom_from@, custom_to@, r),
        match kind {
            RangeKind::Week => r == RangeRequest::WeekOf(anchor),
            RangeKind::Month => r == RangeRequest::MonthOf(anchor),
            RangeKind::Quarter => r == RangeRequest::QuarterOf(anchor),
            RangeKind::Year => r == RangeRequest::YearOf(anchor),
            RangeKind::Custom => r matches RangeRequest::Parse { from, to } && from@
                == text::trimmed(custom_from@) && to@ == text::trimmed(custom_to@),
        },
{
    match kind {
        RangeKind::Week => RangeRequest::WeekOf(anchor),
        RangeKind::Month => RangeRequest::MonthOf(anchor),
        RangeKind::Quarter => RangeRequest::QuarterOf(anchor),
        RangeKind::Year => RangeRequest::YearOf(anchor),
        RangeKind::Custom => RangeRequest::Parse {
            from: text::trim(custom_from),
            to: text::trim(custom_to),
        },
    }
}

/// Whether `r` is what a selection resolves to.
pub open spec fn resolves_to(reply: RangeReply, r: Result<DateRange, String>) -> bool {
    match reply {
        RangeReply::Span(s) => r matches Ok(range) && range == s,
        RangeReply::Dates { from: None, to } => r matches Err(e) && e@
            == "from date must be YYYY-MM-DD"@,
        RangeReply::Dates { from: Some(_), to: None } => r matches Err(e) && e@
            == "to date must be YYYY-MM-DD"@,
        RangeReply::Dates { from: Some(a), to: Some(b) } => if dates::earlier(b, a) {
            r matches Err(e) && e@ == "from must not be after to"@
        } else {
            r matches Ok(range) && range == (DateRange { start: a, end: b })
        },
    }
}

/// Resolves the toolbar's selection to a span of days. A calendar period is always one; two
/// dates are one unless a field does not hold a date or the first is after the second.
pub fn resolve_range(reply: RangeReply) -> (r: Result<DateRange, String>)
    ensures
        resolves_to(reply, r),
        match reply {
            RangeReply::Span(s) => r == Ok::<DateRange, String>(s),
            RangeReply::Dates { from: None, to } => r matches Err(e) && e@
                == "from date must be YYYY-MM-DD"@,
            RangeReply::Dates { from: Some(_), to: None } => r matches Err(e) && e@
                == "to date must be YYYY-MM-DD"@,
            RangeReply::Dates { from: Some(a), to: Some(b) } => if dates::earlier(b, a) {
                r matches Err(e) && e@ == "from must not be after to"@
            } else {
                r == Ok::<DateRange, String>(DateRange { start: a, end: b })
            },
        },
{
    match reply {
        RangeReply::Span(s) => Ok(s),
        RangeReply::Dates { from, to } => match from {
            None => Err("from date must be YYYY-MM-DD".to_owned()),
            Some(a) => match to {
                None => Err("to date must be YYYY-MM-DD".to_owned()),
                Some(b) => match DateRange::new(a, b) {
                    Some(range) => Ok(range),
                    None => Err("from must not be after to".to_owned()),
                },
            },
        },
    }
}

// --- stepping ---

/// The month `months` after that of `d`, counted from year 0.
pub open spec fn month_index(d: Date, months: int) -> int {
    d.year * 12 + (d.month - 1) + months
}

/// Whether the calendar has the month with this number, and one after it.
pub open spec fn month_in_range(index: int) -> bool {
    MIN_YEAR * 12 <= index < MAX_YEAR * 12 + 11
}

/// `d` moved by `months` months: the day stays, or becomes the last of a shorter month.
pub open spec fn months_later(d: Date, months: int) -> Date {
    let index = month_index(d, months);
    let year = index / 12;
    let month = index % 12 + 1;
    let last = dates::month_length(year, month);
    Date {
        year: year as i32,
        month: month as u32,
        day: if (d.day as int) < last {
            d.day
        } else {
            last as u32
        },
    }
}

fn add_months_clamped(d: Date, months: i64) -> (r: Date)
    requires
        d.valid(),
        month_in_range(month_index(d, months as int)),
    ensures
        r == months_later(d, months as int),
        r.valid(),
{
    let total: i64 = d.year as i64 * 12 + (d.month as i64 - 1) + months;
    let shifted: i64 = total + 4_000_000 * 12;
    assert(shifted / 12 == total as int / 12 + 4_000_000 && shifted % 12 == total as int % 12);
    let year: i32 = (shifted / 12 - 4_000_000) as i32;
    let month: u32 = (shifted % 12 + 1) as u32;
    let last_day: u32 = dates::last_day_of_month(year, month);
    let day: u32 = if d.day < last_day {
        d.day
    } else {
        last_day
    };
    Date::from_ymd_opt(year, month, day).unwrap()
}

fn month_exists(d: Date, months: i128) -> (r: bool)
    requires
        d.valid(),
        -0x1000_0000_0000_0000_0000 <= months <= 0x1000_0000_0000_0000_0000,
    ensures
        r == month_in_range(month_index(d, months as int)),
{
    let index: i128 = d.year as i128 * 12 + (d.month as i128 - 1) + months;
    MIN_YEAR as i128 * 12 <= index && index < MAX_YEAR as i128 * 12 + 11
}

/// Whether `anchor` can be moved by `delta` units of `kind` without leaving the calendar.
pub open spec fn can_step(kind: RangeKind, anchor: Date, delta: int) -> bool {
    match kind {
        RangeKind::Week => dates::day_number(MIN_YEAR as int, 1, 1) <= anchor.number() + 7 * delta
            <= dates::day_number(MAX_YEAR as int, 12, 31),
        RangeKind::Month => month_in_range(month_index(anchor, delta)),
        RangeKind::Quarter => month_in_range(month_index(anchor, delta * 3)),
        RangeKind::Year => month_in_range(month_index(anchor, delta * 12)),
        RangeKind::Custom => true,
    }
}

/// Whether `r` is `anchor` moved by `delta` units of `kind`.
pub open spec fn is_stepped(kind: RangeKind, anchor: Date, delta: int, r: Date) -> bool {
    match kind {
        RangeKind::Week => r.number() == anchor.number() + 7 * delta,
        RangeKind::Month => r == months_later(anchor, delta),
        RangeKind::Quarter => r == months_later(anchor, delta * 3),
        RangeKind::Year => r == months_later(anchor, delta * 12),
        RangeKind::Custom => r == anchor,
    }
}

/// Moves `anchor` by `delta` units of `kind`. Months, quarters and years keep the day where the
/// month has it and take its last day otherwise; a custom span has no units and stays.
pub fn step_anchor(kind: RangeKind, anchor: Date, delta: i64) -> (r: Date)
    requires
        anchor.valid(),
        can_step(kind, anchor, delta as int),
    ensures
        is_stepped(kind, anchor, delta as int, r),
        r.valid(),
        match kind {
            RangeKind::Week => r.number() == anchor.number() + 7 * delta,
            RangeKind::Month => r == months_later(anchor, delta as int),
            RangeKind::Quarter => r == months_later(anchor, delta * 3),
            RangeKind::Year => r == months_later(anchor, delta * 12),
            RangeKind::Custom => r == anchor,
        },
{
    proof {
        let first = Date { year: MIN_YEAR, month: 1, day: 1 };
        let last = Date { year: MAX_YEAR, month: 12, day: 31 };
        dates::law_numbers_follow_the_calendar(first, anchor);
        dates::law_numbers_follow_the_calendar(anchor, last);
    }
    match kind {
        RangeKind::Week => anchor.plus_days(7 * delta),
        RangeKind::Month => add_months_clamped(anchor, delta),
        RangeKind::Quarter => add_months_clamped(anchor, delta * 3),
        RangeKind::Year => add_months_clamped(anchor, delta * 12),
        RangeKind::Custom => anchor,
    }
}

/// Stepping by months lands in the month aimed at and never past its end: no step spills over
/// into the month after.
pub proof fn law_month_steps_do_not_spill(d: Date, months: int)
    requires
        d.valid(),
        month_in_range(month_index(d, months)),
    ensures
        months_later(d, months).valid(),
        month_index(months_later(d, months), 0) == month_index(d, months),
        months_later(d, months).day <= d.day,
        d.day <= 28 ==> months_later(d, months).day == d.day,
{
}

/// A day that every month has comes back when a step is undone.
pub proof fn law_month_steps_are_undone(d: Date, months: int)
    requires
        d.valid(),
        d.day <= 28,
        month_in_range(month_index(d, months)),
        month_in_range(month_index(d, 0)),
    ensures
        months_later(months_later(d, months), -months) == d,
{
    law_month_steps_do_not_spill(d, months);
    law_month_steps_do_not_spill(months_later(d, months), -months);
}

// --- labels ---

/// The line under the total, and whether the total has grown.
pub open spec fn delta_of(total: int, previous: int, kind: RangeKind) -> (Seq<char>, bool) {
    let diff = total - previous;
    if diff > 0 {
        ("+"@ + text::decimal(diff) + " vs previous "@ + noun_of(kind), true)
    } else if diff < 0 {
        ("\u{2212}"@ + text::decimal(-diff) + " vs previous "@ + noun_of(kind), false)
    } else {
        ("same as previous "@ + noun_of(kind), false)
    }
}

/// The line under the total: `+5 vs previous month`, `−5 vs previous month` or `same as previous
/// month`; and whether the total has grown.
pub fn delta_line(total: i64, previous_total: i64, kind: RangeKind) -> (r: (String, bool))
    requires
        i64::MIN < total - previous_total <= i64::MAX,
    ensures
        (r.0@, r.1) == delta_of(total as int, previous_total as int, kind),
{
    let diff: i64 = total - previous_total;
    let mut s = String::new();
    if diff > 0 {
        text::push_text(&mut s, "+");
        text::push_decimal(&mut s, diff);
        text::push_text(&mut s, " vs previous ");
    } else if diff < 0 {
        text::push_text(&mut s, "\u{2212}");
        text::push_decimal(&mut s, -diff);
        text::push_text(&mut s, " vs previous ");
    } else {
        text::push_text(&mut s, "same as previous ");
    }
    text::push_text(&mut s, kind.noun());
    assert(s@ =~= delta_of(total as int, previous_total as int, kind).0);
    (s, diff > 0)
}

/// `31 Dec 2025`.
pub open spec fn day_month_year(d: Date) -> Seq<char> {
    dates::day_month_text(d) + " "@ + text::decimal(d.year as int)
}

/// The span in short: `1–31 Aug`, `1 Jul – 30 Sep` or `31 Dec 2025 – 5 Jan 2026`.
pub open spec fn resolved_text(r: DateRange) -> Seq<char> {
    if r.start.year != r.end.year {
        day_month_year(r.start) + " \u{2013} "@ + day_month_year(r.end)
    } else if r.start.month != r.end.month {
        dates::day_month_text(r.start) + " \u{2013} "@ + dates::day_month_text(r.end)
    } else {
        text::decimal(r.start.day as int) + "\u{2013}"@ + text::decimal(r.end.day as int) + " "@
            + dates::month_short(r.start.month as int)
    }
}

/// The span in short, with no more than is needed: the month once within a month, the years
/// only where they differ.
pub fn resolved_label(r: DateRange) -> (s: String)
    requires
        r.start.valid(),
        r.end.valid(),
    ensures
        s@ == resolved_text(r),
{
    let mut s = String::new();
    if r.start.year != r.end.year {
        text::push_text(&mut s, dates::day_month(r.start).as_str());
        text::push_text(&mut s, " ");
        text::push_decimal(&mut s, r.start.year as i64);
        text::push_text(&mut s, " \u{2013} ");
        text::push_text(&mut s, dates::day_month(r.end).as_str());
        text::push_text(&mut s, " ");
        text::push_decimal(&mut s, r.end.year as i64);
    } else if r.start.month != r.end.month {
        text::push_text(&mut s, dates::day_month(r.start).as_str());
        text::push_text(&mut s, " \u{2013} ");
        text::push_text(&mut s, dates::day_month(r.end).as_str());
    } else {
        text::push_decimal(&mut s, r.start.day as i64);
        text::push_text(&mut s, "\u{2013}");
        text::push_decimal(&mut s, r.end.day as i64);
        text::push_text(&mut s, " ");
        text::push_text(&mut s, dates::short_month(r.start).as_str());
    }
    assert(s@ =~= resolved_text(r));
    s
}

/// The period's name: `Week of 17 Aug`, `August 2026`, `Q3 2026` or `2026`.
pub open spec fn period_text(kind: RangeKind, r: DateRange) -> Seq<char> {
    let d = r.start;
    match kind {
        RangeKind::Week => "Week of "@ + dates::day_month_text(d),
        RangeKind::Month => dates::month_long(d.month as int) + " "@ + dates::year_text(
            d.year as int,
        ),
        RangeKind::Quarter => "Q"@ + text::decimal((d.month - 1) / 3 + 1) + " "@ + text::decimal(
            d.year as int,
        ),
        RangeKind::Year => text::decimal(d.year as int),
        RangeKind::Custom => Seq::empty(),
    }
}

/// The period's name. A custom span has none: its two dates are shown instead.
pub fn period_label(kind: RangeKind, range: DateRange) -> (s: String)
    requires
        range.start.valid(),
    ensures
        s@ == period_text(kind, range),
{
    let d = range.start;
    let mut s = String::new();
    match kind {
        RangeKind::Week => {
            text::push_text(&mut s, "Week of ");
            text::push_text(&mut s, dates::day_month(d).as_str());
        },
        RangeKind::Month => {
            text::push_text(&mut s, dates::month_and_year(d).as_str());
        },
        RangeKind::Quarter => {
            text::push_text(&mut s, "Q");
            text::push_decimal(&mut s, ((d.month - 1) / 3 + 1) as i64);
            text::push_text(&mut s, " ");
            text::push_decimal(&mut s, d.year as i64);
        },
        RangeKind::Year => {
            text::push_decimal(&mut s, d.year as i64);
        },
        RangeKind::Custom => {},
    }
    assert(s@ =~= period_text(kind, range));
    s
}

// --- the summary ---

/// One cell of the summary strip.
#[derive(Debug)]
pub struct SummaryCell {
    pub label: &'static str,
    pub value: String,
    /// The line under the value; empty for none.
    pub sub: String,
    /// The line under the value tells good news.
    pub positive: bool,
}

impl SummaryCell {
    pub open spec fn reads(self, label: Seq<char>, value: Seq<char>, sub: Seq<char>, positive: bool) -> bool {
        self.label@ == label && self.value@ == value && self.sub@ == sub && self.positive
            == positive
    }
}

fn number(n: i64) -> (r: String)
    ensures
        r@ == text::decimal(n as int),
{
    let mut s = String::new();
    text::push_decimal(&mut s, n);
    s
}

/// The four cells of the summary strip. `per_day` is the average per active day as text, or
/// `None` where no day was active.
pub fn summary_cells(
    summary: &RangeSummary,
    kind: RangeKind,
    per_day: Option<String>,
    active_type_count: i64,
) -> (r: Vec<SummaryCell>)
    requires
        i64::MIN < summary.total - summary.previous_total <= i64::MAX,
        summary.busiest_day matches Some(b) ==> b.0.valid(),
    ensures
        are_cells(r@, *summary, kind, per_day, active_type_count),
        r@.len() == 4,
        ({
            let delta = delta_of(summary.total as int, summary.previous_total as int, kind);
            r@[0].reads("TOTAL"@, text::decimal(summary.total as int), delta.0, delta.1)
        }),
        r@[1].reads(
            "PER ACTIVE DAY"@,
            match per_day {
                Some(s) => s@,
                None => "\u{2014}"@,
            },
            Seq::empty(),
            false,
        ),
        match summary.busiest_day {
            Some((date, count)) => r@[2].reads(
                "BUSIEST DAY"@,
                text::decimal(count as int),
                dates::day_month_text(date),
                false,
            ),
            None => r@[2].reads("BUSIEST DAY"@, "\u{2014}"@, Seq::empty(), false),
        },
        r@[3].reads(
            "TYPES USED"@,
            text::decimal(summary.distinct_types as int),
            "of "@ + text::decimal(active_type_count as int) + " active"@,
            false,
        ),
{
    let (delta, grown) = delta_line(summary.total, summary.previous_total, kind);
    let (busiest, busiest_sub) = match summary.busiest_day {
        Some((date, count)) => (number(count), dates::day_month(date)),
        None => ("\u{2014}".to_owned(), String::new()),
    };
    let average = match per_day {
        Some(s) => s,
        None => "\u{2014}".to_owned(),
    };
    let mut of_active = String::new();
    text::push_text(&mut of_active, "of ");
    text::push_decimal(&mut of_active, active_type_count);
    text::push_text(&mut of_active, " active");
    assert(of_active@ =~= "of "@ + text::decimal(active_type_count as int) + " active"@);
    let mut r: Vec<SummaryCell> = Vec::new();
    r.push(
        SummaryCell { label: "TOTAL", value: number(summary.total), sub: delta, positive: grown },
    );
    r.push(
        SummaryCell { label: "PER ACTIVE DAY", value: average, sub: String::new(), positive: false },
    );
    r.push(
        SummaryCell { label: "BUSIEST DAY", value: busiest, sub: busiest_sub, positive: false },
    );
    r.push(
        SummaryCell {
            label: "TYPES USED",
            value: number(summary.distinct_types),
            sub: of_active,
            positive: false,
        },
    );
    r
}

/// The caption of the category list: `share of 42`.
pub fn share_caption(total: i64) -> (r: String)
    ensures
        r@ == "share of "@ + text::decimal(total as int),
{
    let mut s = "share of ".to_owned();
    text::push_decimal(&mut s, total);
    s
}

/// The name of a category list entry: `SUPPORT · Ticket`.
pub fn row_label(row: &TypeRangeTotal) -> (r: String)
    ensures
        r@ == text::raised(row.category_name@) + " \u{b7} "@ + row.task_name@,
{
    let mut s = text::raise(row.category_name.as_str());
    text::push_text(&mut s, " \u{b7} ");
    text::push_text(&mut s, row.task_name.as_str());
    assert(s@ =~= text::raised(row.category_name@) + " \u{b7} "@ + row.task_name@);
    s
}

// --- exporting ---

/// A row of the exported file.
#[derive(Debug)]
pub struct InsightRow {
    pub category: String,
    pub task_type: String,
    pub count: i64,
}

/// The types that were tallied at all.
pub open spec fn tallied(ranked: Seq<TypeRangeTotal>) -> Seq<TypeRangeTotal> {
    ranked.filter(|r: TypeRangeTotal| r.total > 0)
}

/// The rows to export: the types that were tallied at all, in order.
pub fn export_rows(ranked: &Vec<TypeRangeTotal>) -> (r: Vec<InsightRow>)
    ensures
        r@.len() == tallied(ranked@).len(),
        forall|i: int|
            0 <= i < r@.len() ==> #[trigger] r@[i] == (InsightRow {
                category: tallied(ranked@)[i].category_name,
                task_type: tallied(ranked@)[i].task_name,
                count: tallied(ranked@)[i].total,
            }),
{
    let mut r: Vec<InsightRow> = Vec::new();
    let ghost keep = |t: TypeRangeTotal| t.total > 0;
    assert(ranked@.take(0).filter(keep).len() == 0) by {
        reveal(Seq::filter);
    }
    for i in 0..ranked.len()
        invariant
            keep == (|t: TypeRangeTotal| t.total > 0),
            r@.len() == ranked@.take(i as int).filter(keep).len(),
            forall|k: int|
                0 <= k < r@.len() ==> #[trigger] r@[k] == (InsightRow {
                    category: ranked@.take(i as int).filter(keep)[k].category_name,
                    task_type: ranked@.take(i as int).filter(keep)[k].task_name,
                    count: ranked@.take(i as int).filter(keep)[k].total,
                }),
    {
        proof {
            reveal(Seq::filter);
            assert(ranked@.take(i + 1).drop_last() =~= ranked@.take(i as int));
        }
        if ranked[i].total > 0 {
            r.push(
                InsightRow {
                    category: ranked[i].category_name.clone(),
                    task_type: ranked[i].task_name.clone(),
                    count: ranked[i].total,
                },
            );
        }
    }
    assert(ranked@.take(ranked@.len() as int) =~= ranked@);
    r
}

/// The name proposed for the exported file: `simpletally_2026-08-17_2026-08-23.csv`.
pub fn export_name(range: DateRange) -> (r: String)
    ensures
        r@ == "simpletally_"@ + dates::sql_text(range.start) + "_"@ + dates::sql_text(range.end)
            + ".csv"@,
{
    let mut s = String::new();
    text::push_text(&mut s, "simpletally_");
    text::push_text(&mut s, dates::date_sql(range.start).as_str());
    text::push_text(&mut s, "_");
    text::push_text(&mut s, dates::date_sql(range.end).as_str());
    text::push_text(&mut s, ".csv");
    assert(s@ =~= "simpletally_"@ + dates::sql_text(range.start) + "_"@ + dates::sql_text(range.end)
        + ".csv"@);
    s
}

// --- the screen's state ---

/// The screen's query results.
#[derive(Debug)]
pub struct InsightsView {
    pub range: DateRange,
    pub summary: RangeSummary,
    pub daily: Vec<(Date, i64)>,
    pub ranked: Vec<TypeRangeTotal>,
    pub active_type_count: i64,
}

/// The screen's state.
#[derive(Debug)]
pub struct InsightsState {
    pub kind: RangeKind,
    pub anchor: Date,
    pub custom_from: String,
    pub custom_to: String,
    pub range_error: Option<String>,
    /// What came of the last export.
    pub export_status: Option<String>,
    pub dirty: bool,
    pub view: Option<InsightsView>,
    pub error: Option<String>,
}

/// The screen's state as contracts speak of it.
#[verifier::ext_equal]
pub struct InsightsData {
    pub kind: RangeKind,
    pub anchor: Date,
    pub custom_from: Seq<char>,
    pub custom_to: Seq<char>,
    pub range_error: Option<Seq<char>>,
    pub export_status: Option<Seq<char>>,
    pub dirty: bool,
    pub view: Option<InsightsView>,
    pub error: Option<Seq<char>>,
}

impl View for InsightsState {
    type V = InsightsData;

    open spec fn view(&self) -> InsightsData {
        InsightsData {
            kind: self.kind,
            anchor: self.anchor,
            custom_from: self.custom_from@,
            custom_to: self.custom_to@,
            range_error: text::optional(self.range_error),
            export_status: text::optional(self.export_status),
            dirty: self.dirty,
            view: self.view,
            error: text::optional(self.error),
        }
    }
}

/// What happened in the toolbar during one frame.
#[derive(Debug)]
pub struct ToolbarFrame {
    pub kind: RangeKind,
    pub from: String,
    pub to: String,
}

impl InsightsData {
    /// The screen of a first launch on `today`.
    pub open spec fn fresh(today: Date) -> InsightsData {
        InsightsData {
            kind: RangeKind::Week,
            anchor: today,
            custom_from: dates::sql_text(today),
            custom_to: dates::sql_text(today),
            range_error: None,
            export_status: None,
            dirty: true,
            view: None,
            error: None,
        }
    }

    /// The results are out of date, and the export line speaks of the old ones.
    pub open spec fn stale(self) -> InsightsData {
        InsightsData { dirty: true, export_status: None, ..self }
    }

    /// The screen after the kind and the date fields of one frame.
    pub open spec fn retuned(self, f: ToolbarFrame) -> InsightsData {
        let s = if f.kind != self.kind {
            (InsightsData { kind: f.kind, ..self }).stale()
        } else {
            self
        };
        if f.from@ != self.custom_from || f.to@ != self.custom_to {
            (InsightsData { custom_from: f.from@, custom_to: f.to@, ..s }).stale()
        } else {
            s
        }
    }
}

impl InsightsState {
    /// The screen of a first launch on `today`.
    pub fn new(today: Date) -> (r: InsightsState)
        ensures
            r@ == InsightsData::fresh(today),
    {
        InsightsState {
            kind: RangeKind::Week,
            anchor: today,
            custom_from: dates::date_sql(today),
            custom_to: dates::date_sql(today),
            range_error: None,
            export_status: None,
            dirty: true,
            view: None,
            error: None,
        }
    }

    /// The query results are out of date.
    pub fn mark_dirty(&mut self)
        ensures
            final(self)@ == old(self)@.stale(),
    {
        self.dirty = true;
        self.export_status = None;
    }

    /// Starts over for a different database.
    pub fn reset_for_new_database(&mut self)
        ensures
            final(self)@ == (InsightsData {
                range_error: None,
                error: None,
                ..old(self)@.stale()
            }),
    {
        self.range_error = None;
        self.error = None;
        self.mark_dirty();
    }

    /// Whether the query results have to be fetched anew.
    pub fn needs_rebuild(&self) -> (r: bool)
        ensures
            r == (self.dirty || self.view is None),
    {
        self.dirty || self.view.is_none()
    }

    /// What has to be worked out to resolve the selected span.
    pub fn request(&self) -> (r: RangeRequest)
        ensures
            selection_asks(self.kind, self.anchor, self.custom_from@, self.custom_to@, r),
            match self.kind {
                RangeKind::Week => r == RangeRequest::WeekOf(self.anchor),
                RangeKind::Month => r == RangeRequest::MonthOf(self.anchor),
                RangeKind::Quarter => r == RangeRequest::QuarterOf(self.anchor),
                RangeKind::Year => r == RangeRequest::YearOf(self.anchor),
                RangeKind::Custom => r matches RangeRequest::Parse { from, to } && from@
                    == text::trimmed(self.custom_from@) && to@ == text::trimmed(self.custom_to@),
            },
    {
        range_request(self.kind, self.anchor, self.custom_from.as_str(), self.custom_to.as_str())
    }

    /// Takes the resolved span; it is returned to be queried. A selection that is no span shows
    /// why and leaves the last results in place: the screen is never blanked.
    pub fn accept_range(&mut self, resolved: Result<DateRange, String>) -> (r: Option<DateRange>)
        ensures
            final(self)@ == old(self)@.ranged(resolved),
            r == (match resolved {
                Ok(range) => Some(range),
                Err(_) => None,
            }),
            final(self)@ == (InsightsData {
                dirty: false,
                range_error: match resolved {
                    Ok(_) => None,
                    Err(e) => Some(e@),
                },
                ..old(self)@
            }),
    {
        self.dirty = false;
        match resolved {
            Ok(range) => {
                self.range_error = None;
                Some(range)
            },
            Err(e) => {
                self.range_error = Some(e);
                None
            },
        }
    }

    /// Takes the query results.
    pub fn accept_view(&mut self, answer: Result<InsightsView, DbError>)
        ensures
            final(self)@ == old(self)@.viewed(answer),
            final(self)@ == (match answer {
                Ok(v) => InsightsData { view: Some(v), error: None, ..old(self)@ },
                Err(e) => InsightsData { error: Some(e.message@), ..old(self)@ },
            }),
    {
        match answer {
            Ok(v) => {
                self.view = Some(v);
                self.error = None;
            },
            Err(e) => {
                self.error = Some(e.message);
            },
        }
    }

    /// Applies the kind and the date fields of one frame of the toolbar.
    pub fn retune(&mut self, f: ToolbarFrame)
        ensures
            final(self)@ == old(self)@.retuned(f),
    {
        let same = text::same_text(f.from.as_str(), self.custom_from.as_str()) && text::same_text(
            f.to.as_str(),
            self.custom_to.as_str(),
        );
        if f.kind != self.kind {
            self.kind = f.kind;
            self.mark_dirty();
        }
        if !same {
            self.custom_from = f.from;
            self.custom_to = f.to;
            self.mark_dirty();
        }
    }

    /// Whether the span can be moved by `delta` units without leaving the calendar.
    pub fn step_possible(&self, delta: i64) -> (r: bool)
        requires
            self.anchor.valid(),
        ensures
            r == can_step(self.kind, self.anchor, delta as int),
    {
        let step: i128 = delta as i128;
        match self.kind {
            RangeKind::Week => {
                let first = Date { year: MIN_YEAR, month: 1, day: 1 };
                let last = Date { year: MAX_YEAR, month: 12, day: 31 };
                let target: i128 = self.anchor.day_count() as i128 + 7 * step;
                first.day_count() as i128 <= target && target <= last.day_count() as i128
            },
            RangeKind::Month => month_exists(self.anchor, step),
            RangeKind::Quarter => month_exists(self.anchor, 3 * step),
            RangeKind::Year => month_exists(self.anchor, 12 * step),
            RangeKind::Custom => true,
        }
    }

    /// Moves the span by `delta` units of its kind.
    pub fn step(&mut self, delta: i64)
        requires
            old(self).anchor.valid(),
            can_step(old(self).kind, old(self).anchor, delta as int),
        ensures
            final(self).anchor.valid(),
            final(self)@ == (InsightsData { anchor: final(self).anchor, ..old(self)@.stale() }),
            is_stepped(old(self).kind, old(self).anchor, delta as int, final(self).anchor),
            match old(self).kind {
                RangeKind::Week => final(self).anchor.number() == old(self).anchor.number() + 7
                    * delta,
                RangeKind::Month => final(self).anchor == months_later(
                    old(self).anchor,
                    delta as int,
                ),
                RangeKind::Quarter => final(self).anchor == months_later(
                    old(self).anchor,
                    delta * 3,
                ),
                RangeKind::Year => final(self).anchor == months_later(
                    old(self).anchor,
                    delta * 12,
                ),
                RangeKind::Custom => final(self).anchor == old(self).anchor,
            },
    {
        self.anchor = step_anchor(self.kind, self.anchor, delta);
        self.mark_dirty();
    }

    /// Shows what came of an export: the path that was written, nothing new where the user
    /// cancelled, or the failure.
    pub fn export_done(&mut self, outcome: Result<Option<String>, String>)
        ensures
            final(self)@ == old(self)@.exported(outcome),
            final(self)@ == (match outcome {
                Ok(Some(path)) => InsightsData {
                    export_status: Some("exported to "@ + path@),
                    ..old(self)@
                },
                Ok(None) => old(self)@,
                Err(e) => InsightsData {
                    export_status: Some("export failed: "@ + e@),
                    ..old(self)@
                },
            }),
    {
        match outcome {
            Ok(Some(path)) => {
                let mut s = "exported to ".to_owned();
                text::push_text(&mut s, path.as_str());
                self.export_status = Some(s);
            },
            Ok(None) => {},
            Err(e) => {
                let mut s = "export failed: ".to_owned();
                text::push_text(&mut s, e.as_str());
                self.export_status = Some(s);
            },
        }
    }
}

/// Choosing another span, or that the results are out of date, never takes the last results
/// away: they stay until others take their place.
pub proof fn law_results_stay_until_replaced(s: InsightsData, f: ToolbarFrame)
    ensures
        s.retuned(f).view == s.view,
        s.stale().view == s.view,
{
}

// --- laws ---

/// The settings file has one word for each kind, and any other text means a week.
pub proof fn law_kinds_are_written_as_words(s: Seq<char>)
    ensures
        kind_text(RangeKind::Week) == "week"@,
        kind_text(RangeKind::Month) == "month"@,
        kind_text(RangeKind::Quarter) == "quarter"@,
        kind_text(RangeKind::Year) == "year"@,
        kind_text(RangeKind::Custom) == "custom"@,
        s != "month"@ && s != "quarter"@ && s != "year"@ && s != "custom"@ ==> kind_of(s)
            == RangeKind::Week,
        noun_of(RangeKind::Week) == "week"@,
        noun_of(RangeKind::Month) == "month"@,
        noun_of(RangeKind::Quarter) == "quarter"@,
        noun_of(RangeKind::Year) == "year"@,
        noun_of(RangeKind::Custom) == "range"@,
{
}

/// Each kind asks for its own period around the anchor, and a custom span for the two dates as
/// they are typed, without the white space around them.
pub proof fn law_each_kind_asks_for_its_period(
    kind: RangeKind,
    anchor: Date,
    from: Seq<char>,
    to: Seq<char>,
    r: RangeRequest,
)
    requires
        selection_asks(kind, anchor, from, to, r),
    ensures
        kind == RangeKind::Week <==> r is WeekOf,
        kind == RangeKind::Month <==> r is MonthOf,
        kind == RangeKind::Quarter <==> r is QuarterOf,
        kind == RangeKind::Year <==> r is YearOf,
        kind == RangeKind::Custom <==> r is Parse,
        r matches RangeRequest::WeekOf(d) ==> d == anchor,
        r matches RangeRequest::MonthOf(d) ==> d == anchor,
        r matches RangeRequest::QuarterOf(d) ==> d == anchor,
        r matches RangeRequest::YearOf(d) ==> d == anchor,
        r matches RangeRequest::Parse { from: a, to: b } ==> a@ == text::trimmed(from) && b@
            == text::trimmed(to),
{
}

/// Two dates make a span from the first to the second, which is refused exactly where a field
/// holds no date or the first is after the second; the first fault is the one that is named.
pub proof fn law_dates_make_a_span(
    from: Option<Date>,
    to: Option<Date>,
    span: DateRange,
    r: Result<DateRange, String>,
)
    requires
        resolves_to(RangeReply::Dates { from, to }, r) || resolves_to(RangeReply::Span(span), r),
    ensures
        resolves_to(RangeReply::Span(span), r) ==> (r matches Ok(s) && s == span),
        resolves_to(RangeReply::Dates { from, to }, r) ==> match (from, to) {
            (None, _) => r matches Err(e) && e@ == "from date must be YYYY-MM-DD"@,
            (Some(_), None) => r matches Err(e) && e@ == "to date must be YYYY-MM-DD"@,
            (Some(a), Some(b)) => if b.year < a.year || (b.year == a.year && (b.month < a.month
                || (b.month == a.month && b.day < a.day))) {
                r matches Err(e) && e@ == "from must not be after to"@
            } else {
                r matches Ok(s) && s.start == a && s.end == b
            },
        },
{
}

/// A step by months keeps the day where the month has it and takes its last day otherwise. A week
/// has seven days, a quarter three months and a year twelve; a custom span stays.
pub proof fn law_steps_are_as_long_as_their_kind(kind: RangeKind, d: Date, delta: int, r: Date)
    requires
        d.valid(),
        can_step(kind, d, delta),
        is_stepped(kind, d, delta, r),
    ensures
        kind == RangeKind::Week ==> r.number() - d.number() == 7 * delta,
        kind == RangeKind::Month ==> r.year * 12 + r.month == d.year * 12 + d.month + delta,
        kind == RangeKind::Quarter ==> r.year * 12 + r.month == d.year * 12 + d.month + 3 * delta,
        kind == RangeKind::Year ==> r.year == d.year + delta && r.month == d.month,
        kind == RangeKind::Custom ==> r == d,
        kind == RangeKind::Month || kind == RangeKind::Quarter || kind == RangeKind::Year
            ==> r.valid() && r.day == (if d.day <= dates::month_length(
            r.year as int,
            r.month as int,
        ) {
            d.day as int
        } else {
            dates::month_length(r.year as int, r.month as int)
        }),
{
    match kind {
        RangeKind::Month => law_month_steps_do_not_spill(d, delta),
        RangeKind::Quarter => law_month_steps_do_not_spill(d, delta * 3),
        RangeKind::Year => law_month_steps_do_not_spill(d, delta * 12),
        _ => {},
    }
}

/// A step of nothing is always possible up to the calendar's last month, and so is every step
/// that stays between the calendar's first day and its last month.
pub proof fn law_steps_within_the_calendar_are_possible(d: Date, delta: int)
    ensures
        can_step(RangeKind::Custom, d, delta),
        can_step(RangeKind::Month, d, delta) <==> MIN_YEAR * 12 + 1 <= d.year * 12 + d.month
            + delta < MAX_YEAR * 12 + 12,
        can_step(RangeKind::Quarter, d, delta) <==> can_step(RangeKind::Month, d, 3 * delta),
        can_step(RangeKind::Year, d, delta) <==> can_step(RangeKind::Month, d, 12 * delta),
        can_step(RangeKind::Week, d, delta) <==> dates::day_number(MIN_YEAR as int, 1, 1)
            <= d.number() + 7 * delta && d.number() + 7 * delta <= dates::day_number(
            MAX_YEAR as int,
            12,
            31,
        ),
{
}

/// The line under the total gives the difference to the period before with its sign; only growth
/// is good news.
pub proof fn law_difference_is_signed(previous: int, n: int, kind: RangeKind)
    requires
        n > 0,
    ensures
        delta_of(previous + n, previous, kind) == (
            "+"@ + text::decimal(n) + " vs previous "@ + noun_of(kind),
            true,
        ),
        delta_of(previous - n, previous, kind) == (
            "\u{2212}"@ + text::decimal(n) + " vs previous "@ + noun_of(kind),
            false,
        ),
        delta_of(previous, previous, kind) == ("same as previous "@ + noun_of(kind), false),
{
}

/// A span within a month names the month once, one within a year leaves the year out, and one
/// over a turn of the year gives both dates in full.
pub proof fn law_spans_are_named_in_short(r: DateRange)
    ensures
        r.start.year == r.end.year && r.start.month == r.end.month ==> resolved_text(r)
            == text::decimal(r.start.day as int) + "\u{2013}"@ + text::decimal(r.end.day as int)
            + " "@ + dates::month_short(r.start.month as int),
        r.start.year == r.end.year && r.start.month != r.end.month ==> resolved_text(r)
            == dates::day_month_text(r.start) + " \u{2013} "@ + dates::day_month_text(r.end),
        r.start.year != r.end.year ==> resolved_text(r) == dates::day_month_text(r.start) + " "@
            + text::decimal(r.start.year as int) + " \u{2013} "@ + (dates::day_month_text(r.end)
            + " "@ + text::decimal(r.end.year as int)),
{
}

/// A period is named after its first day: the week's day, the month with its year, the quarter
/// with its year, or the year.
pub proof fn law_periods_are_named_after_their_start(r: DateRange)
    ensures
        period_text(RangeKind::Week, r) == "Week of "@ + dates::day_month_text(r.start),
        period_text(RangeKind::Month, r) == dates::month_long(r.start.month as int) + " "@
            + dates::year_text(r.start.year as int),
        1 <= r.start.month <= 3 ==> period_text(RangeKind::Quarter, r) == "Q"@ + text::decimal(1)
            + " "@ + text::decimal(r.start.year as int),
        4 <= r.start.month <= 6 ==> period_text(RangeKind::Quarter, r) == "Q"@ + text::decimal(2)
            + " "@ + text::decimal(r.start.year as int),
        7 <= r.start.month <= 9 ==> period_text(RangeKind::Quarter, r) == "Q"@ + text::decimal(3)
            + " "@ + text::decimal(r.start.year as int),
        10 <= r.start.month <= 12 ==> period_text(RangeKind::Quarter, r) == "Q"@ + text::decimal(4)
            + " "@ + text::decimal(r.start.year as int),
        period_text(RangeKind::Year, r) == text::decimal(r.start.year as int),
        period_text(RangeKind::Custom, r).len() == 0,
{
}

/// A cell of the summary shows its label, its value and the line under it, each in its place.
pub proof fn law_cells_show_what_they_read(
    c: SummaryCell,
    label: Seq<char>,
    value: Seq<char>,
    sub: Seq<char>,
    positive: bool,
)
    requires
        c.reads(label, value, sub, positive),
    ensures
        c.label@ == label,
        c.value@ == value,
        c.sub@ == sub,
        c.positive == positive,
{
}

/// What is exported was tallied at least once, and everything that was tallied is exported.
pub proof fn law_tallied_types_are_exported(ranked: Seq<TypeRangeTotal>, k: int)
    ensures
        0 <= k < tallied(ranked).len() ==> tallied(ranked)[k].total >= 1 && ranked.contains(
            tallied(ranked)[k],
        ),
        0 <= k < ranked.len() && ranked[k].total >= 1 ==> tallied(ranked).contains(ranked[k]),
{
    broadcast use vstd::seq_lib::group_filter_ensures;

    let keep = |r: TypeRangeTotal| r.total > 0;
    assert(tallied(ranked) == ranked.filter(keep));
    if 0 <= k < tallied(ranked).len() {
        crate::catalog::lemma_kept_was_there(ranked, keep, k);
        assert(keep(ranked.filter(keep)[k]));
    }
    if 0 <= k < ranked.len() && ranked[k].total >= 1 {
        assert(keep(ranked[k]));
    }
}

/// A first launch shows this week, with today in both date fields, and has everything to load.
pub proof fn law_first_launch_shows_this_week(today: Date)
    ensures
        InsightsData::fresh(today).kind == RangeKind::Week,
        InsightsData::fresh(today).anchor == today,
        InsightsData::fresh(today).custom_from == dates::sql_text(today),
        InsightsData::fresh(today).custom_to == dates::sql_text(today),
        InsightsData::fresh(today).range_error is None,
        InsightsData::fresh(today).export_status is None,
        InsightsData::fresh(today).dirty,
        InsightsData::fresh(today).view is None,
        InsightsData::fresh(today).error is None,
{
}

/// The toolbar's choices are taken as they are; a frame that changes one has the results loaded
/// anew and drops the line about the last export, and a frame that changes none changes nothing.
pub proof fn law_toolbar_choices_are_taken(s: InsightsData, f: ToolbarFrame)
    ensures
        s.retuned(f).kind == f.kind,
        s.retuned(f).custom_from == f.from@,
        s.retuned(f).custom_to == f.to@,
        s.retuned(f).anchor == s.anchor,
        s.retuned(f).view == s.view,
        s.retuned(f).error == s.error,
        s.retuned(f).range_error == s.range_error,
        f.kind != s.kind || f.from@ != s.custom_from || f.to@ != s.custom_to ==> s.retuned(f).dirty
            && s.retuned(f).export_status is None,
        f.kind == s.kind && f.from@ == s.custom_from && f.to@ == s.custom_to ==> s.retuned(f) == s,
        s.stale().dirty,
        s.stale().export_status is None,
        s.stale().view == s.view,
        s.stale().kind == s.kind,
        s.stale().anchor == s.anchor,
{
}

/// Whether `r` are the four cells of the summary strip.
pub open spec fn are_cells(
    r: Seq<SummaryCell>,
    summary: RangeSummary,
    kind: RangeKind,
    per_day: Option<String>,
    active_type_count: i64,
) -> bool {
    let delta = delta_of(summary.total as int, summary.previous_total as int, kind);
    &&& r.len() == 4
    &&& r[0].reads("TOTAL"@, text::decimal(summary.total as int), delta.0, delta.1)
    &&& r[1].reads(
        "PER ACTIVE DAY"@,
        match per_day {
            Some(s) => s@,
            None => "\u{2014}"@,
        },
        Seq::empty(),
        false,
    )
    &&& match summary.busiest_day {
        Some((date, count)) => r[2].reads(
            "BUSIEST DAY"@,
            text::decimal(count as int),
            dates::day_month_text(date),
            false,
        ),
        None => r[2].reads("BUSIEST DAY"@, "\u{2014}"@, Seq::empty(), false),
    }
    &&& r[3].reads(
        "TYPES USED"@,
        text::decimal(summary.distinct_types as int),
        "of "@ + text::decimal(active_type_count as int) + " active"@,
        false,
    )
}

/// The summary gives, in this order, the total with its change, the average per active day, the
/// busiest day with its date, and how many of the active types were used; a dash stands for what
/// there is not.
pub proof fn law_summary_tells_four_things(
    r: Seq<SummaryCell>,
    summary: RangeSummary,
    kind: RangeKind,
    per_day: Option<String>,
    active: i64,
)
    requires
        are_cells(r, summary, kind, per_day, active),
    ensures
        r.len() == 4,
        r[0].label@ == "TOTAL"@,
        r[0].value@ == text::decimal(summary.total as int),
        r[0].positive <==> summary.total > summary.previous_total,
        r[0].sub@ == delta_of(summary.total as int, summary.previous_total as int, kind).0,
        r[1].label@ == "PER ACTIVE DAY"@,
        per_day matches Some(s) ==> r[1].value@ == s@,
        per_day is None ==> r[1].value@ == "\u{2014}"@,
        r[1].sub@.len() == 0 && !r[1].positive,
        r[2].label@ == "BUSIEST DAY"@,
        summary.busiest_day matches Some(b) ==> r[2].value@ == text::decimal(b.1 as int)
            && r[2].sub@ == dates::day_month_text(b.0),
        summary.busiest_day is None ==> r[2].value@ == "\u{2014}"@ && r[2].sub@.len() == 0,
        !r[2].positive,
        r[3].label@ == "TYPES USED"@,
        r[3].value@ == text::decimal(summary.distinct_types as int),
        r[3].sub@ == "of "@ + text::decimal(active as int) + " active"@,
        !r[3].positive,
{
}

impl InsightsData {
    /// The screen once the span is resolved.
    pub open spec fn ranged(self, resolved: Result<DateRange, String>) -> InsightsData {
        InsightsData {
            dirty: false,
            range_error: match resolved {
                Ok(_) => None,
                Err(e) => Some(e@),
            },
            ..self
        }
    }

    /// The screen with what the database answered.
    pub open spec fn viewed(self, answer: Result<InsightsView, DbError>) -> InsightsData {
        match answer {
            Ok(v) => InsightsData { view: Some(v), error: None, ..self },
            Err(e) => InsightsData { error: Some(e.message@), ..self },
        }
    }

    /// The screen after an export.
    pub open spec fn exported(self, outcome: Result<Option<String>, String>) -> InsightsData {
        match outcome {
            Ok(Some(path)) => InsightsData {
                export_status: Some("exported to "@ + path@),
                ..self
            },
            Ok(None) => self,
            Err(e) => InsightsData { export_status: Some("export failed: "@ + e@), ..self },
        }
    }
}

/// New results take the place of the old and clear the failure; a failure, of the span or of the
/// database, is shown and leaves the last results in place.
pub proof fn law_failures_leave_the_last_results(
    s: InsightsData,
    range: DateRange,
    why: String,
    v: InsightsView,
    e: DbError,
)
    ensures
        !s.ranged(Ok(range)).dirty && s.ranged(Ok(range)).range_error is None,
        !s.ranged(Err(why)).dirty && s.ranged(Err(why)).range_error == Some(why@),
        s.ranged(Err(why)).view == s.view,
        s.ranged(Ok(range)).view == s.view,
        s.ranged(Err(why)).error == s.error,
        s.viewed(Ok(v)).view == Some(v),
        s.viewed(Ok(v)).error is None,
        s.viewed(Ok(v)).kind == s.kind && s.viewed(Ok(v)).anchor == s.anchor,
        s.viewed(Err(e)).view == s.view,
        s.viewed(Err(e)).error == Some(e.message@),
        s.viewed(Err(e)).dirty == s.dirty,
{
}

/// An export tells where it went or why it failed, and a cancelled one leaves the line as it is.
pub proof fn law_exports_are_told(s: InsightsData, path: String, why: String)
    ensures
        s.exported(Ok(Some(path))).export_status == Some("exported to "@ + path@),
        s.exported(Err(why)).export_status == Some("export failed: "@ + why@),
        s.exported(Ok(None)) == s,
        s.exported(Ok(Some(path))).view == s.view,
        s.exported(Ok(Some(path))).dirty == s.dirty,
        s.exported(Err(why)).view == s.view,
        s.exported(Err(why)).error == s.error,
{
}

} // verus!
