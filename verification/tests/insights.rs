//! Spans of days, how they are stepped and how they read.
use simpletally::catalog::{RangeSummary, TypeRangeTotal};
use simpletally::dates::{Date, DateRange, MAX_YEAR, MIN_YEAR};
use simpletally::error::{DbError, ErrorKind};
use simpletally::ui::chrome::Tab;
use simpletally::ui::insights::{
    delta_line, export_name, export_rows, period_label, range_request, resolve_range,
    resolved_label, row_label, share_caption, step_anchor, summary_cells, InsightsState,
    InsightsView, RangeKind, RangeReply, RangeRequest, ToolbarFrame,
};

fn d(year: i32, month: u32, day: u32) -> Date {
    Date { year, month, day }
}

fn span(a: Date, b: Date) -> DateRange {
    DateRange::new(a, b).unwrap()
}

fn summary(total: i64, previous_total: i64) -> RangeSummary {
    RangeSummary {
        total,
        previous_total,
        active_days: 3,
        distinct_types: 2,
        busiest_day: Some((d(2026, 8, 17), 9)),
    }
}

fn view() -> InsightsView {
    InsightsView {
        range: span(d(2026, 8, 1), d(2026, 8, 31)),
        summary: summary(15, 10),
        daily: vec![(d(2026, 8, 1), 4)],
        ranked: Vec::new(),
        active_type_count: 7,
    }
}

#[test]
fn tab_string_round_trips() {
    for t in [Tab::Today, Tab::Insights, Tab::TaskTypes] {
        assert_eq!(Tab::from_str(t.as_str()), t);
    }
}

#[test]
fn tab_from_str_falls_back_to_today_on_unknown() {
    assert_eq!(Tab::from_str("nonsense"), Tab::Today);
    assert_eq!(Tab::from_str(""), Tab::Today);
}

#[test]
fn range_kind_string_round_trips() {
    for k in RangeKind::all() {
        assert_eq!(RangeKind::from_str(k.as_str()), k);
    }
    assert_eq!(RangeKind::all().len(), 5);
}

#[test]
fn range_kind_from_str_falls_back_to_week_on_unknown() {
    assert_eq!(RangeKind::from_str("nonsense"), RangeKind::Week);
    assert_eq!(RangeKind::from_str(""), RangeKind::Week);
}

#[test]
fn range_kinds_have_labels_and_nouns() {
    let labels: Vec<&str> = RangeKind::all().iter().map(|k| k.label()).collect();
    assert_eq!(labels, vec!["Week", "Month", "Quarter", "Year", "Custom"]);
    let nouns: Vec<&str> = RangeKind::all().iter().map(|k| k.noun()).collect();
    assert_eq!(nouns, vec!["week", "month", "quarter", "year", "range"]);
}

#[test]
fn resolve_range_week_month_quarter_year_use_the_dates_module() {
    let anchor = d(2026, 8, 25);
    assert!(matches!(range_request(RangeKind::Week, anchor, "", ""), RangeRequest::WeekOf(a) if a == anchor));
    assert!(matches!(range_request(RangeKind::Month, anchor, "", ""), RangeRequest::MonthOf(a) if a == anchor));
    assert!(matches!(range_request(RangeKind::Quarter, anchor, "", ""), RangeRequest::QuarterOf(a) if a == anchor));
    assert!(matches!(range_request(RangeKind::Year, anchor, "", ""), RangeRequest::YearOf(a) if a == anchor));
    let week = span(d(2026, 8, 24), d(2026, 8, 30));
    assert_eq!(resolve_range(RangeReply::Span(week)).unwrap(), week);
}

#[test]
fn resolve_range_custom_parses_both_fields() {
    match range_request(RangeKind::Custom, d(2026, 1, 1), " 2026-08-01", "2026-08-31 ") {
        RangeRequest::Parse { from, to } => {
            assert_eq!(from, "2026-08-01");
            assert_eq!(to, "2026-08-31");
        }
        other => panic!("{other:?}"),
    }
    let r = resolve_range(RangeReply::Dates { from: Some(d(2026, 8, 1)), to: Some(d(2026, 8, 31)) }).unwrap();
    assert_eq!(r, DateRange::new(d(2026, 8, 1), d(2026, 8, 31)).unwrap());
}

#[test]
fn resolve_range_custom_rejects_unparseable_dates() {
    let r = resolve_range(RangeReply::Dates { from: None, to: Some(d(2026, 8, 31)) });
    assert_eq!(r.unwrap_err(), "from date must be YYYY-MM-DD");
    let r = resolve_range(RangeReply::Dates { from: Some(d(2026, 8, 1)), to: None });
    assert_eq!(r.unwrap_err(), "to date must be YYYY-MM-DD");
}

#[test]
fn resolve_range_custom_rejects_inverted_range() {
    let r = resolve_range(RangeReply::Dates { from: Some(d(2026, 8, 31)), to: Some(d(2026, 8, 1)) });
    assert_eq!(r.unwrap_err(), "from must not be after to");
}

#[test]
fn step_week_moves_by_seven_days() {
    let a = d(2026, 8, 25);
    assert_eq!(step_anchor(RangeKind::Week, a, 1), d(2026, 9, 1));
    assert_eq!(step_anchor(RangeKind::Week, a, -1), d(2026, 8, 18));
}

#[test]
fn step_month_clamps_month_end() {
    let a = d(2026, 1, 31);
    assert_eq!(step_anchor(RangeKind::Month, a, 1), d(2026, 2, 28));
}

#[test]
fn step_month_clamps_on_a_leap_year() {
    let a = d(2024, 1, 31);
    assert_eq!(step_anchor(RangeKind::Month, a, 1), d(2024, 2, 29));
}

#[test]
fn step_quarter_moves_three_months_and_wraps_the_year() {
    assert_eq!(step_anchor(RangeKind::Quarter, d(2026, 11, 15), 1), d(2027, 2, 15));
}

#[test]
fn step_year_moves_twelve_months() {
    assert_eq!(step_anchor(RangeKind::Year, d(2026, 8, 25), 1), d(2027, 8, 25));
    assert_eq!(step_anchor(RangeKind::Year, d(2024, 2, 29), 1), d(2025, 2, 28));
}

#[test]
fn step_custom_is_a_no_op() {
    let a = d(2026, 8, 25);
    assert_eq!(step_anchor(RangeKind::Custom, a, 1), a);
}

#[test]
fn steps_back_and_on_meet_again() {
    let a = d(2026, 8, 15);
    for k in RangeKind::all() {
        assert_eq!(step_anchor(k, step_anchor(k, a, 1), -1), a);
    }
    assert_eq!(step_anchor(RangeKind::Month, d(-1, 1, 15), -1), d(-2, 12, 15));
}

#[test]
fn delta_line_positive() {
    let (text, positive) = delta_line(15, 10, RangeKind::Month);
    assert_eq!(text, "+5 vs previous month");
    assert!(positive);
}

#[test]
fn delta_line_negative() {
    let (text, positive) = delta_line(10, 15, RangeKind::Month);
    assert_eq!(text, "\u{2212}5 vs previous month");
    assert!(!positive);
}

#[test]
fn delta_line_zero() {
    let (text, positive) = delta_line(10, 10, RangeKind::Month);
    assert_eq!(text, "same as previous month");
    assert!(!positive);
}

#[test]
fn resolved_label_same_month() {
    let r = DateRange::new(d(2026, 8, 1), d(2026, 8, 31)).unwrap();
    assert_eq!(resolved_label(r), "1\u{2013}31 Aug");
}

#[test]
fn resolved_label_across_months_and_years() {
    assert_eq!(resolved_label(span(d(2026, 7, 1), d(2026, 9, 30))), "1 Jul \u{2013} 30 Sep");
    assert_eq!(
        resolved_label(span(d(2025, 12, 31), d(2026, 1, 5))),
        "31 Dec 2025 \u{2013} 5 Jan 2026"
    );
}

#[test]
fn period_label_formats_per_kind() {
    let august = span(d(2026, 8, 1), d(2026, 8, 31));
    let year = span(d(2026, 1, 1), d(2026, 12, 31));
    let quarter = span(d(2026, 7, 1), d(2026, 9, 30));
    assert_eq!(period_label(RangeKind::Month, august), "August 2026");
    assert_eq!(period_label(RangeKind::Year, year), "2026");
    assert_eq!(period_label(RangeKind::Quarter, quarter), "Q3 2026");
    assert_eq!(period_label(RangeKind::Week, span(d(2026, 8, 17), d(2026, 8, 23))), "Week of 17 Aug");
    assert_eq!(period_label(RangeKind::Custom, august), "");
}

#[test]
fn summary_cells_read_as_designed() {
    let cells = summary_cells(&summary(15, 10), RangeKind::Month, Some("5.0".to_string()), 7);
    let read: Vec<(&str, &str, &str, bool)> =
        cells.iter().map(|c| (c.label, c.value.as_str(), c.sub.as_str(), c.positive)).collect();
    assert_eq!(
        read,
        vec![
            ("TOTAL", "15", "+5 vs previous month", true),
            ("PER ACTIVE DAY", "5.0", "", false),
            ("BUSIEST DAY", "9", "17 Aug", false),
            ("TYPES USED", "2", "of 7 active", false),
        ]
    );
    let quiet = RangeSummary { total: 0, previous_total: 0, active_days: 0, distinct_types: 0, busiest_day: None };
    let cells = summary_cells(&quiet, RangeKind::Week, None, 0);
    assert_eq!(cells[1].value, "\u{2014}");
    assert_eq!(cells[2].value, "\u{2014}");
    assert_eq!(cells[2].sub, "");
}

fn row(category: &str, name: &str, total: i64) -> TypeRangeTotal {
    TypeRangeTotal { category_name: category.to_string(), task_name: name.to_string(), total }
}

#[test]
fn export_leaves_untallied_types_out() {
    let rows = export_rows(&vec![row("A", "one", 3), row("A", "two", 0), row("B", "three", 1)]);
    let got: Vec<(&str, &str, i64)> =
        rows.iter().map(|r| (r.category.as_str(), r.task_type.as_str(), r.count)).collect();
    assert_eq!(got, vec![("A", "one", 3), ("B", "three", 1)]);
    assert_eq!(
        export_name(span(d(2026, 8, 1), d(2026, 8, 31))),
        "simpletally_2026-08-01_2026-08-31.csv"
    );
}

#[test]
fn category_list_texts() {
    assert_eq!(share_caption(42), "share of 42");
    assert_eq!(row_label(&row("Support \u{df}", "Ticket", 1)), "SUPPORT SS \u{b7} Ticket");
}

#[test]
fn a_bad_range_keeps_the_last_results() {
    let mut s = InsightsState::new(d(2026, 8, 25));
    assert_eq!(s.custom_from, "2026-08-25");
    assert_eq!(s.kind, RangeKind::Week);
    assert!(s.needs_rebuild());
    let range = span(d(2026, 8, 24), d(2026, 8, 30));
    assert_eq!(s.accept_range(Ok(range)), Some(range));
    s.accept_view(Ok(view()));
    assert!(!s.needs_rebuild());
    s.retune(ToolbarFrame { kind: RangeKind::Custom, from: "x".to_string(), to: "y".to_string() });
    assert!(s.needs_rebuild());
    assert_eq!(s.accept_range(Err("from date must be YYYY-MM-DD".to_string())), None);
    assert_eq!(s.range_error.as_deref(), Some("from date must be YYYY-MM-DD"));
    assert!(s.view.is_some());
    assert!(!s.needs_rebuild());
}

#[test]
fn a_failed_span_query_is_shown() {
    let mut s = InsightsState::new(d(2026, 8, 25));
    s.accept_view(Err(DbError { kind: ErrorKind::Other, message: "disk I/O error".to_string() }));
    assert_eq!(s.error.as_deref(), Some("disk I/O error"));
    s.reset_for_new_database();
    assert_eq!(s.error, None);
    assert!(s.dirty);
}

#[test]
fn export_status_lives_until_the_range_changes() {
    let mut s = InsightsState::new(d(2026, 8, 25));
    s.export_done(Ok(Some("/tmp/a.csv".to_string())));
    assert_eq!(s.export_status.as_deref(), Some("exported to /tmp/a.csv"));
    s.export_done(Ok(None));
    assert_eq!(s.export_status.as_deref(), Some("exported to /tmp/a.csv"));
    s.export_done(Err("no space".to_string()));
    assert_eq!(s.export_status.as_deref(), Some("export failed: no space"));
    assert!(s.step_possible(1));
    s.step(1);
    assert_eq!(s.anchor, d(2026, 9, 1));
    assert_eq!(s.export_status, None);
}

#[test]
fn stepping_stops_at_the_ends_of_the_calendar() {
    let last = InsightsState::new(d(MAX_YEAR, 12, 26));
    assert!(!last.step_possible(1));
    assert!(last.step_possible(-1));
    assert!(InsightsState::new(d(MAX_YEAR, 12, 24)).step_possible(1));
    let mut first = InsightsState::new(d(MIN_YEAR, 1, 3));
    assert!(!first.step_possible(-1));
    first.kind = RangeKind::Month;
    assert!(!first.step_possible(-1));
    assert!(first.step_possible(1));
    first.kind = RangeKind::Custom;
    assert!(first.step_possible(i64::MIN));
}
