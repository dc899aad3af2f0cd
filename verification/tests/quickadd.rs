//! The quick-add popup: its query, its result list and what it writes.
use simpletally::catalog::{Category, DayLogRow, DayTypeTotal, TaskType};
use simpletally::error::{DbError, ErrorKind};
use simpletally::ui::quickadd::{parse_query, preview_text, MAX_ROWS};
use simpletally::ui::quickadd_state::{
    commit_request, frame_action, list_rows, removal_groups, result_rows, Action, CommitReply,
    CommitRequest, DayNumbers, QuickAddState, QuickRows, Removable,
};
use simpletally::ui::matcher::can_match;
use simpletally::ui::rank::{can_search, rank, rank_checked, rank_scored};
use std::collections::BTreeMap;

fn ty(id: i64, category_id: i64, name: &str, description: &str, is_active: bool) -> TaskType {
    TaskType {
        id,
        category_id,
        name: name.to_string(),
        description: description.to_string(),
        is_active,
        created_at: "2026-01-01 00:00:00.000".to_string(),
    }
}

#[test]
fn parse_query_plain_text() {
    assert_eq!(parse_query("reset pass"), ("reset pass".to_string(), 1));
}

#[test]
fn parse_query_trailing_count() {
    assert_eq!(parse_query("reset pass 3"), ("reset pass".to_string(), 3));
}

#[test]
fn parse_query_count_with_multi_word_text() {
    assert_eq!(parse_query("close support ticket 12"), ("close support ticket".to_string(), 12));
}

#[test]
fn parse_query_bare_number_is_search_text() {
    assert_eq!(parse_query("3"), ("3".to_string(), 1));
}

#[test]
fn parse_query_zero_count_stays_in_text() {
    assert_eq!(parse_query("reset pass 0"), ("reset pass 0".to_string(), 1));
}

#[test]
fn parse_query_out_of_range_count_stays_in_text() {
    assert_eq!(parse_query("reset pass 99999"), ("reset pass 99999".to_string(), 1));
}

#[test]
fn parse_query_trailing_whitespace_trimmed() {
    assert_eq!(parse_query("reset pass 3   "), ("reset pass".to_string(), 3));
}

#[test]
fn parse_query_empty_string() {
    assert_eq!(parse_query(""), ("".to_string(), 1));
}

#[test]
fn parse_query_handles_multi_byte_characters() {
    assert_eq!(parse_query("perékaman berkas 3"), ("perékaman berkas".to_string(), 3));
    assert_eq!(parse_query("笔记 2"), ("笔记".to_string(), 2));
    assert_eq!(parse_query("café"), ("café".to_string(), 1));
    assert_eq!(parse_query("berkas\u{a0}4"), ("berkas".to_string(), 4));
}

#[test]
fn parse_query_negative_count_is_a_removal() {
    assert_eq!(parse_query("konsultasi -3"), ("konsultasi".to_string(), -3));
    assert_eq!(parse_query("konsultasi -1"), ("konsultasi".to_string(), -1));
    assert_eq!(parse_query("reset pass 007"), ("reset pass".to_string(), 7));
    assert_eq!(parse_query("konsultasi -0"), ("konsultasi -0".to_string(), 1));
    assert_eq!(parse_query("konsultasi -99999"), ("konsultasi -99999".to_string(), 1));
    assert_eq!(parse_query("-2"), ("-2".to_string(), 1));
}

#[test]
fn parse_query_odd_counts() {
    assert_eq!(parse_query("berkas 9999"), ("berkas".to_string(), 9999));
    assert_eq!(parse_query("berkas 10000"), ("berkas 10000".to_string(), 1));
    assert_eq!(parse_query("berkas --3"), ("berkas --3".to_string(), 1));
    assert_eq!(parse_query("berkas +3"), ("berkas".to_string(), 3));
    assert_eq!(parse_query("berkas 99999999999999999999999"), ("berkas 99999999999999999999999".to_string(), 1));
}

#[test]
fn preview_never_promises_a_removal_that_cannot_happen() {
    assert_eq!(preview_text(4, 4, 3), "+3 \u{2192} 7");
    assert_eq!(preview_text(0, 0, 1), "+1 \u{2192} 1");
    assert_eq!(preview_text(7, 7, -3), "\u{2212}3 \u{2192} 4");
    assert_eq!(preview_text(2, 2, -5), "\u{2212}2 \u{2192} 0");
    assert_eq!(preview_text(0, 0, -3), "\u{2212}0 \u{2192} 0");
    assert_eq!(preview_text(3, 2, -3), "\u{2212}2 \u{2192} 1");
    assert_eq!(preview_text(1, 0, -1), "\u{2212}0 \u{2192} 1");
}

#[test]
fn preview_takes_no_more_than_the_day_holds() {
    assert_eq!(preview_text(2, 5, -5), "\u{2212}2 \u{2192} 0");
    assert_eq!(preview_text(2, 5, -1), "\u{2212}1 \u{2192} 1");
    assert_eq!(preview_text(-1, 5, -5), "\u{2212}0 \u{2192} -1");
    assert_eq!(preview_text(i64::MIN, i64::MAX, -5), "\u{2212}0 \u{2192} -9223372036854775808");
}

#[test]
fn rank_name_hit_beats_description_hit() {
    let types = vec![
        ty(1, 1, "Unrelated", "reset password for a client", true),
        ty(2, 1, "Reset Password", "administrative task", true),
    ];
    let counts = BTreeMap::new();
    let ids = rank(&types, &counts, "reset password", 6);
    assert_eq!(ids, vec![2, 1]);
}

#[test]
fn rank_excludes_non_matches() {
    let types = vec![ty(1, 1, "Reset Password", "", true), ty(2, 1, "File Taxes", "", true)];
    let counts = BTreeMap::new();
    let ids = rank(&types, &counts, "reset", 6);
    assert_eq!(ids, vec![1]);
}

#[test]
fn rank_honours_limit() {
    let types = vec![
        ty(1, 1, "Task A", "", true),
        ty(2, 1, "Task B", "", true),
        ty(3, 1, "Task C", "", true),
    ];
    let counts = BTreeMap::new();
    let ids = rank(&types, &counts, "task", 2);
    assert_eq!(ids.len(), 2);
}

#[test]
fn a_smaller_limit_cuts_the_result_short() {
    let types = vec![
        ty(1, 1, "Task C", "", true),
        ty(2, 1, "Task A", "task", true),
        ty(3, 1, "Other", "a task", true),
        ty(4, 1, "Task B", "", false),
    ];
    let counts = BTreeMap::new();
    for search in ["task", ""] {
        let all = rank(&types, &counts, search, 10);
        assert_eq!(all.len(), 3);
        for limit in 0..5 {
            let few = rank(&types, &counts, search, limit);
            assert_eq!(few[..], all[..limit.min(3)]);
        }
    }
}

#[test]
fn rank_empty_text_falls_back_to_today_count_order() {
    let types = vec![
        ty(1, 1, "Alpha", "", true),
        ty(2, 1, "Beta", "", true),
        ty(3, 1, "Gamma", "", true),
    ];
    let mut counts = BTreeMap::new();
    counts.insert(1, 2);
    counts.insert(3, 5);
    let ids = rank(&types, &counts, "", 6);
    assert_eq!(ids, vec![3, 1, 2]);
}

#[test]
fn rank_never_returns_inactive_types() {
    let types = vec![ty(1, 1, "Reset Password", "", false), ty(2, 1, "Reset Passcode", "", true)];
    let counts = BTreeMap::new();
    let ids = rank(&types, &counts, "reset", 6);
    assert_eq!(ids, vec![2]);
}

#[test]
fn equal_scores_go_by_name() {
    let types = vec![ty(1, 1, "Beta", "", true), ty(2, 1, "Alpha", "", true), ty(3, 1, "Gamma", "", true)];
    assert_eq!(rank_scored(&types, &vec![5, 5, 9], &vec![true, true, true], 6), vec![3, 2, 1]);
    assert_eq!(rank_scored(&types, &vec![5, 5, 9], &vec![true, false, true], 6), vec![3, 1]);
    assert_eq!(rank_scored(&types, &vec![5, 5, 9], &vec![true, true, true], 1), vec![3]);
}

fn found(name: &str, search: &str) -> Option<usize> {
    let types = vec![ty(1, 1, name, "", true)];
    rank_checked(&types, &BTreeMap::new(), search, 6).map(|ids| ids.len())
}

#[test]
fn searches_that_the_matcher_cannot_take_are_told_apart() {
    assert!(can_match("Reset Password", "reset"));
    let long = "a".repeat(3000);
    assert!(!can_match(&long, &long));
    assert!(!can_match("Reset Password", "RP"));
    let types = vec![ty(1, 1, &long, "", true)];
    assert!(can_search(&types, "aa"));
    assert!(!can_search(&types, &long));
    assert_eq!(rank_checked(&types, &BTreeMap::new(), &long, 6), None);
    assert_eq!(found("Reset Password", "RP"), None);
    assert_eq!(found("Reset Password", "pwd"), Some(1));
}

#[test]
fn a_long_search_that_is_not_there_finds_nothing() {
    let long = "a".repeat(3000);
    assert_eq!(found("Reset Password", &long), Some(0));
    assert_eq!(found(&long, &format!("{}b", "a".repeat(2999))), Some(0));
    assert_eq!(found(&format!("{long}a"), &format!("{}b", "a".repeat(2999))), Some(0));
    assert_eq!(found(&long, &"\u{e9}".repeat(2900)), Some(0));
}

#[test]
fn a_long_search_is_measured_in_letters() {
    let name = "\u{e9}".repeat(1400);
    assert_eq!(found(&name, &"e".repeat(1300)), Some(1));
    assert_eq!(found(&name, &"\u{e9}".repeat(1300)), Some(0));
    let name = "a".repeat(2600);
    assert_eq!(found(&name, &"a".repeat(2520)), Some(1));
    assert_eq!(found(&name, &"a".repeat(2600)), None);
}

#[test]
fn a_long_search_is_taken_as_long_as_its_score_fits() {
    // At the beginning of a word every letter gets 26 points, within one 20.
    assert_eq!(found(&"a".repeat(2520), &"a".repeat(2520)), Some(1));
    assert_eq!(found(&"a".repeat(2521), &"a".repeat(2521)), None);
    let inside = |n: usize| found(&format!("x{}", "a".repeat(n)), &"a".repeat(n));
    assert_eq!(inside(2521), Some(1));
    assert_eq!(inside(3276), Some(1));
    assert_eq!(inside(3277), None);
    let accented = |n: usize| found(&format!("x{}", "\u{e9}".repeat(n)), &"e".repeat(n));
    assert_eq!(accented(3276), Some(1));
    assert_eq!(accented(3277), None);
    // A gap ends a run and costs points.
    let apart = |n: usize| found(&"a.".repeat(n), &"a".repeat(n));
    assert_eq!(apart(3000), Some(1));
    assert_eq!(apart(4000), None);
}

#[test]
fn capitals_far_apart_are_searched_without_tables() {
    let spread = |between: usize| format!("R{}P", "x".repeat(between));
    assert_eq!(found(&format!("{}.", spread(0)), "RP"), Some(1));
    assert_eq!(found(&format!("{}.", spread(11091)), "RP"), None);
    assert_eq!(found(&format!("{}.", spread(11092)), "RP"), Some(0));
    assert_eq!(found(&format!("{}.", spread(60000)), "RP"), Some(0));
}

fn numbers() -> (Result<QuickRows, DbError>, Result<DayNumbers, DbError>) {
    (
        Ok(QuickRows {
            types: vec![ty(1, 10, "Konsultasi", "", true), ty(2, 20, "Setoran", "", true)],
            categories: vec![
                Category { id: 10, name: "SAKTI".to_string() },
                Category { id: 20, name: "DIGIPAY".to_string() },
            ],
        }),
        Ok(DayNumbers {
            totals: vec![DayTypeTotal { task_type_id: 2, category_id: 20, count: 4 }],
            removable: vec![Removable { task_type_id: 2, count: 3 }],
        }),
    )
}

fn failure(message: &str) -> DbError {
    DbError { kind: ErrorKind::Other, message: message.to_string() }
}

#[test]
fn result_rows_carry_todays_numbers() {
    let mut s = QuickAddState::new();
    let (rows, day) = numbers();
    s.accept_rows(rows, day);
    let v = s.view.as_ref().unwrap();
    let all = result_rows(v, "").unwrap();
    let got: Vec<(i64, &str, &str, i64, i64)> = all
        .iter()
        .map(|r| (r.task_type_id, r.name.as_str(), r.category_name.as_str(), r.today_count, r.removable))
        .collect();
    assert_eq!(got, vec![(2, "Setoran", "DIGIPAY", 4, 3), (1, "Konsultasi", "SAKTI", 0, 0)]);
    let found = result_rows(v, "kons 3").unwrap();
    assert_eq!(found.len(), 1);
    assert_eq!(found[0].task_type_id, 1);
    assert!(result_rows(v, "zzz").unwrap().is_empty());
    assert!(all.len() <= MAX_ROWS);
}

#[test]
fn a_failed_day_query_is_not_taken_for_an_empty_day() {
    let mut s = QuickAddState::new();
    let (rows, _) = numbers();
    s.accept_rows(rows, Err(failure("locked")));
    assert_eq!(s.error.as_deref(), Some("locked"));
    assert!(s.view.is_some());
}

#[test]
fn selection_stays_on_the_list() {
    let mut s = QuickAddState::new();
    s.selected = 5;
    s.clamp_selection(3);
    assert_eq!(s.selected, 2);
    s.move_selection(true, false, 3);
    assert_eq!(s.selected, 2);
    s.move_selection(false, true, 3);
    assert_eq!(s.selected, 1);
    s.clamp_selection(0);
    assert_eq!(s.selected, 0);
    assert_eq!(list_rows(0), 1);
    assert_eq!(list_rows(4), 4);
}

#[test]
fn removals_are_grouped_by_type() {
    let entry = |task_type_id: i64, count: i64, notes: &str| DayLogRow {
        entry_id: 1,
        task_type_id,
        created_at: String::new(),
        category_name: String::new(),
        task_name: String::new(),
        count,
        notes: notes.to_string(),
    };
    let groups = removal_groups(&vec![entry(1, 2, ""), entry(2, 1, " x "), entry(1, 3, "  ")]);
    let mut got: Vec<(i64, Vec<(i64, bool)>)> =
        groups.into_iter().map(|g| (g.task_type_id, g.rows)).collect();
    got.sort();
    assert_eq!(got, vec![(1, vec![(2, false), (3, false)]), (2, vec![(1, true)])]);
}

#[test]
fn committing_says_what_happened() {
    let mut s = QuickAddState::new();
    let (rows, day) = numbers();
    s.accept_rows(rows, day);
    let row = &result_rows(s.view.as_ref().unwrap(), "setoran").unwrap()[0];
    match commit_request(row, "2026-08-25", 3) {
        CommitRequest::Add { type_id, date, count } => {
            assert_eq!((type_id, date.as_str(), count), (2, "2026-08-25", 3))
        }
        other => panic!("{other:?}"),
    }
    match commit_request(row, "2026-08-25", -3) {
        CommitRequest::Remove { type_id, asked, .. } => assert_eq!((type_id, asked), (2, 3)),
        other => panic!("{other:?}"),
    }
    assert_eq!(s.commit_reply("Setoran", 3, CommitReply::Added).as_deref(), Some("+3 Setoran"));
    let removed = |removed: i64, notes_protected: i64| CommitReply::Removed { removed, notes_protected };
    assert_eq!(s.commit_reply("Setoran", -3, removed(3, 0)).as_deref(), Some("\u{2212}3 Setoran"));
    assert_eq!(
        s.commit_reply("Setoran", -3, removed(1, 0)).as_deref(),
        Some("\u{2212}1 Setoran \u{2014} asked for 3, that was all of today's")
    );
    assert_eq!(
        s.commit_reply("Setoran", -3, removed(1, 1)).as_deref(),
        Some("\u{2212}1 Setoran \u{2014} asked for 3, the rest carries a note")
    );
    assert_eq!(s.commit_reply("Setoran", 1, CommitReply::Failed(failure("read-only"))), None);
    assert_eq!(s.error.as_deref(), Some("read-only"));
}

#[test]
fn frames_dismiss_or_log() {
    assert!(matches!(frame_action(false, None), Action::Nothing));
    assert!(matches!(frame_action(true, None), Action::Dismiss));
    assert!(matches!(frame_action(true, Some("+1 A".to_string())), Action::Logged(l) if l == "+1 A"));
}

#[test]
fn a_summons_starts_empty() {
    let mut s = QuickAddState::new();
    s.query = "kons".to_string();
    s.selected = 2;
    s.reset();
    assert_eq!((s.query.as_str(), s.selected, s.dirty), ("", 0, true));
    s.dirty = false;
    s.mark_dirty();
    assert!(s.dirty);
}
