//! The Today screen: its day, its tiles, its log and the edit dialog.
use simpletally::catalog::{Category, DayLogRow, DayTypeTotal, TaskType};
use simpletally::dates::Date;
use simpletally::error::{DbError, ErrorKind};
use simpletally::ui::today::{
    check_sums, chosen_type, date_headline, day_caption, filter_caption, log_toggle_label,
    tile_tip, tiles, type_choices, visible_log, CategoryFilter, DayRows, Nav, TodayState,
};
use simpletally::ui::today_edit::{
    clock, delete_question, Action, EditFrame, EditRequest, TallyReply, TallyRequest,
};

fn d(year: i32, month: u32, day: u32) -> Date {
    Date { year, month, day }
}

fn ty(id: i64, category_id: i64, name: &str, description: &str) -> TaskType {
    TaskType {
        id,
        category_id,
        name: name.to_string(),
        description: description.to_string(),
        is_active: true,
        created_at: String::new(),
    }
}

fn entry(entry_id: i64, count: i64, notes: &str) -> DayLogRow {
    DayLogRow {
        entry_id,
        task_type_id: 1,
        created_at: "2026-08-25 14:05:09.000".to_string(),
        category_name: "SAKTI".to_string(),
        task_name: "Rekonsiliasi".to_string(),
        count,
        notes: notes.to_string(),
    }
}

fn total(task_type_id: i64, category_id: i64, count: i64) -> DayTypeTotal {
    DayTypeTotal { task_type_id, category_id, count }
}

fn rows() -> DayRows {
    DayRows {
        categories: vec![
            Category { id: 10, name: "Sakti".to_string() },
            Category { id: 20, name: "Digipay".to_string() },
        ],
        active_types: vec![ty(1, 10, "Rekonsiliasi", "monthly"), ty(2, 10, "Setoran", ""), ty(3, 20, "Approval", "")],
        totals: vec![total(1, 10, 3), total(2, 10, 1), total(3, 20, 5)],
        day_total: 9,
        distinct_types: 3,
        log: vec![entry(7, 2, "note"), entry(6, 1, "")],
    }
}

fn err(message: &str) -> DbError {
    DbError { kind: ErrorKind::Other, message: message.to_string() }
}

fn loaded() -> TodayState {
    let mut s = TodayState::new(d(2026, 8, 25));
    s.accept_rows(Ok(rows()));
    s
}

fn frame(s: &TodayState) -> EditFrame {
    let form = s.editing.as_ref().unwrap();
    EditFrame {
        close: false,
        toggle_picker: false,
        choose: None,
        minus: false,
        plus: false,
        date: form.date.clone(),
        date_today: false,
        notes: form.notes.clone(),
        ask_delete: false,
        save: false,
        cancel: false,
        delete: false,
        keep: false,
        confirm_dismissed: false,
        dismissed: false,
        up: false,
        down: false,
        enter: false,
    }
}

#[test]
fn headline_spells_the_day_out() {
    assert_eq!(date_headline(d(2026, 8, 25)), "TUESDAY 25 AUGUST 2026");
    assert_eq!(date_headline(d(2024, 2, 29)), "THURSDAY 29 FEBRUARY 2024");
}

#[test]
fn captions() {
    assert_eq!(day_caption(9, 3), "9 tallies across 3 types");
    assert_eq!(day_caption(0, 0), "nothing logged yet \u{2014} click a tile");
    assert_eq!(log_toggle_label(true, 4), "show all (4)");
    assert_eq!(log_toggle_label(false, 4), "collapse");
    assert_eq!(visible_log(true, 4), 1);
    assert_eq!(visible_log(false, 4), 4);
    assert_eq!(clock("2026-08-25 14:05:09.000"), "14:05");
    assert_eq!(clock("short"), "");
}

#[test]
fn the_day_is_summed_by_category() {
    let s = loaded();
    let v = s.view.as_ref().unwrap();
    assert_eq!(v.category_day_counts.get(&10), Some(&4));
    assert_eq!(v.category_day_counts.get(&20), Some(&5));
    let t = tiles(v);
    let got: Vec<(i64, &str, &str, i64)> =
        t.iter().map(|t| (t.type_id, t.category.as_str(), t.name.as_str(), t.count)).collect();
    assert_eq!(
        got,
        vec![(1, "Sakti", "Rekonsiliasi", 3), (2, "Sakti", "Setoran", 1), (3, "Digipay", "Approval", 5)]
    );
    assert_eq!(tile_tip(&t[0]), "Rekonsiliasi\n\nmonthly");
    assert_eq!(tile_tip(&t[1]), "Setoran");
    assert_eq!(filter_caption(CategoryFilter::One(10), v).as_deref(), Some("3 types in Sakti"));
    assert_eq!(filter_caption(CategoryFilter::All, v), None);
}

#[test]
fn a_filter_narrows_the_tiles_but_not_the_picker() {
    let mut s = TodayState::new(d(2026, 8, 25));
    s.choose_filter(CategoryFilter::One(20));
    assert!(s.needs_rebuild());
    s.accept_rows(Ok(rows()));
    let v = s.view.as_ref().unwrap();
    assert_eq!(tiles(v).len(), 1);
    let choices = type_choices(v);
    assert_eq!(choices.len(), 3);
    assert_eq!(chosen_type(&choices, 3), ("Digipay".to_string(), "Approval".to_string()));
    assert_eq!(chosen_type(&choices, 99), (String::new(), String::new()));
}

#[test]
fn sums_beyond_the_numbers_are_told_apart() {
    assert!(check_sums(&vec![total(1, 10, 3), total(2, 10, -1)]));
    assert!(!check_sums(&vec![total(1, 10, i64::MAX), total(2, 10, 1)]));
    assert!(check_sums(&vec![total(1, 10, i64::MAX), total(2, 20, 1)]));
}

#[test]
fn moving_to_another_day_discards_the_note() {
    let mut s = loaded();
    s.pending_note = "later".to_string();
    let today = d(2026, 8, 25);
    assert!(!s.next_enabled(today));
    s.navigate(Nav::Today, today);
    assert_eq!(s.pending_note, "later");
    s.navigate(Nav::Prev, today);
    assert_eq!(s.selected_date, d(2026, 8, 24));
    assert_eq!(s.pending_note, "");
    assert!(s.needs_rebuild());
    assert!(s.next_enabled(today));
    s.navigate(Nav::Next, today);
    assert_eq!(s.selected_date, today);
    s.navigate(Nav::Prev, today);
    s.navigate(Nav::Today, today);
    assert_eq!(s.selected_date, today);
}

#[test]
fn a_tally_carries_the_note_and_is_announced() {
    let mut s = loaded();
    s.toggle_note();
    assert!(s.note_open);
    s.pending_note = "urgent".to_string();
    let t = tiles(s.view.as_ref().unwrap());
    let action = s.chosen_action(None, Some(1), false, &t).unwrap();
    match s.tally_request(&action) {
        TallyRequest::Add { type_id, date, count, note } => {
            assert_eq!((type_id, date.as_str(), count, note.as_str()), (2, "2026-08-25", 1, "urgent"))
        }
        other => panic!("{other:?}"),
    }
    s.tally_reply(action, TallyReply::Failed(err("busy")));
    assert_eq!(s.pending_note, "urgent");
    assert!(!s.take_data_changed());
    s.tally_reply(Action::Add(2, "Setoran".to_string()), TallyReply::Written);
    assert_eq!(s.pending_note, "");
    assert_eq!(s.last_action.as_deref(), Some("logged Setoran"));
    assert!(s.take_data_changed());
    assert!(!s.take_data_changed());
    assert!(s.chosen_action(None, Some(1), true, &t).is_none());
    assert!(s.chosen_action(None, Some(9), false, &t).is_none());
    s.tally_reply(Action::Remove(2, "Setoran".to_string()), TallyReply::NothingToRemove);
    assert_eq!(s.last_action.as_deref(), Some("logged Setoran"));
}

#[test]
fn the_edit_dialog_saves_what_was_typed() {
    let mut s = loaded();
    s.open_edit(&entry(7, 2, "note"));
    assert_eq!(s.editing.as_ref().unwrap().logged_at, "14:05");
    let mut f = frame(&s);
    f.plus = true;
    f.notes = "changed".to_string();
    f.save = true;
    match s.edit_frame(f, d(2026, 8, 25)) {
        EditRequest::Save { entry_id, task_type_id, date, count, notes } => assert_eq!(
            (entry_id, task_type_id, date.as_str(), count, notes.as_str()),
            (7, 1, "2026-08-25", 3, "changed")
        ),
        other => panic!("{other:?}"),
    }
    s.edit_reply(Err(err("constraint")));
    assert_eq!(s.editing.as_ref().unwrap().error.as_deref(), Some("constraint"));
    s.edit_reply(Ok(()));
    assert!(s.editing.is_none());
    assert!(s.needs_rebuild());
}

#[test]
fn a_count_never_falls_below_one() {
    let mut s = loaded();
    s.open_edit(&entry(6, 1, ""));
    let mut f = frame(&s);
    f.minus = true;
    assert!(matches!(s.edit_frame(f, d(2026, 8, 25)), EditRequest::Nothing));
    assert_eq!(s.editing.as_ref().unwrap().count, 1);
}

#[test]
fn deleting_asks_first() {
    let mut s = loaded();
    s.open_edit(&entry(7, 2, "note"));
    let mut f = frame(&s);
    f.ask_delete = true;
    assert!(matches!(s.edit_frame(f, d(2026, 8, 25)), EditRequest::Nothing));
    let form = s.editing.as_ref().unwrap();
    assert!(form.confirm_delete);
    assert_eq!(
        delete_question(form, "Sakti", "Rekonsiliasi"),
        "2 tallies of SAKTI \u{b7} Rekonsiliasi on 2026-08-25. This cannot be undone."
    );
    let mut f = frame(&s);
    f.keep = true;
    assert!(matches!(s.edit_frame(f, d(2026, 8, 25)), EditRequest::Nothing));
    assert!(!s.editing.as_ref().unwrap().confirm_delete);
    let mut f = frame(&s);
    f.ask_delete = true;
    s.edit_frame(f, d(2026, 8, 25));
    let mut f = frame(&s);
    f.delete = true;
    assert!(matches!(s.edit_frame(f, d(2026, 8, 25)), EditRequest::Delete { entry_id: 7 }));
}

#[test]
fn closing_the_dialog_drops_the_draft() {
    let mut s = loaded();
    s.open_edit(&entry(7, 2, "note"));
    let mut f = frame(&s);
    f.cancel = true;
    assert!(matches!(s.edit_frame(f, d(2026, 8, 25)), EditRequest::Nothing));
    assert!(s.editing.is_none());
    s.open_edit(&entry(7, 2, "note"));
    s.reset_for_new_database();
    assert!(s.editing.is_none());
}

#[test]
fn a_failed_day_query_is_shown() {
    let mut s = TodayState::new(d(2026, 8, 25));
    s.accept_rows(Err(err("no such table")));
    assert_eq!(s.error.as_deref(), Some("no such table"));
    s.toggle_log();
    assert!(s.log_collapsed);
    s.mark_dirty();
    assert!(s.dirty);
}
