//! The Task types screen, its form and the manage-categories dialog.
use simpletally::catalog::{Category, TaskType, TypeLifetimeTotal, TypeUsage};
use simpletally::dates::Date;
use simpletally::error::{DbError, ErrorKind};
use simpletally::service::import::CombinedReport;
use simpletally::ui::categories::{
    load_categories_modal, nudge_target, rename_frame, row_subtitle, CategoriesModal,
    CategoryChange, Changes, MoveRequest, MoveStep, RemoveStep, RenameAction,
};
use simpletally::ui::type_form::{
    deactivate_type, load_delete_form, new_type_form, preview_name, usage_line, CategoryFrame,
    DeleteChoice, DeleteFrame, DeleteRequest, FormFrame, FormRequest, TypeForm, PILL_TOP_N,
};
use simpletally::ui::types::{
    aggregate_categories, category_tallies, check_aggregates, filter_types, picker_shows,
    pill_slots, reordered_ids, validate_type_name, ActiveFilter, CatAgg, CategoryFilter,
};
use simpletally::ui::types_screen::{
    report_lines, row_click, ImportOutcome, Modal, RowClick, TypeRows, TypesState,
};

fn ty(id: i64, category_id: i64, name: &str, description: &str, is_active: bool) -> TaskType {
    TaskType {
        id,
        category_id,
        name: name.to_string(),
        description: description.to_string(),
        is_active,
        created_at: String::new(),
    }
}

fn sample() -> Vec<TaskType> {
    vec![
        ty(1, 10, "Rekonsiliasi", "monthly bank recon", true),
        ty(2, 10, "Setoran", "", false),
        ty(3, 20, "Approval", "final sign-off step", true),
    ]
}

fn cat(id: i64, name: &str) -> Category {
    Category { id, name: name.to_string() }
}

fn lt(task_type_id: i64, total: i64) -> TypeLifetimeTotal {
    TypeLifetimeTotal { task_type_id, total }
}

fn agg(id: i64, name: &str, tallies: i64) -> CatAgg {
    CatAgg { id, name: name.to_string(), type_count: 0, tally_count: tallies }
}

fn err(kind: ErrorKind, message: &str) -> DbError {
    DbError { kind, message: message.to_string() }
}

fn usage(total: i64) -> TypeUsage {
    TypeUsage { total, active_days: 2, last_used: Some(Date { year: 2026, month: 8, day: 25 }) }
}

#[test]
fn no_filters_returns_everything() {
    let types = sample();
    let rows = filter_types(&types, "", CategoryFilter::All, ActiveFilter::All);
    assert_eq!(rows.len(), 3);
}

#[test]
fn active_only_excludes_inactive() {
    let types = sample();
    let rows = filter_types(&types, "", CategoryFilter::All, ActiveFilter::ActiveOnly);
    assert_eq!(rows.iter().map(|t| t.id).collect::<Vec<_>>(), vec![1, 3]);
}

#[test]
fn category_filter_restricts_to_one_category() {
    let types = sample();
    let rows = filter_types(&types, "", CategoryFilter::One(10), ActiveFilter::All);
    assert_eq!(rows.iter().map(|t| t.id).collect::<Vec<_>>(), vec![1, 2]);
}

#[test]
fn search_matches_name_case_insensitively() {
    let types = sample();
    let rows = filter_types(&types, "rekon", CategoryFilter::All, ActiveFilter::All);
    assert_eq!(rows.iter().map(|t| t.id).collect::<Vec<_>>(), vec![1]);
}

#[test]
fn search_matches_description_case_insensitively() {
    let types = sample();
    let rows = filter_types(&types, "SIGN-OFF", CategoryFilter::All, ActiveFilter::All);
    assert_eq!(rows.iter().map(|t| t.id).collect::<Vec<_>>(), vec![3]);
}

#[test]
fn search_and_category_and_active_combine() {
    let types = sample();
    let rows = filter_types(&types, "setoran", CategoryFilter::One(10), ActiveFilter::ActiveOnly);
    assert!(rows.is_empty());
    let rows = filter_types(&types, "setoran", CategoryFilter::One(10), ActiveFilter::All);
    assert_eq!(rows.iter().map(|t| t.id).collect::<Vec<_>>(), vec![2]);
}

#[test]
fn blank_search_is_treated_as_no_filter() {
    let types = sample();
    let rows = filter_types(&types, "   ", CategoryFilter::All, ActiveFilter::All);
    assert_eq!(rows.len(), 3);
}

#[test]
fn no_match_returns_empty() {
    let types = sample();
    let rows = filter_types(&types, "nonexistent", CategoryFilter::All, ActiveFilter::All);
    assert!(rows.is_empty());
}

#[test]
fn reordered_ids_moves_middle_forward() {
    assert_eq!(reordered_ids(&[1, 2, 3, 4], 1, 2), vec![1, 3, 2, 4]);
}

#[test]
fn reordered_ids_moves_middle_backward() {
    assert_eq!(reordered_ids(&[1, 2, 3, 4], 2, 0), vec![3, 1, 2, 4]);
}

#[test]
fn reordered_ids_noop_when_from_equals_to() {
    assert_eq!(reordered_ids(&[1, 2, 3], 1, 1), vec![1, 2, 3]);
}

#[test]
fn reordered_ids_to_the_front() {
    assert_eq!(reordered_ids(&[1, 2, 3], 2, 0), vec![3, 1, 2]);
}

#[test]
fn reordered_ids_to_the_back() {
    assert_eq!(reordered_ids(&[1, 2, 3], 0, 2), vec![2, 3, 1]);
}

#[test]
fn reordered_ids_out_of_range_from_is_noop() {
    assert_eq!(reordered_ids(&[1, 2, 3], 9, 0), vec![1, 2, 3]);
}

#[test]
fn reordering_back_restores_the_order() {
    let there = reordered_ids(&[1, 2, 3, 4, 5], 1, 3);
    assert_eq!(reordered_ids(&there, 3, 1), vec![1, 2, 3, 4, 5]);
    assert_eq!(reordered_ids(&[1, 2, 3], 0, 99), vec![2, 3, 1]);
}

#[test]
fn aggregate_categories_counts_types_and_sums_tallies_per_category() {
    let categories = vec![cat(10, "SAKTI"), cat(20, "DIGIPAY")];
    let types = vec![
        ty(1, 10, "Rekonsiliasi", "", true),
        ty(2, 10, "Setoran", "", true),
        ty(3, 20, "Approval", "", true),
    ];
    let lifetime = vec![lt(1, 200), lt(2, 9), lt(3, 49)];
    let aggs = aggregate_categories(&categories, &types, &lifetime);
    assert_eq!(aggs.len(), 2);
    assert_eq!((aggs[0].id, aggs[0].type_count, aggs[0].tally_count), (10, 2, 209));
    assert_eq!((aggs[1].id, aggs[1].type_count, aggs[1].tally_count), (20, 1, 49));
}

#[test]
fn aggregate_categories_empty_category_has_zero_counts() {
    let categories = vec![cat(30, "DIGITALISASI")];
    let aggs = aggregate_categories(&categories, &[], &[]);
    assert_eq!((aggs[0].type_count, aggs[0].tally_count), (0, 0));
}

#[test]
fn pill_slots_shows_everything_when_it_fits() {
    let cats = vec![agg(1, "SAKTI", 5), agg(2, "DIGIPAY", 3)];
    let (visible, hidden) = pill_slots(&cats, 1, 5);
    assert_eq!(visible, vec![1, 2]);
    assert_eq!(hidden, 0);
}

#[test]
fn pill_slots_keeps_the_most_used_in_the_users_own_order() {
    let cats = vec![agg(1, "A", 1), agg(2, "B", 90), agg(3, "C", 50), agg(4, "D", 2)];
    let (visible, hidden) = pill_slots(&cats, 2, 2);
    assert_eq!(visible, vec![2, 3]);
    assert_eq!(hidden, 2);
}

#[test]
fn pill_slots_always_keeps_the_selected_one_even_when_unused() {
    let cats = vec![agg(1, "A", 90), agg(2, "B", 50), agg(3, "NEVER", 0)];
    let (visible, hidden) = pill_slots(&cats, 3, 2);
    assert_eq!(visible, vec![1, 2, 3]);
    assert_eq!(hidden, 0);
}

#[test]
fn pill_slots_ties_keep_the_users_order() {
    let cats = vec![agg(1, "A", 7), agg(2, "B", 7), agg(3, "C", 7)];
    let (visible, _) = pill_slots(&cats, 1, 2);
    assert_eq!(visible, vec![1, 2]);
}

#[test]
fn pill_slots_unknown_selection_is_not_invented() {
    let cats = vec![agg(1, "A", 5)];
    let (visible, hidden) = pill_slots(&cats, 999, 5);
    assert_eq!(visible, vec![1]);
    assert_eq!(hidden, 0);
}

#[test]
fn validate_type_name_clean_name_is_ok() {
    let types = sample();
    assert!(validate_type_name(&types, 10, "Brand New", None).is_ok());
}

#[test]
fn validate_type_name_exact_duplicate_in_same_category_is_blocked() {
    let types = sample();
    assert!(validate_type_name(&types, 10, "Rekonsiliasi", None).is_err());
}

#[test]
fn validate_type_name_ignores_the_case_of_every_letter() {
    let types = vec![ty(1, 10, "École", "", true), ty(2, 10, "ΔΟΣΗ", "", true)];
    assert!(validate_type_name(&types, 10, "école", None).is_err());
    assert!(validate_type_name(&types, 10, " ÉCOLE ", None).is_err());
    assert!(validate_type_name(&types, 10, "δοση", None).is_err());
    assert!(validate_type_name(&types, 10, "ecole", None).is_ok());
    assert!(validate_type_name(&types, 20, "école", None).is_ok());
    assert!(validate_type_name(&types, 10, "école", Some(1)).is_ok());
}

#[test]
fn validate_type_name_case_only_duplicate_is_blocked() {
    let types = sample();
    assert!(validate_type_name(&types, 10, "rekonsiliasi", None).is_err());
}

#[test]
fn validate_type_name_same_name_in_a_different_category_is_allowed() {
    let types = sample();
    assert!(validate_type_name(&types, 10, "Approval", None).is_ok());
}

#[test]
fn validate_type_name_editing_type_keeps_its_own_name() {
    let types = sample();
    assert!(validate_type_name(&types, 10, "Rekonsiliasi", Some(1)).is_ok());
}

#[test]
fn validate_type_name_empty_or_whitespace_name_is_blocked() {
    let types = sample();
    assert!(validate_type_name(&types, 10, "", None).is_err());
    assert!(validate_type_name(&types, 10, "   ", None).is_err());
}

#[test]
fn validate_type_name_says_why() {
    let types = sample();
    assert_eq!(validate_type_name(&types, 10, " ", None).unwrap_err(), "Name can't be empty.");
    assert_eq!(
        validate_type_name(&types, 10, " SETORAN ", None).unwrap_err(),
        "already has a type called Setoran. Names must be unique inside a category."
    );
}

#[test]
fn aggregate_categories_missing_lifetime_row_counts_as_zero() {
    let categories = vec![cat(10, "SAKTI")];
    let types = vec![ty(1, 10, "Rekonsiliasi", "", true)];
    let aggs = aggregate_categories(&categories, &types, &[]);
    assert_eq!((aggs[0].type_count, aggs[0].tally_count), (1, 0));
}

#[test]
fn sums_that_cannot_be_held_are_told_apart() {
    let types = vec![ty(1, 10, "a", "", true), ty(2, 10, "b", "", true)];
    let totals = vec![lt(1, i64::MAX), lt(2, 1)];
    assert_eq!(category_tallies(&types, &totals, 10), None);
    assert_eq!(category_tallies(&types, &totals, 20), Some(0));
    assert!(!check_aggregates(&[cat(10, "A")], &types, &totals));
    assert!(check_aggregates(&[cat(20, "B")], &types, &totals));
}

#[test]
fn picker_filters_by_part_of_the_name() {
    assert!(picker_shows("DIGIPAY", "pay"));
    assert!(picker_shows("DIGIPAY", ""));
    assert!(!picker_shows("DIGIPAY", "sakti"));
}

// --- the form ---

fn quiet(form: &TypeForm) -> FormFrame {
    FormFrame {
        cancel: false,
        name: form.name.clone(),
        description: form.description.clone(),
        toggle_active: false,
        delete: false,
        save: false,
        enter: false,
        picker_filter: String::new(),
        picked: None,
        picker_closed: false,
    }
}

#[test]
fn a_new_type_is_created_under_a_valid_name() {
    let mut form = new_type_form(10);
    let mut f = quiet(&form);
    f.name = "  Baru ".to_string();
    f.save = true;
    match form.form_frame(f, &sample()) {
        FormRequest::Create { category_id, name, .. } => {
            assert_eq!((category_id, name.trim()), (10, "Baru"))
        }
        other => panic!("{other:?}"),
    }
    let mut f = quiet(&form);
    f.name = "setoran".to_string();
    f.save = true;
    assert!(matches!(form.form_frame(f, &sample()), FormRequest::Nothing));
    let mut f = quiet(&form);
    f.cancel = true;
    assert!(matches!(form.form_frame(f, &sample()), FormRequest::Close));
    assert!(PILL_TOP_N > 0);
}

#[test]
fn a_new_category_is_selected_once_it_exists() {
    let mut form = new_type_form(10);
    let frame = |text: &str, add: bool, new_pill: bool| CategoryFrame {
        pill: None,
        more: false,
        text: text.to_string(),
        add,
        discard: false,
        new_pill,
    };
    assert_eq!(form.category_frame(frame("", false, true)), None);
    assert!(form.new_category.is_some());
    assert_eq!(form.category_frame(frame(" BARU ", true, false)).as_deref().map(str::trim), Some("BARU"));
    form.new_category_reply(Err(err(ErrorKind::Duplicate, "UNIQUE")));
    assert!(form.new_category_error.is_some());
    form.new_category_reply(Ok(77));
    assert_eq!(form.category_id, 77);
    assert!(form.new_category.is_none());
}

#[test]
fn form_texts() {
    assert_eq!(preview_name("  "), "Type name");
    assert_eq!(preview_name(" Setoran "), "Setoran");
    assert!(usage_line(&usage(12)).contains("12"));
}

#[test]
fn deleting_does_what_was_chosen() {
    let mut d = load_delete_form(1, "Rekonsiliasi", usage(5), &sample(), &vec![cat(10, "SAKTI"), cat(20, "DIGIPAY")]);
    assert_eq!(d.others.len(), 2);
    assert_eq!(d.others[1].category, "DIGIPAY");
    let frame = |choose: Option<DeleteChoice>, target: Option<i64>, confirm: bool| DeleteFrame {
        choose,
        target,
        close: false,
        confirm,
    };
    assert_eq!(d.delete_frame(frame(None, None, true)), DeleteRequest::Deactivate { id: 1 });
    assert_eq!(d.delete_frame(frame(Some(DeleteChoice::Merge), None, true)), DeleteRequest::Nothing);
    assert!(!d.can_confirm());
    assert_eq!(
        d.delete_frame(frame(None, Some(3), true)),
        DeleteRequest::Merge { id: 1, target: 3 }
    );
    assert_eq!(
        d.delete_frame(frame(Some(DeleteChoice::Trash), None, true)),
        DeleteRequest::Trash { id: 1 }
    );
    let mut f = frame(None, None, true);
    f.close = true;
    assert_eq!(d.delete_frame(f), DeleteRequest::Close);
}

#[test]
fn deactivating_keeps_the_rest_of_a_type() {
    let w = deactivate_type(&sample(), 3).unwrap();
    assert_eq!((w.id, w.category_id, w.name.as_str(), w.is_active), (3, 20, "Approval", false));
    let e = deactivate_type(&sample(), 9).unwrap_err();
    assert_eq!((e.kind, e.message.as_str()), (ErrorKind::NotFound, "task type 9"));
}

// --- the screen ---

fn loaded() -> TypesState {
    let mut s = TypesState::new();
    s.accept_rows(Ok(TypeRows {
        categories: vec![cat(10, "SAKTI"), cat(20, "DIGIPAY")],
        types: sample(),
        totals: vec![lt(1, 200), lt(3, 49)],
    }));
    s
}

#[test]
fn clicks_on_a_row() {
    assert_eq!(row_click(true, true, true, false), RowClick::Toggle);
    assert_eq!(row_click(true, true, false, false), RowClick::OpenEdit);
    assert_eq!(row_click(false, true, false, true), RowClick::Select { ctrl: true });
    assert_eq!(row_click(false, false, false, false), RowClick::Nothing);
}

#[test]
fn ctrl_extends_the_selection() {
    let mut s = loaded();
    s.select(1, false);
    s.select(3, true);
    assert_eq!(s.selection.iter().copied().collect::<Vec<_>>(), vec![1, 3]);
    s.select(1, true);
    assert_eq!(s.selection.iter().copied().collect::<Vec<_>>(), vec![3]);
    s.select(2, false);
    assert_eq!(s.selection.iter().copied().collect::<Vec<_>>(), vec![2]);
    assert!(!s.selection_has_active());
}

#[test]
fn a_mixed_selection_is_deactivated() {
    let mut s = loaded();
    s.select(2, false);
    s.select(1, true);
    s.select(99, true);
    assert!(s.selection_has_active());
    let w = s.bulk_requests();
    let got: Vec<(i64, bool)> = w.iter().map(|w| (w.id, w.is_active)).collect();
    assert_eq!(got, vec![(1, false), (2, false)]);
    s.bulk_reply(vec![Ok(()), Err(err(ErrorKind::Io, "first")), Err(err(ErrorKind::Io, "second"))]);
    assert_eq!(s.notice.as_deref(), Some("first"));
    assert!(s.dirty);
}

#[test]
fn a_refused_flip_is_a_notice() {
    let mut s = loaded();
    let w = s.toggle_request(2).unwrap();
    assert!(w.is_active);
    assert!(s.toggle_request(9).is_none());
    s.toggle_reply(Err(err(ErrorKind::Other, "busy")));
    assert_eq!(s.notice.as_deref(), Some("busy"));
    assert!(!s.needs_rebuild());
    s.toggle_reply(Ok(()));
    assert_eq!(s.notice, None);
    assert!(s.needs_rebuild());
}

#[test]
fn a_failed_query_keeps_the_results() {
    let mut s = loaded();
    s.mark_dirty();
    s.accept_rows(Err(err(ErrorKind::Io, "gone")));
    assert_eq!(s.error.as_deref(), Some("gone"));
    assert!(s.view.is_some());
}

#[test]
fn dialogs_open_and_close() {
    let mut s = loaded();
    s.open_new();
    assert!(matches!(&s.modal, Modal::Edit(f) if f.target_id.is_none() && f.category_id == 10));
    s.save_reply(Err(err(ErrorKind::Duplicate, "UNIQUE")));
    assert!(matches!(&s.modal, Modal::Edit(f)
        if f.error.as_deref() == Some("a type with that name already exists in this category")));
    s.save_reply(Ok(()));
    assert!(matches!(s.modal, Modal::Closed));
    assert!(s.has_type(3) && !s.has_type(4));
    s.open_edit(3, Some(usage(49)), true);
    assert!(matches!(&s.modal, Modal::Edit(f) if f.target_id == Some(3) && f.name == "Approval"));
    s.reset_for_new_database();
    assert!(matches!(s.modal, Modal::Closed));
    assert!(s.selection.is_empty());
}

#[test]
fn import_reports_are_shown() {
    let report = CombinedReport {
        imported: 3,
        skipped_existing: 1,
        skipped_in_file: 0,
        skipped_malformed: 2,
        categories_created: 1,
        encoding: "windows-1252".to_string(),
    };
    let lines = report_lines(&report);
    assert_eq!(lines[0], "Imported: 3");
    assert_eq!(lines[3], "Malformed rows skipped: 2");
    assert_eq!(lines[5], "used windows-1252 encoding");
    let mut s = loaded();
    s.import_done(ImportOutcome::Report(report));
    assert!(matches!(s.modal, Modal::ImportReport(_)));
    assert!(s.dirty);
    s.import_done(ImportOutcome::Cancelled);
    assert!(matches!(s.modal, Modal::Closed));
}

// --- categories ---

#[test]
fn a_rename_is_saved_before_it_is_cancelled() {
    assert_eq!(rename_frame(true, true, true), RenameAction::Save);
    assert_eq!(rename_frame(true, false, false), RenameAction::Save);
    assert_eq!(rename_frame(false, true, false), RenameAction::Cancel);
    assert_eq!(rename_frame(false, false, true), RenameAction::Cancel);
    assert_eq!(rename_frame(false, false, false), RenameAction::Keep);
}

#[test]
fn the_header_counts_categories_and_types() {
    let mut m = dialog();
    assert_eq!(m.header().as_deref(), Some("3 categories \u{b7} 3 types"));
    m.rows[0].type_count = i64::MAX;
    assert_eq!(m.header(), None);
}

fn dialog() -> CategoriesModal {
    load_categories_modal(
        &vec![cat(10, "SAKTI"), cat(20, "DIGIPAY"), cat(30, "KOSONG")],
        &sample(),
        &vec![lt(1, 200), lt(3, 49)],
    )
}

#[test]
fn category_rows_carry_their_numbers() {
    let m = dialog();
    let got: Vec<(i64, i64, i64)> = m.rows.iter().map(|r| (r.id, r.type_count, r.tally_count)).collect();
    assert_eq!(got, vec![(10, 2, 200), (20, 1, 49), (30, 0, 0)]);
    assert_eq!(row_subtitle(1, 200), "1 type \u{b7} 200 tallies");
    assert_eq!(row_subtitle(0, 1), "0 types \u{b7} 1 tally");
}

#[test]
fn arrows_move_by_one() {
    assert_eq!(nudge_target(0, 3, true), None);
    assert_eq!(nudge_target(2, 3, false), None);
    assert_eq!(nudge_target(1, 3, true), Some(0));
    let m = dialog();
    assert_eq!(m.nudge(0, 1), Some(vec![20, 10, 30]));
    assert_eq!(m.nudge(0, 0), None);
}

#[test]
fn dragging_writes_only_a_changed_order() {
    let mut m = dialog();
    m.start_drag(10, 0);
    m.drag_to(2);
    m.drag_to(0);
    assert_eq!(m.end_drag(), None);
    m.start_drag(10, 0);
    m.drag_to(1);
    assert_eq!(m.end_drag(), Some(vec![20, 10, 30]));
    assert_eq!(
        m.accept(CategoryChange::Drag, Ok(())),
        Changes { data_changed: false, today_dirty: true }
    );
}

#[test]
fn renaming_one_row_closes_the_other() {
    let mut m = dialog();
    m.start_rename(10);
    m.start_rename(20);
    assert!(m.rows[0].rename.is_none());
    assert_eq!(m.rows[1].rename.as_ref().unwrap().buffer, "DIGIPAY");
    m.accept(CategoryChange::Rename { id: 20 }, Err(err(ErrorKind::Duplicate, "UNIQUE")));
    assert_eq!(
        m.rows[1].rename.as_ref().unwrap().error.as_deref(),
        Some("a category with that name already exists")
    );
    m.cancel_rename(20);
    assert!(m.rows[1].rename.is_none());
}

#[test]
fn refusals_are_put_into_words() {
    let mut m = dialog();
    let none = Changes { data_changed: false, today_dirty: false };
    assert_eq!(m.accept(CategoryChange::Delete, Err(err(ErrorKind::Conflict, "fk"))), none);
    assert_eq!(m.error.as_deref(), Some("move or remove its task types first"));
    assert_eq!(m.accept(CategoryChange::Create, Err(err(ErrorKind::Io, "disk full"))), none);
    assert_eq!(m.error.as_deref(), Some("disk full"));
    m.new_name = "BARU".to_string();
    m.reload(dialog());
    assert_eq!(m.new_name, "BARU");
    assert_eq!(m.error.as_deref(), Some("disk full"));
}

#[test]
fn a_full_category_moves_its_types_before_it_goes() {
    let mut m = dialog();
    assert!(matches!(m.remove(30), RemoveStep::Delete { id: 30 }));
    assert!(matches!(m.remove(99), RemoveStep::Nothing));
    assert!(matches!(m.remove(10), RemoveStep::LoadMove { id: 10, name } if name == "SAKTI"));
    m.open_move_dialog(10, "SAKTI", &sample(), &vec![lt(1, 200)]);
    let d = m.move_dialog.as_ref().unwrap();
    assert_eq!((d.type_count, d.tally_count, d.target, d.others.len()), (2, 200, 20, 2));
    m.choose_target(30);
    let d = m.move_dialog.as_ref().unwrap();
    let mut step = d.begin();
    let mut asked: Vec<String> = Vec::new();
    loop {
        match d.request(&step) {
            MoveRequest::Repoint(w) => asked.push(format!("{}->{}", w.id, w.category_id)),
            MoveRequest::Delete { category_id } => asked.push(format!("delete {category_id}")),
            MoveRequest::Stop => break,
        }
        step = d.next(step, Ok(()));
    }
    assert_eq!(asked, vec!["1->30", "2->30", "delete 10"]);
    assert!(matches!(step, MoveStep::Removed));
    m.finish_move(step);
    assert!(m.move_dialog.is_none());
}

#[test]
fn a_refused_move_stays_open() {
    let mut m = dialog();
    m.open_move_dialog(10, "SAKTI", &sample(), &vec![]);
    let d = m.move_dialog.as_ref().unwrap();
    let step = d.next(d.begin(), Err(err(ErrorKind::Duplicate, "name taken")));
    assert!(matches!(step, MoveStep::Refused(_)));
    m.finish_move(step);
    assert_eq!(m.move_dialog.as_ref().unwrap().error.as_deref(), Some("name taken"));
}

#[test]
fn category_changes_reach_the_today_screen() {
    let mut s = loaded();
    s.open_categories(Some(dialog()));
    assert!(matches!(s.modal, Modal::ManageCategories(_)));
    assert!(!s.take_categories_changed());
    s.end_categories_frame(Changes { data_changed: true, today_dirty: true }, false, Some(dialog()));
    assert!(matches!(s.modal, Modal::ManageCategories(_)));
    assert!(s.take_categories_changed());
    assert!(!s.take_categories_changed());
    s.end_categories_frame(Changes { data_changed: false, today_dirty: false }, true, None);
    assert!(matches!(s.modal, Modal::Closed));
    assert!(s.needs_rebuild());
}
