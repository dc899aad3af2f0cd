//! The import picker, the backup dialog, the tray notice, the colours and the widgets.
use simpletally::catalog::{Category, TaskType, TypeLifetimeTotal};
use simpletally::dates::{Date, DateTime};
use simpletally::error::{DbError, ErrorKind};
use simpletally::path::FilePath;
use simpletally::service::discovery::Probe;
use simpletally::ui::backup::{
    full_backup_filename, sum_totals, task_type_export_rows, task_types_filename, BackupState,
    Counts, Outcome as BackupOutcome,
};
use simpletally::ui::migrate::{
    human_size, imported_line, is_live_database, should_auto_open, Action, FoundFile,
    MigrateState, Outcome,
};
use simpletally::ui::theme::{resolve, Mode, SystemMode, Theme, RAMP};
use simpletally::ui::tray_notice::{self, NoticeFrame, TrayNoticeState};
use simpletally::ui::types_screen::TypeRows;
use simpletally::ui::widgets::{
    chart, check_shares, day_tip, more_label, pill_count, ratio_bar, selected_label, Chart,
};

fn path(s: &str) -> FilePath {
    FilePath { units: s.encode_utf16().collect() }
}

fn text_of(p: &FilePath) -> String {
    String::from_utf16(&p.units).unwrap()
}

fn probe(p: &str, canonical: Option<&str>) -> Probe {
    Probe { path: path(p), spelled: path(p), canonical: canonical.map(path) }
}

fn ts(year: i32, month: u32, day: u32, hour: u32, minute: u32, second: u32) -> DateTime {
    DateTime { date: Date { year, month, day }, hour, minute, second }
}

// --- the import picker ---

#[test]
fn created_empty_with_candidates_auto_opens() {
    assert!(should_auto_open(true));
}

#[test]
fn created_empty_without_candidates_auto_opens() {
    assert!(should_auto_open(true));
}

#[test]
fn not_created_empty_never_auto_opens() {
    assert!(!should_auto_open(false));
    assert!(!should_auto_open(false));
}

#[test]
fn different_files_are_not_the_live_database() {
    let live = probe("/d/task_tally.db", Some("/d/task_tally.db"));
    let other = probe("/d/other.db", Some("/d/other.db"));
    assert!(!is_live_database(&other, &live));
}

#[test]
fn same_file_reached_by_different_spelling_is_the_live_database() {
    let live = probe("/d/task_tally.db", Some("/d/task_tally.db"));
    let spelled = probe("/d/./task_tally.db", Some("/d/task_tally.db"));
    assert!(is_live_database(&spelled, &live));
    assert!(is_live_database(&live, &live));
}

#[test]
fn nonexistent_paths_fall_back_to_raw_comparison() {
    let live = probe("/d/task_tally.db", None);
    assert!(is_live_database(&live, &live));
    assert!(!is_live_database(&probe("/d/nope.db", None), &live));
    assert!(is_live_database(&probe("/d/task_tally.db", Some("/real/task_tally.db")), &live));
}

fn found() -> Vec<FoundFile> {
    vec![
        FoundFile { path: path("/a/task_tally.db"), size: Some(2048), modified: Some(ts(2026, 1, 5, 9, 5, 3)) },
        FoundFile { path: path("/b/task_tally.db"), size: Some(1024), modified: None },
        FoundFile { path: path("/c/task_tally.db"), size: None, modified: None },
    ]
}

#[test]
fn candidates_show_what_is_known() {
    let s = MigrateState::new(found());
    assert!(!s.visible);
    assert!(matches!(s.outcome, Outcome::Untried));
    let got: Vec<String> = s.candidates.iter().map(|c| c.detail()).collect();
    assert_eq!(got, vec!["2 KB \u{b7} 2026-01-05 09:05", "1 KB", ""]);
    assert_eq!(text_of(&s.candidates[0].path), "/a/task_tally.db");
}

#[test]
fn picking_the_live_database_is_refused() {
    let mut s = MigrateState::new(found());
    let live = probe("/live/task_tally.db", Some("/live/task_tally.db"));
    assert!(matches!(s.frame(Some(probe("/a/task_tally.db", None)), &live, false), Action::Nothing));
    s.open_for_first_run();
    assert!(s.visible);
    let same = probe("/live/../live/task_tally.db", Some("/live/task_tally.db"));
    assert!(matches!(s.frame(Some(same), &live, false), Action::Nothing));
    assert!(matches!(&s.outcome, Outcome::Refused(m) if m == "that's already this app's live database"));
    match s.frame(Some(probe("/a/task_tally.db", Some("/a/task_tally.db"))), &live, false) {
        Action::Import(p) => assert_eq!(text_of(&p), "/a/task_tally.db"),
        other => panic!("{other:?}"),
    }
    s.outcome = Outcome::Importing;
    assert!(matches!(s.frame(Some(probe("/a/task_tally.db", None)), &live, true), Action::Nothing));
    assert!(!s.visible);
    s.reopen(Vec::new());
    assert!(s.visible && s.candidates.is_empty());
    assert!(matches!(s.outcome, Outcome::Untried));
}

fn double_precision_size(bytes: u64) -> String {
    let kb = bytes as f64 / 1024.0;
    if kb < 1024.0 {
        format!("{kb:.0} KB")
    } else {
        format!("{:.1} MB", kb / 1024.0)
    }
}

#[test]
fn sizes_are_reckoned_in_double_precision() {
    let mut sizes: Vec<u64> = vec![
        0, 1, 511, 512, 513, 1023, 1024, 1535, 1536, 1537, 2560, 2561, 1_047_551, 1_047_552,
        1_048_064, 1_048_575, 1_048_576, 1_100_000, 1_101_005, 1_205_862, 1_310_720, 5_000_000,
        157_286_400, 4_294_967_295, u64::MAX, u64::MAX - 1023, u64::MAX - 1024, u64::MAX - 3072,
        (1 << 53) - 1, 1 << 53, (1 << 53) + 1, (1 << 53) + 3, (1 << 62) + 511, (1 << 62) + 512,
    ];
    let mut n: u64 = 1;
    for i in 0..400u64 {
        n = n.wrapping_mul(6364136223846793005).wrapping_add(1442695040888963407);
        sizes.push(n >> (i % 60));
    }
    for bytes in sizes {
        assert_eq!(human_size(bytes), double_precision_size(bytes), "{bytes}");
    }
    assert_eq!(human_size(157_286_400), "150.0 MB");
}

#[test]
fn imports_are_reported() {
    assert_eq!(imported_line(1, 1), "Imported 1 task type and 1 tally total.");
    assert_eq!(imported_line(12, 340), "Imported 12 task types and 340 tallys total.");
}

// --- backups ---

#[test]
fn task_types_filename_zero_pads_month_and_day() {
    assert_eq!(task_types_filename(ts(2026, 1, 5, 0, 0, 0)), "simpletally-task-types-20260105.csv");
}

#[test]
fn full_backup_filename_zero_pads_time() {
    assert_eq!(
        full_backup_filename(ts(2026, 1, 5, 9, 5, 3)),
        "task_tally_backup_20260105_090503.tally"
    );
}

#[test]
fn full_backup_filename_double_digit_time() {
    assert_eq!(
        full_backup_filename(ts(2026, 12, 31, 23, 59, 9)),
        "task_tally_backup_20261231_235909.tally"
    );
}

fn type_rows() -> TypeRows {
    let ty = |id: i64, category_id: i64, name: &str, is_active: bool| TaskType {
        id,
        category_id,
        name: name.to_string(),
        description: format!("about {name}"),
        is_active,
        created_at: String::new(),
    };
    TypeRows {
        categories: vec![Category { id: 10, name: "SAKTI".to_string() }],
        types: vec![ty(1, 10, "Rekonsiliasi", true), ty(2, 99, "Setoran", false)],
        totals: vec![
            TypeLifetimeTotal { task_type_id: 1, total: 3 },
            TypeLifetimeTotal { task_type_id: 1, total: 7 },
        ],
    }
}

#[test]
fn exported_types_carry_category_and_usage() {
    let rows = task_type_export_rows(&type_rows());
    let got: Vec<(&str, &str, &str, i64, bool)> = rows
        .iter()
        .map(|r| (r.category.as_str(), r.name.as_str(), r.description.as_str(), r.usage_count, r.is_active))
        .collect();
    assert_eq!(
        got,
        vec![
            ("SAKTI", "Rekonsiliasi", "about Rekonsiliasi", 7, true),
            ("", "Setoran", "about Setoran", 0, false),
        ]
    );
}

#[test]
fn the_backup_dialog_counts_what_there_is() {
    let mut s = BackupState::new();
    assert!(!s.visible);
    s.open(Ok(type_rows()));
    assert_eq!(s.counts, Some(Counts { categories: 1, task_types: 2, tallies: 10 }));
    s.finished(Ok(path("/tmp/x.tally")));
    assert!(matches!(&s.outcome, Some(BackupOutcome::Wrote(p)) if text_of(p) == "/tmp/x.tally"));
    s.finished(Err("read-only".to_string()));
    assert!(matches!(&s.outcome, Some(BackupOutcome::Failed(e)) if e == "read-only"));
    s.close();
    assert!(!s.visible);
    s.open(Err(DbError { kind: ErrorKind::Io, message: "gone".to_string() }));
    assert!(s.visible && s.counts.is_none() && s.outcome.is_none());
    let over = vec![
        TypeLifetimeTotal { task_type_id: 1, total: i64::MAX },
        TypeLifetimeTotal { task_type_id: 2, total: 1 },
    ];
    assert_eq!(sum_totals(&over), None);
}

// --- the tray notice ---

#[test]
fn the_notice_remembers_what_was_ticked() {
    let mut s = TrayNoticeState::default();
    let frame = |switched: bool, ticked: bool, dismissed: bool| NoticeFrame { switched, ticked, dismissed };
    assert_eq!(s.frame(frame(false, true, true)), tray_notice::Action::Nothing);
    s.open(false);
    assert_eq!(s.button_label(), "Got it");
    assert_eq!(s.frame(frame(false, true, false)), tray_notice::Action::Nothing);
    assert!(s.dont_show_again);
    assert_eq!(
        s.frame(frame(false, false, true)),
        tray_notice::Action::Closed { remember: true, close_quits: false }
    );
    assert!(!s.visible);
}

#[test]
fn the_notice_stays_away_once_it_was_told_to() {
    let mut s = TrayNoticeState { visible: false, dont_show_again: true, close_quits: false };
    s.open(true);
    assert!(!s.visible && s.close_quits);
    s = TrayNoticeState { visible: true, dont_show_again: true, close_quits: false };
    s.open(false);
    assert!(s.visible);
}

#[test]
fn switching_to_quitting_withdraws_the_tick() {
    let mut s = TrayNoticeState { visible: true, dont_show_again: true, close_quits: false };
    s.frame(NoticeFrame { switched: true, ticked: false, dismissed: false });
    assert!(s.close_quits && !s.dont_show_again);
    assert_eq!(s.button_label(), "Quit SimpleTally");
    assert_eq!(s.switch_lines().0, "Close button exits the app");
    s.frame(NoticeFrame { switched: false, ticked: true, dismissed: false });
    assert!(!s.dont_show_again);
    s.frame(NoticeFrame { switched: true, ticked: false, dismissed: false });
    assert!(!s.close_quits && !s.dont_show_again);
    assert_eq!(s.switch_lines().0, "Close button minimises to tray");
}

// --- colours ---

#[test]
fn light_and_dark_are_constructible_and_differ() {
    let light = Theme::light();
    let dark = Theme::dark();
    assert_ne!(light.bg_canvas, dark.bg_canvas);
    assert_ne!(light.text_primary, dark.text_primary);
    assert_ne!(light.accent, dark.accent);
}

#[test]
fn resolve_honors_explicit_override() {
    let light = resolve(Some(Mode::Light), SystemMode::Dark);
    let dark = resolve(Some(Mode::Dark), SystemMode::Light);
    assert_eq!(light.bg_canvas, Theme::light().bg_canvas);
    assert_eq!(dark.bg_canvas, Theme::dark().bg_canvas);
}

#[test]
fn without_a_choice_the_system_decides() {
    assert!(resolve(None, SystemMode::Dark).is_dark());
    assert!(!resolve(None, SystemMode::Light).is_dark());
    assert!(!resolve(None, SystemMode::Unknown).is_dark());
}

#[test]
fn widgets_take_their_colours_from_the_theme() {
    let t = Theme::light();
    assert_eq!(t.bg_canvas, 0xFCFBF8);
    assert_eq!(t.ramp_color(0), RAMP[0]);
    assert_eq!(t.ramp_color(8), t.border_strong);
    assert_eq!(t.bar_color(0), t.border_subtle);
    assert_eq!(t.bar_color(17), t.accent_muted_bar);
    assert_eq!(t.bar_color(18), t.accent);
    assert_eq!(t.card_color(0, true), t.text_disabled);
    assert_eq!(t.card_color(1, true), t.accent);
    assert_eq!(t.card_color(1, false), t.text_primary);
    assert_eq!(t.rank_name_color(2), t.text_primary);
    assert_eq!(t.rank_name_color(3), t.text_secondary);
    assert_eq!(t.category_pill(true, true).border, t.pill_sel_border);
    assert_eq!(t.category_pill(false, true).border, t.accent_tint_border);
    assert_eq!(t.tile(1, false).fill, t.tile_active_bg);
    assert_eq!(t.tile(0, true).border, t.accent);
    assert_eq!(t.status_pill(true).tip, "click to deactivate");
    assert_eq!(t.status_pill(false).label, "Inactive");
}

// --- widgets ---

fn days(n: u32, count: i64) -> Vec<(Date, i64)> {
    (0..n).map(|i| (Date { year: 2026, month: 8, day: i % 31 + 1 }, count + i as i64)).collect()
}

#[test]
fn long_spans_are_drawn_as_a_line() {
    assert!(matches!(chart(&Vec::new()), Chart::Empty));
    assert!(matches!(chart(&days(31, 0)), Chart::Bars { peak: 30 }));
    assert!(matches!(chart(&days(1, -5)), Chart::Bars { peak: 1 }));
    assert!(matches!(chart(&days(32, 0)), Chart::Line { peak: 31, labels: [0, 16, 31] }));
}

#[test]
fn shares_make_a_bar() {
    let bar = ratio_bar(&vec![3, 0, 2]).unwrap();
    assert_eq!((bar.total, bar.segments), (5, 2));
    assert_eq!(ratio_bar(&vec![0, 0]), None);
    assert!(check_shares(&vec![1, 2]));
    assert!(!check_shares(&vec![i64::MAX, 1]));
}

#[test]
fn widget_texts() {
    assert_eq!(day_tip(Date { year: 2026, month: 8, day: 17 }, 5), "17 Aug \u{2014} 5");
    assert_eq!(pill_count(0), "\u{2014}");
    assert_eq!(pill_count(12), "12");
    assert_eq!(more_label(4), "more (4)");
    assert_eq!(selected_label(3), "3 selected");
}
