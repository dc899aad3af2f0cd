//! Windows, screens, icons, running copies, and what is kept between launches.
use simpletally::dates::Date;
use simpletally::path::FilePath;
use simpletally::platform::event::{activation_of, ActivationTarget};
use simpletally::platform::geometry::{
    centered, geometry_fits_a_monitor, tool_window_style, Rect, WorkArea,
};
use simpletally::platform::icon::{decode, decode_bytes, github, largest_frame, picture, Rgba};
use simpletally::platform::import_run::{ImportAction, ImportReply, ImportStep};
use simpletally::platform::repaint::{about_to_wait, earlier_of, request, WindowClock, WindowPlan};
use simpletally::platform::session::{
    current_settings, restore_from_settings, Preferences, SettingsSaver, SAVE_THROTTLE,
};
use simpletally::platform::shell::{
    is_summons, surfaces_main, toggle_popup, FirstRun, PopupAction, Session, ShellWindow,
    TrayClick, WindowAction,
};
use simpletally::platform::single_instance::{
    elect, instance_id, instance_key, may_read, message, mutex_name, pipe_name, read_message,
    Connection, Election, LockOutcome, SignalStep, MAX_TRIES,
};
use simpletally::service::settings::{Settings, Theme, WindowGeometry};
use simpletally::ui::chrome::Tab;
use simpletally::ui::insights::{InsightsState, RangeKind};
use simpletally::ui::migrate::{self, Outcome};
use simpletally::ui::quickadd_state::Action as QuickAction;
use simpletally::ui::theme::{Mode, SystemMode};
use simpletally::ui::today::{CategoryFilter, TodayState};
use simpletally::ui::tray_notice;

fn d(year: i32, month: u32, day: u32) -> Date {
    Date { year, month, day }
}

fn r(x: i32, y: i32, width: u32, height: u32) -> Rect {
    Rect { x, y, width, height }
}

// --- what a launch takes from the settings ---

#[test]
fn selected_date_of_today_is_restored() {
    let today = d(2026, 9, 18);
    let mut s = Settings::default();
    s.selected_date = Some("2026-09-18".to_string());
    assert_eq!(restore_from_settings(&s, today, None).selected_date, today);
}

#[test]
fn selected_date_of_yesterday_falls_back_to_today() {
    let today = d(2026, 9, 18);
    let mut s = Settings::default();
    s.selected_date = Some("2026-09-17".to_string());
    assert_eq!(restore_from_settings(&s, today, None).selected_date, today);
}

#[test]
fn missing_or_garbage_selected_date_falls_back_to_today_without_panicking() {
    let today = d(2026, 9, 18);
    let mut s = Settings::default();
    s.selected_date = None;
    assert_eq!(restore_from_settings(&s, today, None).selected_date, today);

    s.selected_date = Some("not-a-date".to_string());
    assert_eq!(restore_from_settings(&s, today, None).selected_date, today);
}

#[test]
fn unknown_tab_and_range_kind_fall_back_to_defaults() {
    let today = d(2026, 9, 18);
    let mut s = Settings::default();
    s.active_tab = "made_up".to_string();
    s.range_kind = "made_up".to_string();
    s.range_anchor = Some("garbage".to_string());
    let r = restore_from_settings(&s, today, None);
    assert_eq!(r.tab, Tab::Today);
    assert_eq!(r.range_kind, RangeKind::Week);
    assert_eq!(r.range_anchor, today);
    assert_eq!(r.custom_range_from, "2026-09-18");
}

#[test]
fn category_filter_maps_none_to_all_and_some_to_one() {
    let today = d(2026, 9, 18);
    let mut s = Settings::default();
    s.selected_category = None;
    assert_eq!(restore_from_settings(&s, today, None).filter, CategoryFilter::All);
    s.selected_category = Some(42);
    assert_eq!(restore_from_settings(&s, today, None).filter, CategoryFilter::One(42));
}

#[test]
fn theme_maps_light_dark_to_some_and_system_to_none() {
    let today = d(2026, 9, 18);
    let mut s = Settings::default();
    s.theme = Theme::Light;
    assert_eq!(restore_from_settings(&s, today, None).theme_mode, Some(Mode::Light));
    s.theme = Theme::Dark;
    assert_eq!(restore_from_settings(&s, today, None).theme_mode, Some(Mode::Dark));
    s.theme = Theme::System;
    assert_eq!(restore_from_settings(&s, today, None).theme_mode, None);
}

#[test]
fn the_next_launch_takes_up_where_the_last_one_ended() {
    let mut today = TodayState::new(d(2026, 9, 1));
    today.filter = CategoryFilter::One(7);
    today.note_open = true;
    let mut insights = InsightsState::new(d(2026, 9, 1));
    insights.kind = RangeKind::Quarter;
    insights.anchor = d(2026, 3, 4);
    insights.custom_from = "2026-01-01".to_string();
    let p = Preferences {
        tab: Tab::Insights,
        theme: Theme::Dark,
        geometry: Some(WindowGeometry { x: 1, y: 2, width: 3, height: 4 }),
        hide_to_tray_notice_dismissed: true,
        close_quits: true,
    };
    let s = current_settings(&Settings::default(), &today, &insights, p);
    assert_eq!(s.selected_date.as_deref(), Some("2026-09-01"));
    assert_eq!(s.range_anchor.as_deref(), Some("2026-03-04"));
    assert!(s.close_quits && s.hide_to_tray_notice_dismissed);
    assert_eq!(s.main_window_geometry, p.geometry);
    let back = restore_from_settings(&s, d(2026, 9, 18), Some(d(2026, 3, 4)));
    assert_eq!(back.tab, Tab::Insights);
    assert_eq!(back.filter, CategoryFilter::One(7));
    assert!(back.note_open);
    assert_eq!((back.range_kind, back.range_anchor), (RangeKind::Quarter, d(2026, 3, 4)));
    assert_eq!(back.custom_range_from, "2026-01-01");
    assert_eq!(back.theme_mode, Some(Mode::Dark));
    assert_eq!(back.selected_date, d(2026, 9, 18));
}

#[test]
fn settings_are_written_at_most_every_two_seconds() {
    let mut saver = SettingsSaver::new(Settings::default(), 0);
    let mut s = Settings::default();
    assert!(!saver.wants_save(&s, SAVE_THROTTLE, true));
    s.note_field_open = true;
    assert!(!saver.wants_save(&s, SAVE_THROTTLE - 1, false));
    assert!(saver.wants_save(&s, SAVE_THROTTLE - 1, true));
    assert!(saver.wants_save(&s, SAVE_THROTTLE, false));
    assert!(saver.failed(10 * SAVE_THROTTLE));
    assert!(!saver.failed(11 * SAVE_THROTTLE));
    assert!(!saver.wants_save(&s, 12 * SAVE_THROTTLE - 1, false));
    assert!(saver.wants_save(&s, 12 * SAVE_THROTTLE, false));
    saver.saved(s, 12 * SAVE_THROTTLE);
    let mut same = Settings::default();
    same.note_field_open = true;
    assert!(!saver.wants_save(&same, 99 * SAVE_THROTTLE, true));
    assert!(saver.failed(13 * SAVE_THROTTLE));
}

// --- screens ---

#[test]
fn geometry_fully_inside_one_monitor_fits() {
    let saved = r(100, 100, 800, 600);
    let monitors = [r(0, 0, 1920, 1080)];
    assert!(geometry_fits_a_monitor(saved, &monitors));
}

#[test]
fn geometry_straddling_two_monitors_fits() {
    let saved = r(1800, 100, 400, 300);
    let monitors = [r(0, 0, 1920, 1080), r(1920, 0, 1920, 1080)];
    assert!(geometry_fits_a_monitor(saved, &monitors));
}

#[test]
fn geometry_entirely_offscreen_does_not_fit() {
    let saved = r(5000, 5000, 800, 600);
    let monitors = [r(0, 0, 1920, 1080)];
    assert!(!geometry_fits_a_monitor(saved, &monitors));
}

#[test]
fn empty_monitor_list_keeps_geometry_as_is() {
    let saved = r(5000, 5000, 800, 600);
    assert!(geometry_fits_a_monitor(saved, &[]));
}

#[test]
fn rectangles_at_the_edge_of_the_numbers() {
    let huge = r(i32::MAX, i32::MAX, u32::MAX, u32::MAX);
    assert_eq!(huge.right(), i32::MAX as i64 + u32::MAX as i64);
    assert!(huge.intersects(huge));
    assert!(!r(0, 0, 10, 10).intersects(r(10, 0, 10, 10)));
    assert!(!r(10, 0, 10, 10).intersects(r(0, 0, 10, 10)));
}

#[test]
fn popups_are_centred() {
    let work = WorkArea { left: 0, top: 0, right: 1920, bottom: 1040 };
    assert_eq!(centered(work, 600, 400), Some((660, 320)));
    assert_eq!(centered(work, 601, 401), Some((659, 319)));
    assert_eq!(centered(work, 1925, 400), Some((-2, 320)));
    assert_eq!(centered(work, u32::MAX, 400), None);
    let wide = WorkArea { left: i32::MIN, top: 0, right: i32::MAX, bottom: 1 };
    assert_eq!(centered(wide, 1, 1), None);
}

#[test]
fn tool_windows_stay_out_of_the_switcher() {
    assert_eq!(tool_window_style(0x40100, 0x80, 0x40000), 0x180);
}

// --- icons ---

fn bitmap(width: u32, bits: u16, colours: u32, table: &[[u8; 3]], rows: &[&[u8]], mask: &[&[u8]]) -> Vec<u8> {
    let mut v: Vec<u8> = Vec::new();
    v.extend(40u32.to_le_bytes());
    v.extend(width.to_le_bytes());
    v.extend((2 * rows.len() as u32).to_le_bytes());
    v.extend(1u16.to_le_bytes());
    v.extend(bits.to_le_bytes());
    v.extend([0u8; 16]);
    v.extend(colours.to_le_bytes());
    v.extend(0u32.to_le_bytes());
    for [red, green, blue] in table {
        v.extend([*blue, *green, *red, 0]);
    }
    for row in rows.iter().chain(mask) {
        v.extend(*row);
        while v.len() % 4 != 0 {
            v.push(0);
        }
    }
    v
}

fn icon_file(frames: &[(u8, u8, Vec<u8>)]) -> Vec<u8> {
    let mut v: Vec<u8> = vec![0, 0, 1, 0];
    v.extend((frames.len() as u16).to_le_bytes());
    let mut at = 6 + 16 * frames.len() as u32;
    for (width, height, data) in frames {
        v.extend([*width, *height, 0, 0, 1, 0, 1, 0]);
        v.extend((data.len() as u32).to_le_bytes());
        v.extend(at.to_le_bytes());
        at += data.len() as u32;
    }
    for (_, _, data) in frames {
        v.extend(data);
    }
    v
}

const TWO: [[u8; 3]; 2] = [[0x55, 0, 0x7f], [0xff, 0xff, 0xff]];

#[test]
fn the_largest_frame_is_decoded() {
    let small = bitmap(1, 1, 2, &TWO, &[&[0x00]], &[&[0x00]]);
    let large = bitmap(2, 1, 2, &TWO, &[&[0x80], &[0x40]], &[&[0x00], &[0x00]]);
    let p = decode(&icon_file(&[(2, 2, large), (1, 1, small)])).unwrap();
    assert_eq!((p.width, p.height), (2, 2));
    assert_eq!(
        p.pixels,
        vec![0x55, 0, 0x7f, 255, 255, 255, 255, 255, 255, 255, 255, 255, 0x55, 0, 0x7f, 255]
    );
}

#[test]
fn faulty_icon_files_are_named() {
    assert_eq!(decode(b"not an icon").unwrap_err(), "assets/icon.ico is not a valid ICO");
    assert_eq!(github(&icon_file(&[])).unwrap_err(), "assets/github.ico has no image entries");
    let torn = bitmap(2, 1, 2, &TWO, &[&[0x80], &[0x40]], &[]);
    assert_eq!(
        decode_bytes(&icon_file(&[(2, 2, torn)]), "x").unwrap_err(),
        "failed to decode icon frame"
    );
}

#[test]
fn a_short_colour_table_is_a_fault_only_where_it_is_outrun() {
    let tame = bitmap(2, 8, 2, &TWO, &[&[0, 1]], &[&[0x00]]);
    let p = decode_bytes(&icon_file(&[(2, 1, tame)]), "x").unwrap();
    assert_eq!(p.pixels[..4], [0x55, 0, 0x7f, 255]);
    let wild = bitmap(2, 8, 2, &TWO, &[&[0, 2]], &[&[0x00]]);
    assert_eq!(
        decode_bytes(&icon_file(&[(2, 1, wild)]), "x").unwrap_err(),
        "failed to decode icon frame"
    );
    let nibbles = bitmap(3, 4, 2, &TWO, &[&[0x01, 0x10]], &[&[0x00]]);
    assert!(decode_bytes(&icon_file(&[(3, 1, nibbles)]), "x").is_ok());
    let nibbles = bitmap(3, 4, 2, &TWO, &[&[0x01, 0x30]], &[&[0x00]]);
    assert!(decode_bytes(&icon_file(&[(3, 1, nibbles)]), "x").is_err());
    let bits = bitmap(9, 1, 1, &[[1, 2, 3]], &[&[0x00, 0x7f]], &[&[0x00, 0x00]]);
    assert!(decode_bytes(&icon_file(&[(9, 1, bits)]), "x").is_ok());
    let bits = bitmap(9, 1, 1, &[[1, 2, 3]], &[&[0x00, 0x80]], &[&[0x00, 0x00]]);
    assert!(decode_bytes(&icon_file(&[(9, 1, bits)]), "x").is_err());
}

#[test]
fn the_last_of_the_widest_frames_is_chosen() {
    assert_eq!(largest_frame(&vec![16, 48, 32, 48]), Some(3));
    assert_eq!(largest_frame(&vec![48]), Some(0));
    assert_eq!(largest_frame(&Vec::new()), None);
    let p = Rgba { pixels: vec![1, 2, 3, 4], width: 1, height: 1 };
    assert_eq!(picture(Some(vec![1]), Some(p), "x").unwrap().pixels, vec![1, 2, 3, 4]);
    assert!(picture(None, None, "x").is_err());
}

// --- running copies ---

#[test]
fn second_launches_are_understood() {
    for target in [ActivationTarget::Main, ActivationTarget::QuickAdd] {
        assert_eq!(read_message(&message(target)), Some(target));
    }
    assert_eq!(message(ActivationTarget::QuickAdd), [1, 1]);
    assert_eq!(read_message(&[1]), None);
    assert_eq!(read_message(&[2, 0]), None);
    assert_eq!(read_message(&[1, 9]), Some(ActivationTarget::Main));
    assert!(may_read(Connection::Closed) && may_read(Connection::AlreadyConnected));
    assert!(!may_read(Connection::Failed));
}

#[test]
fn only_a_taken_lock_makes_a_second_copy() {
    assert_eq!(elect(LockOutcome::Taken), Election::Secondary);
    for lock in [
        LockOutcome::Unavailable,
        LockOutcome::Acquired,
        LockOutcome::Abandoned,
        LockOutcome::Unclear,
    ] {
        assert_eq!(elect(lock), Election::Primary);
    }
}

#[test]
fn signalling_gives_up_after_ten_tries() {
    let mut step = SignalStep::first();
    let mut tries = 0;
    while let SignalStep::Try { .. } = step {
        tries += 1;
        step = step.next(if tries % 2 == 0 { None } else { Some(1) });
    }
    assert_eq!(step, SignalStep::GaveUp);
    assert_eq!(tries, 10);
    assert_eq!(MAX_TRIES, 10);
    assert_eq!(SignalStep::first().next(Some(2)), SignalStep::Delivered);
}

#[test]
fn installations_have_names_of_their_own() {
    assert_eq!(instance_key(Some("C:\\Apps\\\u{c4}")), "c:\\apps\\\u{e4}");
    assert_eq!(instance_key(None), "");
    let id = instance_id(0x1f);
    assert_eq!(id, "000000000000001f");
    assert_eq!(instance_id(u64::MAX), "ffffffffffffffff");
    let mut expected: Vec<u16> = "Global\\SimpleTally.000000000000001f".encode_utf16().collect();
    expected.push(0);
    assert_eq!(mutex_name(&id), expected);
    let mut expected: Vec<u16> = "\\\\.\\pipe\\SimpleTally.000000000000001f".encode_utf16().collect();
    expected.push(0);
    assert_eq!(pipe_name(&id), expected);
}

#[test]
fn launches_ask_for_the_popup_by_a_switch() {
    let args = |list: &[&str]| list.iter().map(|a| Some(a.to_string())).collect::<Vec<_>>();
    assert_eq!(activation_of(&args(&["app", "--quick-add"])), ActivationTarget::QuickAdd);
    assert_eq!(activation_of(&args(&["app", "--quick-adds"])), ActivationTarget::Main);
    assert_eq!(activation_of(&vec![None]), ActivationTarget::Main);
}

// --- painting ---

#[test]
fn the_earliest_wish_counts() {
    let w = WindowClock { visible: true, next_repaint: Some(50) };
    assert_eq!(request(w, 70, 60), WindowPlan { next_repaint: Some(50), redraw: false });
    assert_eq!(request(w, 20, 60), WindowPlan { next_repaint: Some(20), redraw: true });
    let hidden = WindowClock { visible: false, next_repaint: None };
    assert_eq!(request(hidden, 20, 60), WindowPlan { next_repaint: Some(20), redraw: false });
    assert_eq!(earlier_of(None, Some(3)), Some(3));
}

#[test]
fn waiting_wakes_up_for_the_next_wish() {
    let main = WindowClock { visible: true, next_repaint: Some(50) };
    let popup = WindowClock { visible: true, next_repaint: Some(80) };
    let plan = about_to_wait(Some(main), Some(popup), 60);
    assert_eq!(plan.main, Some(WindowPlan { next_repaint: None, redraw: true }));
    assert_eq!(plan.popup, Some(WindowPlan { next_repaint: Some(80), redraw: false }));
    assert_eq!(plan.wake, Some(80));
    let hidden = WindowClock { visible: false, next_repaint: Some(10) };
    let plan = about_to_wait(Some(hidden), None, 60);
    assert_eq!(plan.main, Some(WindowPlan { next_repaint: None, redraw: false }));
    assert_eq!(plan.wake, None);
}

// --- the running program ---

fn session(loaded: Settings, created_empty: bool) -> Session {
    Session::new(
        ActivationTarget::Main,
        FirstRun { created_empty, candidates: Vec::new() },
        loaded,
        None,
        d(2026, 9, 18),
        SystemMode::Dark,
        0,
    )
}

#[test]
fn a_first_launch_opens_the_picker() {
    let mut s = session(Settings::default(), true);
    assert!(s.theme.is_dark());
    s.before_first_frame();
    assert!(s.migrate.visible);
    let mut s = session(Settings::default(), false);
    s.before_first_frame();
    assert!(!s.migrate.visible);
}

#[test]
fn a_saved_place_is_used_once_and_only_on_a_screen() {
    let mut loaded = Settings::default();
    loaded.main_window_geometry = Some(WindowGeometry { x: 5000, y: 0, width: 10, height: 10 });
    let mut s = session(loaded, false);
    assert_eq!(s.take_geometry(&[r(0, 0, 1920, 1080)]), None);
    assert_eq!(s.take_geometry(&[]), None);
}

#[test]
fn closing_explains_itself_until_told_otherwise() {
    let mut s = session(Settings::default(), false);
    assert_eq!(s.close_requested(ShellWindow::Main), WindowAction::ShowNotice);
    assert!(s.tray_notice.visible);
    assert_eq!(s.notice_done(tray_notice::Action::Nothing), WindowAction::Nothing);
    let kept = tray_notice::Action::Closed { remember: true, close_quits: false };
    assert_eq!(s.notice_done(kept), WindowAction::HideMain);
    assert_eq!(s.close_requested(ShellWindow::Main), WindowAction::HideMain);
    let quits = tray_notice::Action::Closed { remember: false, close_quits: true };
    assert_eq!(s.notice_done(quits), WindowAction::Quit);
    assert!(s.hide_to_tray_notice_dismissed);
    assert_eq!(s.close_requested(ShellWindow::Main), WindowAction::Quit);
    assert_eq!(s.close_requested(ShellWindow::Popup), WindowAction::HidePopup);
    assert!(s.current_settings(None).close_quits);
}

#[test]
fn the_popup_gives_the_focus_back() {
    let mut s = session(Settings::default(), false);
    s.quickadd.query = "kons".to_string();
    s.summon_popup(Some(11));
    assert_eq!(s.quickadd.query, "");
    s.summon_popup(Some(22));
    assert_eq!(s.dismiss_popup(true), Some(11));
    s.summon_popup(Some(33));
    assert_eq!(s.dismiss_popup(false), None);
    assert_eq!(s.dismiss_popup(true), None);
    assert_eq!(toggle_popup(true, true), PopupAction::Hide);
    assert_eq!(toggle_popup(true, false), PopupAction::Show);
}

#[test]
fn writes_reach_the_other_screens() {
    let mut s = session(Settings::default(), false);
    s.today.dirty = false;
    s.insights.dirty = false;
    assert!(!s.popup_done(&QuickAction::Nothing));
    assert!(s.popup_done(&QuickAction::Dismiss));
    assert!(!s.today.dirty);
    assert!(s.popup_done(&QuickAction::Logged("+1 A".to_string())));
    assert!(s.today.dirty && s.insights.dirty);
    s.today.dirty = false;
    s.insights.dirty = false;
    s.today.data_changed = true;
    s.spread_changes();
    assert!(s.insights.dirty && !s.today.dirty && !s.today.data_changed);
    s.insights.dirty = false;
    s.types.categories_changed = true;
    s.spread_changes();
    assert!(s.insights.dirty && s.today.dirty);
}

#[test]
fn painting_is_not_entered_twice() {
    let mut s = session(Settings::default(), false);
    assert!(s.begin_paint());
    assert!(!s.begin_paint());
    s.end_paint();
    assert!(s.begin_paint());
}

#[test]
fn an_import_waits_for_a_frame() {
    let mut s = session(Settings::default(), false);
    assert!(s.take_import().is_none());
    s.request_import(FilePath { units: vec![65] });
    assert!(matches!(s.migrate.outcome, Outcome::Importing));
    assert_eq!(s.take_import().unwrap().units, vec![65]);
    assert!(s.take_import().is_none());
    s.reset_screens();
    s.import_done(Outcome::Imported { task_types: 1, total_tallies: 2 });
    assert!(matches!(s.migrate.outcome, Outcome::Imported { .. }));
}

#[test]
fn an_import_runs_in_the_frame_after_it_was_asked_for() {
    let nothing = tray_notice::Action::Nothing;
    let pick = |n: u16| migrate::Action::Import(FilePath { units: vec![n] });
    let mut s = session(Settings::default(), false);
    let (action, due, redraw) = s.end_main_frame(nothing, migrate::Action::Nothing);
    assert_eq!(action, WindowAction::Nothing);
    assert!(due.is_none() && !redraw);
    let (_, due, redraw) = s.end_main_frame(nothing, pick(65));
    assert!(due.is_none() && redraw);
    assert!(matches!(s.migrate.outcome, Outcome::Importing));
    let closed = tray_notice::Action::Closed { remember: true, close_quits: false };
    let (action, due, redraw) = s.end_main_frame(closed, migrate::Action::Nothing);
    assert_eq!(action, WindowAction::HideMain);
    assert_eq!(due.unwrap().units, vec![65]);
    assert!(!redraw && s.pending_import.is_none() && s.hide_to_tray_notice_dismissed);
    s.import_done(Outcome::Imported { task_types: 1, total_tallies: 2 });
    assert!(matches!(s.migrate.outcome, Outcome::Imported { .. }));
    s.end_main_frame(nothing, pick(66));
    let (_, due, redraw) = s.end_main_frame(nothing, pick(67));
    assert_eq!(due.unwrap().units, vec![66]);
    assert!(redraw);
    s.import_done(Outcome::Imported { task_types: 1, total_tallies: 2 });
    assert!(matches!(s.migrate.outcome, Outcome::Importing));
    assert_eq!(s.pending_import.unwrap().units, vec![67]);
}

fn run(fail_at: Option<ImportAction>) -> (Vec<ImportAction>, ImportStep) {
    let mut step = ImportStep::first();
    let mut done: Vec<ImportAction> = Vec::new();
    loop {
        let action = step.action();
        if action == ImportAction::Stop || action == ImportAction::GiveUp {
            return (done, step);
        }
        done.push(action);
        let reply = if fail_at == Some(action) {
            ImportReply::Failed("no".to_string())
        } else if action == ImportAction::Count {
            ImportReply::Counted { task_types: Some(3), total_tallies: None }
        } else {
            ImportReply::Done
        };
        step = step.next(reply);
    }
}

#[test]
fn an_import_always_opens_the_database_again() {
    let (done, end) = run(None);
    assert_eq!(
        done,
        vec![
            ImportAction::Locate,
            ImportAction::Release,
            ImportAction::Restore,
            ImportAction::Reopen,
            ImportAction::Count,
        ]
    );
    assert!(matches!(end, ImportStep::Over(Outcome::Imported { task_types: 3, total_tallies: 0 })));
    let (done, end) = run(Some(ImportAction::Restore));
    assert_eq!(done.last(), Some(&ImportAction::Reopen));
    assert!(matches!(end, ImportStep::Over(Outcome::Failed(e)) if e == "no"));
    let (done, end) = run(Some(ImportAction::Release));
    assert_eq!(done, vec![ImportAction::Locate, ImportAction::Release]);
    assert!(matches!(end, ImportStep::Over(Outcome::Failed(_))));
    let (_, end) = run(Some(ImportAction::Reopen));
    assert!(matches!(end, ImportStep::Lost(e) if e == "no"));
}

#[test]
fn tray_and_hotkey_events() {
    assert!(surfaces_main(TrayClick::Single { left: true, released: true }));
    assert!(!surfaces_main(TrayClick::Single { left: true, released: false }));
    assert!(surfaces_main(TrayClick::Double { left: true }));
    assert!(!surfaces_main(TrayClick::Double { left: false }));
    assert!(!surfaces_main(TrayClick::Other));
    assert!(is_summons(Some(5), 5, true));
    assert!(!is_summons(Some(5), 5, false));
    assert!(!is_summons(None, 5, true));
}
