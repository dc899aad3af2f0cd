//! The running program: every screen's state, and what closing, hotkeys, the tray and finished
//! work do to it.
use vstd::prelude::*;

use crate::dates::Date;
use crate::path::FilePath;
use crate::platform::event::ActivationTarget;
use crate::platform::geometry::{self, Rect};
use crate::platform::session::{self, Preferences, SaverData, SettingsSaver};
use crate::service::settings::{self, Settings, WindowGeometry};
use crate::ui::chrome::Tab;
use crate::ui::insights::{InsightsData, InsightsState};
use crate::ui::migrate::{self, FoundFile, MigrateState, Outcome};
use crate::ui::quickadd_state::{self, QuickAddState, QuickData};
use crate::ui::theme::{self, SystemMode, Theme};
use crate::ui::today::{TodayData, TodayState};
use crate::ui::tray_notice::{self, TrayNoticeState};
use crate::ui::types_screen::{ModalData, TypesData, TypesState};

verus! {

/// What was found before the program's state was set up.
#[derive(Debug)]
pub struct FirstRun {
    /// The live database was just created, and is empty.
    pub created_empty: bool,
    /// Databases that were found elsewhere.
    pub candidates: Vec<FoundFile>,
}

/// The state of the running program.
#[derive(Debug)]
pub struct Session {
    pub today: TodayState,
    pub insights: InsightsState,
    pub types: TypesState,
    pub tab: Tab,
    pub migrate: MigrateState,
    /// The picker of old databases opens with the first frame.
    pub auto_open_migrate: bool,
    pub theme: Theme,
    pub quickadd: QuickAddState,
    /// The window that was in front when the popup was summoned.
    pub prev_foreground: Option<isize>,
    /// A window is being painted. Showing the frame can deliver further events, and painting
    /// another window meanwhile would fail.
    pub painting: bool,
    /// What this launch is to show.
    pub startup: ActivationTarget,
    pub theme_pref: settings::Theme,
    pub saver: SettingsSaver,
    /// The saved place of the main window, until there is a window.
    pub pending_geometry: Option<WindowGeometry>,
    /// An import that was asked for in the frame before.
    pub pending_import: Option<FilePath>,
    pub tray_notice: TrayNoticeState,
    pub hide_to_tray_notice_dismissed: bool,
    pub close_quits: bool,
}

/// The state of the running program as contracts speak of it.
#[verifier::ext_equal]
pub struct SessionData {
    pub today: TodayData,
    pub insights: InsightsData,
    pub types: TypesData,
    pub tab: Tab,
    pub migrate: MigrateState,
    pub auto_open_migrate: bool,
    pub theme: Theme,
    pub quickadd: QuickData,
    pub prev_foreground: Option<isize>,
    pub painting: bool,
    pub startup: ActivationTarget,
    pub theme_pref: settings::Theme,
    pub saver: SaverData,
    pub pending_geometry: Option<WindowGeometry>,
    pub pending_import: Option<FilePath>,
    pub tray_notice: TrayNoticeState,
    pub hide_to_tray_notice_dismissed: bool,
    pub close_quits: bool,
}

impl View for Session {
    type V = SessionData;

    open spec fn view(&self) -> SessionData {
        SessionData {
            today: self.today@,
            insights: self.insights@,
            types: self.types@,
            tab: self.tab,
            migrate: self.migrate,
            auto_open_migrate: self.auto_open_migrate,
            theme: self.theme,
            quickadd: self.quickadd@,
            prev_foreground: self.prev_foreground,
            painting: self.painting,
            startup: self.startup,
            theme_pref: self.theme_pref,
            saver: self.saver@,
            pending_geometry: self.pending_geometry,
            pending_import: self.pending_import,
            tray_notice: self.tray_notice,
            hide_to_tray_notice_dismissed: self.hide_to_tray_notice_dismissed,
            close_quits: self.close_quits,
        }
    }
}

impl SessionData {
    /// The popup is summoned while `foreground` is in front: that window is remembered unless
    /// one is already, and the popup starts empty.
    pub open spec fn summoned(self, foreground: Option<isize>) -> SessionData {
        SessionData {
            prev_foreground: match self.prev_foreground {
                Some(w) => Some(w),
                None => foreground,
            },
            quickadd: QuickData { view: self.quickadd.view, ..QuickData::fresh() },
            ..self
        }
    }

    /// What closing a window comes to.
    pub open spec fn closing(self, window: ShellWindow) -> WindowAction {
        match window {
            ShellWindow::Popup => WindowAction::HidePopup,
            ShellWindow::Main => if self.close_quits {
                WindowAction::Quit
            } else if self.hide_to_tray_notice_dismissed || (self.tray_notice.dont_show_again
                && !self.tray_notice.visible) {
                WindowAction::HideMain
            } else {
                WindowAction::ShowNotice
            },
        }
    }

    /// The screens once what one of them has written is known to the others.
    pub open spec fn spread(self) -> SessionData {
        SessionData {
            types: TypesData { categories_changed: false, ..self.types },
            today: TodayData {
                dirty: self.today.dirty || self.types.categories_changed,
                data_changed: false,
                ..self.today
            },
            insights: if self.types.categories_changed || self.today.data_changed {
                self.insights.stale()
            } else {
                self.insights
            },
            ..self
        }
    }

    /// The screens after a frame of the popup.
    pub open spec fn after_popup(self, action: quickadd_state::Action) -> SessionData {
        if action is Logged {
            SessionData {
                today: TodayData { dirty: true, ..self.today },
                insights: self.insights.stale(),
                ..self
            }
        } else {
            self
        }
    }

    /// The notice is over: its choices are kept.
    pub open spec fn noticed(self, action: tray_notice::Action) -> SessionData {
        match action {
            tray_notice::Action::Nothing => self,
            tray_notice::Action::Closed { remember, close_quits } => SessionData {
                hide_to_tray_notice_dismissed: self.hide_to_tray_notice_dismissed || remember,
                close_quits,
                ..self
            },
        }
    }

    /// The import that was pending is handed out; the one asked for now waits in its place.
    pub open spec fn asked(self, action: migrate::Action) -> SessionData {
        match action {
            migrate::Action::Nothing => SessionData { pending_import: None, ..self },
            migrate::Action::Import(chosen) => SessionData {
                migrate: MigrateState { outcome: Outcome::Importing, ..self.migrate },
                pending_import: Some(chosen),
                ..self
            },
        }
    }

    /// The popup is hidden: no window is remembered any more, and the popup is emptied.
    pub open spec fn dismissed(self) -> SessionData {
        SessionData {
            prev_foreground: None,
            quickadd: QuickData { view: self.quickadd.view, ..QuickData::fresh() },
            ..self
        }
    }
}

/// A window of the program.
#[derive(Clone, Copy, Debug, PartialEq, Eq, Structural)]
pub enum ShellWindow {
    Main,
    Popup,
}

/// What becomes of the windows.
#[derive(Clone, Copy, Debug, PartialEq, Eq, Structural)]
pub enum WindowAction {
    Nothing,
    HideMain,
    HidePopup,
    /// Paint the main window, which now shows the notice.
    ShowNotice,
    Quit,
}

/// What becomes of the popup.
#[derive(Clone, Copy, Debug, PartialEq, Eq, Structural)]
pub enum PopupAction {
    Show,
    Hide,
}

impl Session {
    /// The state at launch: `loaded` are the settings as they were read at `now`, and `anchor` is
    /// the day the text of their range anchor stands for, if it stands for one.
    pub fn new(
        startup: ActivationTarget,
        first_run: FirstRun,
        loaded: Settings,
        anchor: Option<Date>,
        today: Date,
        system: SystemMode,
        now: u64,
    ) -> (r: Session)
        requires
            forall|i: int|
                0 <= i < first_run.candidates@.len() ==> (
                #[trigger] first_run.candidates@[i]).valid(),
        ensures
            ({
                let kept = session::restored_from(loaded@, today, anchor);
                r@ == (SessionData {
                    today: TodayData {
                        filter: kept.filter,
                        note_open: kept.note_open,
                        ..TodayData::fresh(today)
                    },
                    insights: InsightsData {
                        kind: kept.range_kind,
                        anchor: kept.range_anchor,
                        custom_from: kept.custom_range_from,
                        custom_to: kept.custom_range_to,
                        ..InsightsData::fresh(today)
                    },
                    types: TypesData::fresh(),
                    tab: kept.tab,
                    migrate: r.migrate,
                    auto_open_migrate: first_run.created_empty,
                    theme: match theme::effective_mode(kept.theme_mode, system) {
                        theme::Mode::Light => theme::light_theme(),
                        theme::Mode::Dark => theme::dark_theme(),
                    },
                    quickadd: QuickData::fresh(),
                    prev_foreground: None,
                    painting: false,
                    startup,
                    theme_pref: loaded.theme,
                    saver: SaverData { last_saved: loaded@, last_save_at: now, error_logged: false },
                    pending_geometry: loaded.main_window_geometry,
                    pending_import: None,
                    tray_notice: TrayNoticeState {
                        visible: false,
                        dont_show_again: false,
                        close_quits: false,
                    },
                    hide_to_tray_notice_dismissed: loaded.hide_to_tray_notice_dismissed,
                    close_quits: loaded.close_quits,
                })
            }),
            !r.migrate.visible,
            r.migrate.outcome is Untried,
            migrate::list_files(r.migrate.candidates@, first_run.candidates@),
    {
        let auto_open_migrate = migrate::should_auto_open(first_run.created_empty);
        let restored = session::restore_from_settings(&loaded, today, anchor);
        let mut today_state = TodayState::new(today);
        today_state.selected_date = restored.selected_date;
        today_state.filter = restored.filter;
        today_state.note_open = restored.note_open;
        let mut insights = InsightsState::new(today);
        insights.kind = restored.range_kind;
        insights.anchor = restored.range_anchor;
        insights.custom_from = restored.custom_range_from;
        insights.custom_to = restored.custom_range_to;
        let theme_pref = loaded.theme;
        let pending_geometry = loaded.main_window_geometry;
        let hide_to_tray_notice_dismissed = loaded.hide_to_tray_notice_dismissed;
        let close_quits = loaded.close_quits;
        Session {
            today: today_state,
            insights,
            types: TypesState::new(),
            tab: restored.tab,
            migrate: MigrateState::new(first_run.candidates),
            auto_open_migrate,
            theme: theme::resolve(restored.theme_mode, system),
            quickadd: QuickAddState::new(),
            prev_foreground: None,
            painting: false,
            startup,
            theme_pref,
            saver: SettingsSaver::new(loaded, now),
            pending_geometry,
            pending_import: None,
            tray_notice: TrayNoticeState {
                visible: false,
                dont_show_again: false,
                close_quits: false,
            },
            hide_to_tray_notice_dismissed,
            close_quits,
        }
    }

    /// The saved place of the main window, if it is still on a screen; it is asked for once.
    pub fn take_geometry(&mut self, monitors: &[Rect]) -> (r: Option<WindowGeometry>)
        ensures
            final(self)@ == (SessionData { pending_geometry: None, ..old(self)@ }),
            match old(self).pending_geometry {
                None => r is None,
                Some(g) => {
                    let saved = Rect { x: g.x, y: g.y, width: g.width, height: g.height };
                    r == (if monitors@.len() == 0 || exists|i: int|
                        0 <= i < monitors@.len() && saved.overlaps(#[trigger] monitors@[i]) {
                        Some(g)
                    } else {
                        None
                    })
                },
            },
    {
        let saved = self.pending_geometry;
        self.pending_geometry = None;
        match saved {
            Some(g) => {
                let rect = Rect { x: g.x, y: g.y, width: g.width, height: g.height };
                if geometry::geometry_fits_a_monitor(rect, monitors) {
                    Some(g)
                } else {
                    None
                }
            },
            None => None,
        }
    }

    /// Opens the picker of old databases where the launch asked for it.
    pub fn before_first_frame(&mut self)
        ensures
            final(self)@ == (SessionData { migrate: final(self).migrate, ..old(self)@ }),
            old(self).auto_open_migrate ==> final(self).migrate.visible && final(self).migrate.candidates == old(self).migrate.candidates && final(self).migrate.outcome is Untried,
            !old(self).auto_open_migrate ==> final(self).migrate == old(self).migrate,
    {
        if self.auto_open_migrate {
            self.migrate.open_for_first_run();
        }
    }

    // --- settings ---

    /// The settings to keep of the state as it is; `geometry` is the main window's place.
    pub fn current_settings(&self, geometry: Option<WindowGeometry>) -> (r: Settings)
        ensures
            r@ == session::snapshot(
                self.saver@.last_saved,
                self.today@,
                self.insights@,
                Preferences {
                    tab: self.tab,
                    theme: self.theme_pref,
                    geometry,
                    hide_to_tray_notice_dismissed: self.hide_to_tray_notice_dismissed,
                    close_quits: self.close_quits,
                },
            ),
    {
        session::current_settings(
            &self.saver.last_saved,
            &self.today,
            &self.insights,
            Preferences {
                tab: self.tab,
                theme: self.theme_pref,
                geometry,
                hide_to_tray_notice_dismissed: self.hide_to_tray_notice_dismissed,
                close_quits: self.close_quits,
            },
        )
    }

    // --- painting ---

    /// Whether a window may be painted now. If not, it is to be asked for again.
    pub fn begin_paint(&mut self) -> (r: bool)
        ensures
            r == !old(self).painting,
            final(self)@ == (SessionData { painting: true, ..old(self)@ }),
    {
        if self.painting {
            return false;
        }
        self.painting = true;
        true
    }

    /// The window has been painted.
    pub fn end_paint(&mut self)
        ensures
            final(self)@ == (SessionData { painting: false, ..old(self)@ }),
    {
        self.painting = false;
    }

    /// After a frame of the main window: what one screen has written, the others fetch anew
    /// when they are next shown. Categories show in both other screens, tallies in the insights.
    pub fn spread_changes(&mut self)
        ensures
            final(self)@ == old(self)@.spread(),
            final(self)@ == (SessionData {
                types: TypesData { categories_changed: false, ..old(self)@.types },
                today: TodayData {
                    dirty: old(self)@.today.dirty || old(self)@.types.categories_changed,
                    data_changed: false,
                    ..old(self)@.today
                },
                insights: if old(self)@.types.categories_changed || old(self)@.today.data_changed {
                    old(self)@.insights.stale()
                } else {
                    old(self)@.insights
                },
                ..old(self)@
            }),
    {
        if self.types.take_categories_changed() {
            self.today.mark_dirty();
            self.insights.mark_dirty();
        }
        if self.today.take_data_changed() {
            self.insights.mark_dirty();
        }
    }

    // --- closing ---

    /// A window is to be closed. The main window hides, or quits where the user chose that; until
    /// the user has asked not to be told again, a notice comes first. It is shown in the main
    /// window itself, which therefore hides only once the notice is dismissed.
    pub fn close_requested(&mut self, window: ShellWindow) -> (r: WindowAction)
        ensures
            r == old(self)@.closing(window),
            r == (match window {
                ShellWindow::Popup => WindowAction::HidePopup,
                ShellWindow::Main => if old(self).close_quits {
                    WindowAction::Quit
                } else if old(self).hide_to_tray_notice_dismissed
                    || old(self).tray_notice.dont_show_again && !old(self).tray_notice.visible {
                    WindowAction::HideMain
                } else {
                    WindowAction::ShowNotice
                },
            }),
            final(self)@ == (SessionData {
                tray_notice: if r == WindowAction::ShowNotice {
                    TrayNoticeState {
                        visible: true,
                        close_quits: false,
                        ..old(self).tray_notice
                    }
                } else {
                    old(self).tray_notice
                },
                ..old(self)@
            }),
    {
        match window {
            ShellWindow::Popup => WindowAction::HidePopup,
            ShellWindow::Main => if self.close_quits {
                WindowAction::Quit
            } else if self.hide_to_tray_notice_dismissed || self.tray_notice.dont_show_again
                && !self.tray_notice.visible {
                WindowAction::HideMain
            } else {
                self.tray_notice.open(self.close_quits);
                WindowAction::ShowNotice
            },
        }
    }

    /// What the notice concluded: its choices are kept, and the closing it was about is carried
    /// out as they say.
    pub fn notice_done(&mut self, action: tray_notice::Action) -> (r: WindowAction)
        ensures
            r == after_notice(action),
            final(self)@ == old(self)@.noticed(action),
    {
        match action {
            tray_notice::Action::Nothing => WindowAction::Nothing,
            tray_notice::Action::Closed { remember, close_quits } => {
                self.hide_to_tray_notice_dismissed = self.hide_to_tray_notice_dismissed || remember;
                self.close_quits = close_quits;
                if close_quits {
                    WindowAction::Quit
                } else {
                    WindowAction::HideMain
                }
            },
        }
    }

    // --- the popup ---

    /// The popup is summoned while `foreground` is in front. That window is remembered unless one
    /// is already, and the popup starts empty.
    pub fn summon_popup(&mut self, foreground: Option<isize>)
        ensures
            final(self)@ == old(self)@.summoned(foreground),
    {
        if self.prev_foreground.is_none() {
            self.prev_foreground = foreground;
        }
        self.quickadd.reset();
    }

    /// The popup is hidden. The result is the window to put in front again: the one that was
    /// there before, unless the user has chosen another by clicking away.
    pub fn dismiss_popup(&mut self, restore_focus: bool) -> (r: Option<isize>)
        ensures
            r == (if restore_focus {
                old(self).prev_foreground
            } else {
                None
            }),
            final(self)@ == old(self)@.dismissed(),
    {
        let prev = self.prev_foreground;
        self.prev_foreground = None;
        self.quickadd.reset();
        if restore_focus {
            prev
        } else {
            None
        }
    }

    /// After a frame of the popup: whether it is to be hidden. A tally that was written makes the
    /// other screens fetch their numbers anew.
    pub fn popup_done(&mut self, action: &quickadd_state::Action) -> (r: bool)
        ensures
            r == !(*action is Nothing),
            final(self)@ == old(self)@.after_popup(*action),
            final(self)@ == (if *action is Logged {
                SessionData {
                    today: TodayData { dirty: true, ..old(self)@.today },
                    insights: old(self)@.insights.stale(),
                    ..old(self)@
                }
            } else {
                old(self)@
            }),
    {
        match action {
            quickadd_state::Action::Nothing => false,
            quickadd_state::Action::Dismiss => true,
            quickadd_state::Action::Logged(_) => {
                self.today.mark_dirty();
                self.insights.mark_dirty();
                true
            },
        }
    }

    // --- importing ---

    /// An import was asked for. It starts after the next frame, so that the frame in between can
    /// say that it runs: the window does not respond until it is over.
    pub fn request_import(&mut self, chosen: FilePath)
        ensures
            final(self)@ == (SessionData {
                migrate: MigrateState { outcome: Outcome::Importing, ..old(self).migrate },
                pending_import: Some(chosen),
                ..old(self)@
            }),
    {
        self.migrate.outcome = Outcome::Importing;
        self.pending_import = Some(chosen);
    }

    /// The import to run after this frame, if one was asked for in the frame before.
    pub fn take_import(&mut self) -> (r: Option<FilePath>)
        ensures
            r == old(self).pending_import,
            final(self)@ == (SessionData { pending_import: None, ..old(self)@ }),
    {
        self.pending_import.take()
    }

    /// The end of a frame of the main window: what the window does now that the notice has
    /// concluded, the import to run, and whether another frame is due. The import to run is the
    /// one asked for in the frame before, which has said so on the screen; one asked for in this
    /// frame waits for the next.
    pub fn end_main_frame(
        &mut self,
        noticed: tray_notice::Action,
        asked: migrate::Action,
    ) -> (r: (WindowAction, Option<FilePath>, bool))
        ensures
            r.0 == after_notice(noticed),
            r.1 == old(self).pending_import,
            r.2 == (asked is Import),
            final(self).pending_import == (match asked {
                migrate::Action::Nothing => None,
                migrate::Action::Import(chosen) => Some(chosen),
            }),
            final(self)@ == old(self)@.noticed(noticed).asked(asked),
    {
        let action = self.notice_done(noticed);
        let due = self.take_import();
        match asked {
            migrate::Action::Nothing => (action, due, false),
            migrate::Action::Import(chosen) => {
                self.request_import(chosen);
                (action, due, true)
            },
        }
    }

    /// Starts every screen over for the database that was swapped in: an open dialog holds ids of
    /// the one that is gone.
    pub fn reset_screens(&mut self)
        ensures
            final(self)@ == (SessionData {
                today: TodayData {
                    editing: None,
                    pending_note: Seq::empty(),
                    last_action: None,
                    error: None,
                    dirty: true,
                    ..old(self)@.today
                },
                insights: InsightsData {
                    range_error: None,
                    error: None,
                    ..old(self)@.insights.stale()
                },
                types: TypesData {
                    modal: ModalData::Closed,
                    selection: Set::empty(),
                    notice: None,
                    error: None,
                    dirty: true,
                    ..old(self)@.types
                },
                ..old(self)@
            }),
    {
        self.today.reset_for_new_database();
        self.insights.reset_for_new_database();
        self.types.reset_for_new_database();
    }

    /// Shows what became of an import. One that waits already goes on being shown as running.
    pub fn import_done(&mut self, outcome: Outcome)
        ensures
            final(self)@ == (if old(self).pending_import is Some {
                old(self)@
            } else {
                SessionData {
                    migrate: MigrateState { outcome, ..old(self).migrate },
                    ..old(self)@
                }
            }),
    {
        if self.pending_import.is_none() {
            self.migrate.outcome = outcome;
        }
    }
}

/// What the main window does once the notice has concluded: it closes as the notice says.
pub open spec fn after_notice(action: tray_notice::Action) -> WindowAction {
    match action {
        tray_notice::Action::Nothing => WindowAction::Nothing,
        tray_notice::Action::Closed { close_quits, .. } => if close_quits {
            WindowAction::Quit
        } else {
            WindowAction::HideMain
        },
    }
}

/// The hotkey hides a popup that is in front, and brings any other to the front.
pub fn toggle_popup(visible: bool, focused: bool) -> (r: PopupAction)
    ensures
        r == hotkey_means(visible, focused),
        r == (if visible && focused {
            PopupAction::Hide
        } else {
            PopupAction::Show
        }),
{
    if visible && focused {
        PopupAction::Hide
    } else {
        PopupAction::Show
    }
}

/// Whether a hotkey event is a press of the registered hotkey.
pub fn is_summons(registered: Option<u32>, id: u32, pressed: bool) -> (r: bool)
    ensures
        r == summons(registered, id, pressed),
        r == (registered == Some(id) && pressed),
{
    match registered {
        Some(ours) => ours == id && pressed,
        None => false,
    }
}

/// A click on the tray icon.
#[derive(Clone, Copy, Debug, PartialEq, Eq, Structural)]
pub enum TrayClick {
    Single { left: bool, released: bool },
    Double { left: bool },
    Other,
}

/// Whether a click on the tray icon brings up the main window: a released single click or a
/// double click, with the left button.
pub fn surfaces_main(click: TrayClick) -> (r: bool)
    ensures
        r == brings_up_main(click),
        r == (click == (TrayClick::Single { left: true, released: true }) || click
            == (TrayClick::Double { left: true })),
{
    match click {
        TrayClick::Single { left, released } => left && released,
        TrayClick::Double { left } => left,
        TrayClick::Other => false,
    }
}

/// Dismissing the popup returns to the window that was in front when it was first summoned, however
/// often it was summoned since; and each summons from a hidden popup remembers anew.
pub proof fn law_focus_returns(s: SessionData, first: isize, again: Option<isize>)
    requires
        s.prev_foreground is None,
    ensures
        s.summoned(Some(first)).summoned(again).prev_foreground == Some(first),
        s.summoned(Some(first)).dismissed().summoned(again).prev_foreground == again,
{
}

/// An import is not picked twice: from the frame it is asked for until it is over the picker
/// takes no pick.
pub proof fn law_one_import_at_a_time(m: MigrateState)
    ensures
        !(MigrateState { outcome: Outcome::Importing, ..m }).picking(),
{
}

/// Closing the main window hides it to the tray, unless the user chose that it quits; a notice
/// comes first until the user has asked not to see it again. The popup only ever hides.
pub proof fn law_closing_hides_unless_told_to_quit(s: SessionData)
    ensures
        s.closing(ShellWindow::Popup) == WindowAction::HidePopup,
        s.closing(ShellWindow::Main) == WindowAction::Quit <==> s.close_quits,
        !s.close_quits && s.hide_to_tray_notice_dismissed ==> s.closing(ShellWindow::Main)
            == WindowAction::HideMain,
        !s.close_quits && !s.hide_to_tray_notice_dismissed && !s.tray_notice.dont_show_again
            ==> s.closing(ShellWindow::Main) == WindowAction::ShowNotice,
        s.closing(ShellWindow::Main) == WindowAction::Quit || s.closing(ShellWindow::Main)
            == WindowAction::HideMain || s.closing(ShellWindow::Main) == WindowAction::ShowNotice,
{
}

/// What the notice says is done and kept: the window quits or hides as chosen, the choice holds
/// for later, and a wish not to see the notice again is never taken back. Nothing else changes.
pub proof fn law_notice_is_followed(s: SessionData, remember: bool, close_quits: bool)
    ensures
        ({
            let action = tray_notice::Action::Closed { remember, close_quits };
            &&& close_quits ==> after_notice(action) == WindowAction::Quit
            &&& !close_quits ==> after_notice(action) == WindowAction::HideMain
            &&& s.noticed(action).close_quits == close_quits
            &&& remember ==> s.noticed(action).hide_to_tray_notice_dismissed
            &&& s.hide_to_tray_notice_dismissed ==> s.noticed(
                action,
            ).hide_to_tray_notice_dismissed
            &&& !remember ==> s.noticed(action).hide_to_tray_notice_dismissed
                == s.hide_to_tray_notice_dismissed
            &&& s.noticed(action).today == s.today
            &&& s.noticed(action).pending_import == s.pending_import
        }),
        after_notice(tray_notice::Action::Nothing) == WindowAction::Nothing,
        s.noticed(tray_notice::Action::Nothing) == s,
{
}

/// An import that is asked for is shown as running and waits; one that waited has been handed
/// out and waits no more.
pub proof fn law_asked_import_waits(s: SessionData, chosen: FilePath)
    ensures
        s.asked(migrate::Action::Import(chosen)).pending_import == Some(chosen),
        s.asked(migrate::Action::Import(chosen)).migrate.outcome is Importing,
        s.asked(migrate::Action::Import(chosen)).migrate.candidates == s.migrate.candidates,
        s.asked(migrate::Action::Nothing).pending_import is None,
        s.asked(migrate::Action::Nothing).migrate == s.migrate,
        s.asked(migrate::Action::Import(chosen)).today == s.today,
{
}

/// What one screen writes, the others fetch anew: changed categories reach Today and the
/// insights, changed tallies reach the insights, and a tally from the popup reaches both.
/// Without a change no screen is disturbed, and a change is spread once.
pub proof fn law_changes_reach_the_other_screens(s: SessionData, action: quickadd_state::Action)
    ensures
        s.types.categories_changed ==> s.spread().today.dirty && s.spread().insights
            == s.insights.stale(),
        s.today.data_changed ==> s.spread().insights == s.insights.stale(),
        s.today.dirty ==> s.spread().today.dirty,
        !s.types.categories_changed && !s.today.data_changed ==> s.spread().insights == s.insights
            && s.spread().today.dirty == s.today.dirty,
        !s.spread().types.categories_changed,
        !s.spread().today.data_changed,
        s.spread().spread() == s.spread(),
        s.spread().today.pending_note == s.today.pending_note,
        action is Logged ==> s.after_popup(action).today.dirty && s.after_popup(action).insights
            == s.insights.stale(),
        !(action is Logged) ==> s.after_popup(action) == s,
{
}

/// The popup always comes up empty, with its first row selected and its numbers to be fetched,
/// and nothing else is touched by summoning or dismissing it.
pub proof fn law_popup_comes_up_empty(s: SessionData, foreground: Option<isize>)
    ensures
        s.summoned(foreground).quickadd.query.len() == 0,
        s.summoned(foreground).quickadd.selected == 0,
        s.summoned(foreground).quickadd.dirty,
        s.summoned(foreground).quickadd.error is None,
        s.dismissed().quickadd.query.len() == 0,
        s.dismissed().prev_foreground is None,
        s.summoned(foreground).today == s.today,
        s.dismissed().today == s.today,
        s.prev_foreground is None ==> s.summoned(foreground).prev_foreground == foreground,
{
}

/// What the hotkey does to the popup.
pub open spec fn hotkey_means(visible: bool, focused: bool) -> PopupAction {
    if visible && focused {
        PopupAction::Hide
    } else {
        PopupAction::Show
    }
}

/// Whether a hotkey event is a press of the registered hotkey.
pub open spec fn summons(registered: Option<u32>, id: u32, pressed: bool) -> bool {
    registered == Some(id) && pressed
}

/// Whether a click on the tray icon brings up the main window.
pub open spec fn brings_up_main(click: TrayClick) -> bool {
    match click {
        TrayClick::Single { left, released } => left && released,
        TrayClick::Double { left } => left,
        TrayClick::Other => false,
    }
}

/// The hotkey hides the popup only where it is in front; a popup that is hidden or behind comes up.
/// Only a press of the registered hotkey counts, and no release.
pub proof fn law_hotkey_toggles_the_popup(id: u32, other: u32, visible: bool, focused: bool)
    ensures
        hotkey_means(true, true) == PopupAction::Hide,
        hotkey_means(false, focused) == PopupAction::Show,
        hotkey_means(visible, false) == PopupAction::Show,
        summons(Some(id), id, true),
        !summons(Some(id), id, false),
        id != other ==> !summons(Some(id), other, true),
        !summons(None, id, true),
{
}

/// The main window comes up with the left button alone: when a single click is let go, and with a
/// double click.
pub proof fn law_left_click_brings_up_the_window(left: bool, released: bool)
    ensures
        brings_up_main(TrayClick::Single { left: true, released: true }),
        brings_up_main(TrayClick::Double { left: true }),
        !brings_up_main(TrayClick::Single { left: false, released }),
        !brings_up_main(TrayClick::Single { left, released: false }),
        !brings_up_main(TrayClick::Double { left: false }),
        !brings_up_main(TrayClick::Other),
{
}

} // verus!
