//! What is kept from one launch to the next, and when it is written.
use vstd::prelude::*;

use crate::dates::{self, Date};
use crate::service::settings::{self, Settings, SettingsData, WindowGeometry};
use crate::text;
use crate::ui::chrome::{self, Tab};
use crate::ui::insights::{self, InsightsData, InsightsState, RangeKind};
use crate::ui::theme::Mode;
use crate::ui::today::{CategoryFilter, TodayData, TodayState};

verus! {

/// What a launch takes from the settings.
#[derive(Debug)]
pub struct Restored {
    pub tab: Tab,
    pub filter: CategoryFilter,
    pub note_open: bool,
    pub range_kind: RangeKind,
    pub range_anchor: Date,
    pub custom_range_from: String,
    pub custom_range_to: String,
    /// The surroundings the user chose; `None` follows the system.
    pub theme_mode: Option<Mode>,
    pub selected_date: Date,
}

/// What a launch takes from the settings, as contracts speak of it.
#[verifier::ext_equal]
pub struct RestoredData {
    pub tab: Tab,
    pub filter: CategoryFilter,
    pub note_open: bool,
    pub range_kind: RangeKind,
    pub range_anchor: Date,
    pub custom_range_from: Seq<char>,
    pub custom_range_to: Seq<char>,
    pub theme_mode: Option<Mode>,
    pub selected_date: Date,
}

impl View for Restored {
    type V = RestoredData;

    open spec fn view(&self) -> RestoredData {
        RestoredData {
            tab: self.tab,
            filter: self.filter,
            note_open: self.note_open,
            range_kind: self.range_kind,
            range_anchor: self.range_anchor,
            custom_range_from: self.custom_range_from@,
            custom_range_to: self.custom_range_to@,
            theme_mode: self.theme_mode,
            selected_date: self.selected_date,
        }
    }
}

/// The surroundings a theme preference asks for.
pub open spec fn mode_of(theme: settings::Theme) -> Option<Mode> {
    match theme {
        settings::Theme::Light => Some(Mode::Light),
        settings::Theme::Dark => Some(Mode::Dark),
        settings::Theme::System => None,
    }
}

/// The category filter a setting stands for.
pub open spec fn filter_of(category: Option<i64>) -> CategoryFilter {
    match category {
        Some(id) => CategoryFilter::One(id),
        None => CategoryFilter::All,
    }
}

/// What a launch on `today` takes from the settings. `anchor` is the day the text of the range
/// anchor stands for, if it stands for one.
pub open spec fn restored_from(s: SettingsData, today: Date, anchor: Option<Date>) -> RestoredData {
    RestoredData {
        tab: chrome::tab_of(s.active_tab),
        filter: filter_of(s.selected_category),
        note_open: s.note_field_open,
        range_kind: insights::kind_of(s.range_kind),
        range_anchor: match (s.range_anchor, anchor) {
            (Some(_), Some(d)) => d,
            _ => today,
        },
        custom_range_from: match s.custom_range_from {
            Some(t) => t,
            None => dates::sql_text(today),
        },
        custom_range_to: match s.custom_range_to {
            Some(t) => t,
            None => dates::sql_text(today),
        },
        theme_mode: mode_of(s.theme),
        selected_date: today,
    }
}

fn kept_or_today(kept: &Option<String>, today: Date) -> (r: String)
    ensures
        r@ == (match text::optional(*kept) {
            Some(t) => t,
            None => dates::sql_text(today),
        }),
{
    match kept {
        Some(t) => t.clone(),
        None => dates::date_sql(today),
    }
}

/// What a launch on `today` takes from the settings. It always starts on today: a day carried
/// over from an earlier launch would put tallies on the wrong day unnoticed. Everything that
/// cannot be read falls back rather than failing.
pub fn restore_from_settings(s: &Settings, today: Date, anchor: Option<Date>) -> (r: Restored)
    ensures
        r@ == restored_from(s@, today, anchor),
{
    Restored {
        tab: Tab::from_str(s.active_tab.as_str()),
        filter: match s.selected_category {
            Some(id) => CategoryFilter::One(id),
            None => CategoryFilter::All,
        },
        note_open: s.note_field_open,
        range_kind: RangeKind::from_str(s.range_kind.as_str()),
        range_anchor: match (&s.range_anchor, anchor) {
            (Some(_), Some(d)) => d,
            _ => today,
        },
        custom_range_from: kept_or_today(&s.custom_range_from, today),
        custom_range_to: kept_or_today(&s.custom_range_to, today),
        theme_mode: match s.theme {
            settings::Theme::Light => Some(Mode::Light),
            settings::Theme::Dark => Some(Mode::Dark),
            settings::Theme::System => None,
        },
        selected_date: today,
    }
}

/// No launch resumes an earlier launch's day, whatever the settings say.
pub proof fn law_launch_starts_on_today(s: SettingsData, today: Date, anchor: Option<Date>)
    ensures
        restored_from(s, today, anchor).selected_date == today,
{
}

// --- writing ---

/// The preferences that no screen holds.
#[derive(Clone, Copy, Debug, PartialEq, Eq, Structural)]
pub struct Preferences {
    pub tab: Tab,
    pub theme: settings::Theme,
    /// The main window's place; `None` before there is one.
    pub geometry: Option<WindowGeometry>,
    pub hide_to_tray_notice_dismissed: bool,
    pub close_quits: bool,
}

/// The settings to keep of the state as it is. Only the version is taken over from `last`.
pub open spec fn snapshot(
    last: SettingsData,
    today: TodayData,
    insights: InsightsData,
    p: Preferences,
) -> SettingsData {
    SettingsData {
        version: last.version,
        selected_date: Some(dates::sql_text(today.selected_date)),
        selected_category: match today.filter {
            CategoryFilter::All => None,
            CategoryFilter::One(id) => Some(id),
        },
        theme: p.theme,
        range_kind: insights::kind_text(insights.kind),
        range_anchor: Some(dates::sql_text(insights.anchor)),
        custom_range_from: Some(insights.custom_from),
        custom_range_to: Some(insights.custom_to),
        active_tab: chrome::tab_text(p.tab),
        note_field_open: today.note_open,
        main_window_geometry: p.geometry,
        hide_to_tray_notice_dismissed: p.hide_to_tray_notice_dismissed,
        close_quits: p.close_quits,
    }
}

/// The settings to keep of the state as it is.
pub fn current_settings(
    last: &Settings,
    today: &TodayState,
    insights: &InsightsState,
    p: Preferences,
) -> (r: Settings)
    ensures
        r@ == snapshot(last@, today@, insights@, p),
{
    Settings {
        version: last.version,
        selected_date: Some(dates::date_sql(today.selected_date)),
        selected_category: match today.filter {
            CategoryFilter::All => None,
            CategoryFilter::One(id) => Some(id),
        },
        theme: p.theme,
        range_kind: insights.kind.as_str().to_owned(),
        range_anchor: Some(dates::date_sql(insights.anchor)),
        custom_range_from: Some(insights.custom_from.clone()),
        custom_range_to: Some(insights.custom_to.clone()),
        active_tab: p.tab.as_str().to_owned(),
        note_field_open: today.note_open,
        main_window_geometry: p.geometry,
        hide_to_tray_notice_dismissed: p.hide_to_tray_notice_dismissed,
        close_quits: p.close_quits,
    }
}

/// A launch takes up what the last one kept: the tab, the filter, the note field, the span and
/// the theme. Only the day starts anew. The anchor's text must be read back as the day it was
/// written for.
pub proof fn law_settings_round_trip(
    last: SettingsData,
    today: TodayData,
    insights: InsightsData,
    p: Preferences,
    next_day: Date,
)
    ensures
        ({
            let r = restored_from(
                snapshot(last, today, insights, p),
                next_day,
                Some(insights.anchor),
            );
            &&& r.tab == p.tab
            &&& r.filter == today.filter
            &&& r.note_open == today.note_open
            &&& r.range_kind == insights.kind
            &&& r.range_anchor == insights.anchor
            &&& r.custom_range_from == insights.custom_from
            &&& r.custom_range_to == insights.custom_to
            &&& r.theme_mode == mode_of(p.theme)
            &&& r.selected_date == next_day
        }),
{
    chrome::law_tab_round_trips(p.tab);
    insights::law_range_kind_round_trips(insights.kind);
}

/// The least time between two writes in nanoseconds: moving a window would ask for one every
/// frame.
pub const SAVE_THROTTLE: u64 = 2_000_000_000;

/// What is known of the settings file.
#[derive(Debug)]
pub struct SettingsSaver {
    /// What the file held after it was last read or written.
    pub last_saved: Settings,
    /// When it was last written, or writing it failed.
    pub last_save_at: u64,
    /// The failure that goes on has been reported.
    pub error_logged: bool,
}

/// What is known of the settings file, as contracts speak of it.
#[verifier::ext_equal]
pub struct SaverData {
    pub last_saved: SettingsData,
    pub last_save_at: u64,
    pub error_logged: bool,
}

impl View for SettingsSaver {
    type V = SaverData;

    open spec fn view(&self) -> SaverData {
        SaverData {
            last_saved: self.last_saved@,
            last_save_at: self.last_save_at,
            error_logged: self.error_logged,
        }
    }
}

impl SaverData {
    /// The settings are to be written: they differ from the file, and enough time has passed
    /// since it was last tried, or there is no time to wait.
    pub open spec fn wants(self, current: SettingsData, now: u64, flush: bool) -> bool {
        (flush || now - self.last_save_at >= SAVE_THROTTLE) && current != self.last_saved
    }

    /// After a write.
    pub open spec fn written(self, current: SettingsData, now: u64) -> SaverData {
        SaverData { last_saved: current, last_save_at: now, error_logged: false }
    }

    /// After a write that failed.
    pub open spec fn refused(self, now: u64) -> SaverData {
        SaverData { last_save_at: now, error_logged: true, ..self }
    }
}

impl SettingsSaver {
    /// The settings as they were read at `now`.
    pub fn new(loaded: Settings, now: u64) -> (r: SettingsSaver)
        ensures
            r@ == (SaverData { last_saved: loaded@, last_save_at: now, error_logged: false }),
    {
        SettingsSaver { last_saved: loaded, last_save_at: now, error_logged: false }
    }

    /// Whether the settings are to be written now. `flush` does not wait: it is for hiding the
    /// window and for quitting.
    pub fn wants_save(&self, current: &Settings, now: u64, flush: bool) -> (r: bool)
        ensures
            r == self@.wants(current@, now, flush),
    {
        let due = flush || (now >= self.last_save_at && now - self.last_save_at >= SAVE_THROTTLE);
        due && !current.same_as(&self.last_saved)
    }

    /// The settings were written.
    pub fn saved(&mut self, current: Settings, now: u64)
        ensures
            final(self)@ == old(self)@.written(current@, now),
    {
        self.last_saved = current;
        self.last_save_at = now;
        self.error_logged = false;
    }

    /// The settings could not be written. The time counts all the same, or a file that cannot be
    /// written would be tried every frame. The result says whether to report the failure: once
    /// for as long as it goes on.
    pub fn failed(&mut self, now: u64) -> (r: bool)
        ensures
            r == !old(self).error_logged,
            final(self)@ == old(self)@.refused(now),
    {
        let report = !self.error_logged;
        self.last_save_at = now;
        self.error_logged = true;
        report
    }
}

/// Two writes that do not flush are two seconds apart, whether or not the first one succeeded.
pub proof fn law_writes_are_throttled(
    s: SaverData,
    first: SettingsData,
    at: u64,
    second: SettingsData,
    now: u64,
)
    requires
        now < at + SAVE_THROTTLE,
    ensures
        !s.written(first, at).wants(second, now, false),
        !s.refused(at).wants(second, now, false),
{
}

/// What was written is not written again until it changes.
pub proof fn law_unchanged_settings_are_not_written(
    s: SaverData,
    current: SettingsData,
    at: u64,
    now: u64,
)
    ensures
        !s.written(current, at).wants(current, now, true),
{
}

/// What is kept is what there is: the day, the filter, the span and the note field of the screens
/// and every preference, under the version the file had.
pub proof fn law_everything_is_kept(
    last: SettingsData,
    today: TodayData,
    insights: InsightsData,
    p: Preferences,
)
    ensures
        ({
            let s = snapshot(last, today, insights, p);
            &&& s.version == last.version
            &&& s.selected_date == Some(dates::sql_text(today.selected_date))
            &&& today.filter == CategoryFilter::All ==> s.selected_category is None
            &&& today.filter matches CategoryFilter::One(id) ==> s.selected_category == Some(id)
            &&& s.theme == p.theme
            &&& s.range_anchor == Some(dates::sql_text(insights.anchor))
            &&& s.custom_range_from == Some(insights.custom_from)
            &&& s.custom_range_to == Some(insights.custom_to)
            &&& s.note_field_open == today.note_open
            &&& s.main_window_geometry == p.geometry
            &&& s.hide_to_tray_notice_dismissed == p.hide_to_tray_notice_dismissed
            &&& s.close_quits == p.close_quits
        }),
{
}

/// A launch without settings to take up starts on today throughout: the span is anchored there
/// and a custom span begins and ends there. An anchor that cannot be read counts as missing.
pub proof fn law_missing_settings_mean_today(s: SettingsData, today: Date, anchor: Option<Date>)
    ensures
        s.range_anchor is None || anchor is None ==> restored_from(s, today, anchor).range_anchor
            == today,
        s.range_anchor is Some && anchor is Some ==> restored_from(s, today, anchor).range_anchor
            == anchor->0,
        s.custom_range_from is None ==> restored_from(s, today, anchor).custom_range_from
            == dates::sql_text(today),
        s.custom_range_to is None ==> restored_from(s, today, anchor).custom_range_to
            == dates::sql_text(today),
        s.custom_range_from matches Some(t) ==> restored_from(s, today, anchor).custom_range_from
            == t,
        s.custom_range_to matches Some(t) ==> restored_from(s, today, anchor).custom_range_to == t,
        s.selected_category is None ==> restored_from(s, today, anchor).filter
            == CategoryFilter::All,
        s.selected_category matches Some(id) ==> restored_from(s, today, anchor).filter
            == CategoryFilter::One(id),
        restored_from(s, today, anchor).note_open == s.note_field_open,
{
}

/// A chosen theme is taken as it was chosen; otherwise the system decides.
pub proof fn law_theme_choice_is_taken()
    ensures
        mode_of(settings::Theme::Light) == Some(Mode::Light),
        mode_of(settings::Theme::Dark) == Some(Mode::Dark),
        mode_of(settings::Theme::System) is None,
{
}

/// Settings that have changed are written: at once where there is no time to wait, and otherwise
/// once two seconds have passed since the last try. Settings that have not changed never are.
pub proof fn law_changed_settings_are_written(s: SaverData, current: SettingsData, now: u64)
    ensures
        current != s.last_saved ==> s.wants(current, now, true),
        current != s.last_saved && now >= s.last_save_at + 2_000_000_000 ==> s.wants(
            current,
            now,
            false,
        ),
        now < s.last_save_at + 2_000_000_000 ==> !s.wants(current, now, false),
        !s.wants(s.last_saved, now, true),
        !s.wants(s.last_saved, now, false),
{
}

/// After a write the file is known to hold what was written and failures are reported again;
/// after a failed one it is known to hold what it held, so that the change is tried again later.
pub proof fn law_failed_writes_are_tried_again(s: SaverData, current: SettingsData, now: u64)
    ensures
        s.written(current, now).last_saved == current,
        s.written(current, now).last_save_at == now,
        !s.written(current, now).error_logged,
        s.refused(now).last_saved == s.last_saved,
        s.refused(now).last_save_at == now,
        s.refused(now).error_logged,
        current != s.last_saved ==> s.refused(now).wants(current, now, true),
{
}

} // verus!
