//! The settings file: what it holds, what stands in for it when it cannot be read, and how it
//! is written so that an interruption never leaves a broken file.
use vstd::prelude::*;

use crate::error::DbError;
use crate::path::{self, FilePath};
use crate::text;

verus! {

/// Current schema version of the settings file.
pub const CURRENT_VERSION: u32 = 1;

/// User-facing color theme.
#[derive(Clone, Copy, Debug, PartialEq, Eq, Structural)]
pub enum Theme {
    Light,
    Dark,
    /// Follow the OS setting. Default.
    System,
}

impl Default for Theme {
    fn default() -> (r: Theme)
        ensures
            r == Theme::System,
    {
        Theme::System
    }
}

/// Saved main window position and size, in the pixels the windowing backend reports.
#[derive(Clone, Copy, Debug, PartialEq, Eq, Structural)]
pub struct WindowGeometry {
    pub x: i32,
    pub y: i32,
    pub width: u32,
    pub height: u32,
}

/// Everything that is kept across launches.
#[derive(Debug)]
pub struct Settings {
    /// Schema version of the file; current = [`CURRENT_VERSION`].
    pub version: u32,
    /// "YYYY-MM-DD"; kept for the file's sake only, a launch always starts on today.
    pub selected_date: Option<String>,
    /// Category id, or `None` for "All".
    pub selected_category: Option<i64>,
    pub theme: Theme,
    /// "week" | "month" | "quarter" | "year" | "custom".
    pub range_kind: String,
    /// "YYYY-MM-DD"; the date the range is computed relative to.
    pub range_anchor: Option<String>,
    /// "YYYY-MM-DD"; start of a custom range.
    pub custom_range_from: Option<String>,
    /// "YYYY-MM-DD"; end of a custom range.
    pub custom_range_to: Option<String>,
    /// "today" | "insights" | "types".
    pub active_tab: String,
    pub note_field_open: bool,
    /// `None` until the window has been shown and moved or resized at least once.
    pub main_window_geometry: Option<WindowGeometry>,
    /// Set once the user has asked not to be told again that closing hides to the tray.
    pub hide_to_tray_notice_dismissed: bool,
    /// When true, closing the window quits instead of hiding to the tray.
    pub close_quits: bool,
}

/// Settings as their contracts speak of them.
#[verifier::ext_equal]
pub struct SettingsData {
    pub version: u32,
    pub selected_date: Option<Seq<char>>,
    pub selected_category: Option<i64>,
    pub theme: Theme,
    pub range_kind: Seq<char>,
    pub range_anchor: Option<Seq<char>>,
    pub custom_range_from: Option<Seq<char>>,
    pub custom_range_to: Option<Seq<char>>,
    pub active_tab: Seq<char>,
    pub note_field_open: bool,
    pub main_window_geometry: Option<WindowGeometry>,
    pub hide_to_tray_notice_dismissed: bool,
    pub close_quits: bool,
}

impl View for Settings {
    type V = SettingsData;

    open spec fn view(&self) -> SettingsData {
        SettingsData {
            version: self.version,
            selected_date: text::optional(self.selected_date),
            selected_category: self.selected_category,
            theme: self.theme,
            range_kind: self.range_kind@,
            range_anchor: text::optional(self.range_anchor),
            custom_range_from: text::optional(self.custom_range_from),
            custom_range_to: text::optional(self.custom_range_to),
            active_tab: self.active_tab@,
            note_field_open: self.note_field_open,
            main_window_geometry: self.main_window_geometry,
            hide_to_tray_notice_dismissed: self.hide_to_tray_notice_dismissed,
            close_quits: self.close_quits,
        }
    }
}

/// The settings of a first launch.
pub open spec fn default_settings() -> SettingsData {
    SettingsData {
        version: CURRENT_VERSION,
        selected_date: None,
        selected_category: None,
        theme: Theme::System,
        range_kind: "week"@,
        range_anchor: None,
        custom_range_from: None,
        custom_range_to: None,
        active_tab: "today"@,
        note_field_open: false,
        main_window_geometry: None,
        hide_to_tray_notice_dismissed: false,
        close_quits: false,
    }
}

impl Default for Settings {
    fn default() -> (r: Settings)
        ensures
            r@ == default_settings(),
    {
        Settings {
            version: CURRENT_VERSION,
            selected_date: None,
            selected_category: None,
            theme: Theme::System,
            range_kind: "week".to_owned(),
            range_anchor: None,
            custom_range_from: None,
            custom_range_to: None,
            active_tab: "today".to_owned(),
            note_field_open: false,
            main_window_geometry: None,
            hide_to_tray_notice_dismissed: false,
            close_quits: false,
        }
    }
}

fn same_geometry(a: &Option<WindowGeometry>, b: &Option<WindowGeometry>) -> (r: bool)
    ensures
        r == (*a == *b),
{
    match (a, b) {
        (Some(x), Some(y)) => *x == *y,
        (None, None) => true,
        _ => false,
    }
}

fn same_id(a: Option<i64>, b: Option<i64>) -> (r: bool)
    ensures
        r == (a == b),
{
    match (a, b) {
        (Some(x), Some(y)) => x == y,
        (None, None) => true,
        _ => false,
    }
}

impl Settings {
    /// Whether two settings agree in every field.
    pub fn same_as(&self, other: &Settings) -> (r: bool)
        ensures
            r == (self@ == other@),
    {
        self.version == other.version && text::same_optional(
            &self.selected_date,
            &other.selected_date,
        ) && same_id(self.selected_category, other.selected_category) && self.theme == other.theme
            && text::same_text(self.range_kind.as_str(), other.range_kind.as_str())
            && text::same_optional(&self.range_anchor, &other.range_anchor) && text::same_optional(
            &self.custom_range_from,
            &other.custom_range_from,
        ) && text::same_optional(&self.custom_range_to, &other.custom_range_to) && text::same_text(
            self.active_tab.as_str(),
            other.active_tab.as_str(),
        ) && self.note_field_open == other.note_field_open && same_geometry(
            &self.main_window_geometry,
            &other.main_window_geometry,
        ) && self.hide_to_tray_notice_dismissed == other.hide_to_tray_notice_dismissed
            && self.close_quits == other.close_quits
    }
}

// --- loading ---

/// What came of reading the settings file.
#[derive(Debug)]
pub enum ReadOutcome {
    /// The file could not be read; the cause in words.
    Unreadable(String),
    /// The file was read but is not a settings file; the cause in words.
    Unparseable(String),
    Parsed(Settings),
}

/// The warning for a settings file that could not be used.
pub open spec fn load_warning(outcome: ReadOutcome, path: Seq<char>) -> Option<Seq<char>> {
    match outcome {
        ReadOutcome::Unreadable(why) => Some(
            "warning: could not read settings file "@ + path + ": "@ + why@ + "; using defaults"@,
        ),
        ReadOutcome::Unparseable(why) => Some(
            "warning: could not parse settings file "@ + path + ": "@ + why@ + "; using defaults"@,
        ),
        ReadOutcome::Parsed(_) => None,
    }
}

fn warning(start: &str, path: &str, why: &str) -> (r: String)
    ensures
        r@ == start@ + path@ + ": "@ + why@ + "; using defaults"@,
{
    let mut s = String::new();
    text::push_text(&mut s, start);
    text::push_text(&mut s, path);
    text::push_text(&mut s, ": ");
    text::push_text(&mut s, why);
    text::push_text(&mut s, "; using defaults");
    assert(s@ =~= start@ + path@ + ": "@ + why@ + "; using defaults"@);
    s
}

/// The settings to run with, and a warning where the file could not be used. There is no
/// failure: a missing or broken file gives the defaults.
pub fn load(outcome: ReadOutcome, path: &str) -> (r: (Settings, Option<String>))
    ensures
        r.0@ == (match outcome {
            ReadOutcome::Parsed(s) => s@,
            _ => default_settings(),
        }),
        text::optional(r.1) == load_warning(outcome, path@),
{
    match outcome {
        ReadOutcome::Parsed(s) => (s, None),
        ReadOutcome::Unreadable(why) => (
            Settings::default(),
            Some(warning("warning: could not read settings file ", path, why.as_str())),
        ),
        ReadOutcome::Unparseable(why) => (
            Settings::default(),
            Some(warning("warning: could not parse settings file ", path, why.as_str())),
        ),
    }
}

// --- saving ---

/// The file that is written first: `path` with `.tmp` behind it, so that it lies on the same
/// volume.
pub fn tmp_path_for(path: &FilePath) -> (r: FilePath)
    ensures
        r@ == path@ + path::ascii_units(".tmp"@),
{
    proof {
        reveal_strlit(".tmp");
    }
    path.with_suffix(".tmp")
}

/// What has to be done next to save the settings.
#[derive(Clone, Copy, Debug, PartialEq, Eq, Structural)]
pub enum SaveAction {
    /// Write the settings to the temporary file and sync it.
    WriteTemporary,
    /// Rename the temporary file over the settings file.
    Replace,
    /// Remove the temporary file; the outcome does not matter.
    DiscardTemporary,
    Stop,
}

/// Where saving stands.
#[derive(Debug)]
pub enum SaveStep {
    Write,
    Replace,
    /// Something failed; clear away the temporary file and report it.
    Clean(DbError),
    Over(Result<(), DbError>),
}

/// Where a save starts.
pub fn save() -> (r: SaveStep)
    ensures
        r == SaveStep::Write,
{
    SaveStep::Write
}

impl SaveStep {
    pub open spec fn requested(self) -> SaveAction {
        match self {
            SaveStep::Write => SaveAction::WriteTemporary,
            SaveStep::Replace => SaveAction::Replace,
            SaveStep::Clean(_) => SaveAction::DiscardTemporary,
            SaveStep::Over(_) => SaveAction::Stop,
        }
    }

    pub open spec fn successor(self, outcome: Result<(), DbError>) -> SaveStep {
        match (self, outcome) {
            (SaveStep::Write, Ok(_)) => SaveStep::Replace,
            (SaveStep::Write, Err(e)) => SaveStep::Clean(e),
            (SaveStep::Replace, Ok(_)) => SaveStep::Over(Ok(())),
            (SaveStep::Replace, Err(e)) => SaveStep::Clean(e),
            (SaveStep::Clean(e), _) => SaveStep::Over(Err(e)),
            (SaveStep::Over(r), _) => SaveStep::Over(r),
        }
    }

    /// What the step asks for.
    pub fn action(&self) -> (r: SaveAction)
        ensures
            r == self.requested(),
    {
        match self {
            SaveStep::Write => SaveAction::WriteTemporary,
            SaveStep::Replace => SaveAction::Replace,
            SaveStep::Clean(_) => SaveAction::DiscardTemporary,
            SaveStep::Over(_) => SaveAction::Stop,
        }
    }

    /// The step after this one, given how its action went.
    pub fn next(self, outcome: Result<(), DbError>) -> (r: SaveStep)
        ensures
            r == self.successor(outcome),
    {
        match self {
            SaveStep::Write => match outcome {
                Ok(_) => SaveStep::Replace,
                Err(e) => SaveStep::Clean(e),
            },
            SaveStep::Replace => match outcome {
                Ok(_) => SaveStep::Over(Ok(())),
                Err(e) => SaveStep::Clean(e),
            },
            SaveStep::Clean(e) => SaveStep::Over(Err(e)),
            SaveStep::Over(r) => SaveStep::Over(r),
        }
    }
}

/// The two files of a save: the content of the settings file and of the temporary one.
pub struct SaveFiles {
    pub target: Option<int>,
    pub temporary: Option<int>,
}

/// `after` is what `action` may leave of `before` when the settings to save are `fresh`.
/// Writing may fail half way; renaming and removing happen or do not happen.
pub open spec fn save_effect(
    action: SaveAction,
    ok: bool,
    before: SaveFiles,
    after: SaveFiles,
    fresh: int,
) -> bool {
    match action {
        SaveAction::WriteTemporary => after.target == before.target && (ok ==> after.temporary
            == Some(fresh)),
        SaveAction::Replace => if ok {
            after == (SaveFiles { target: before.temporary, temporary: None })
        } else {
            after == before
        },
        SaveAction::DiscardTemporary => after == (SaveFiles {
            target: before.target,
            temporary: if ok {
                None
            } else {
                before.temporary
            },
        }),
        SaveAction::Stop => after == before,
    }
}

/// What holds of the files when a save has come to `step`.
pub open spec fn save_reached(
    step: SaveStep,
    files: SaveFiles,
    saved: Option<int>,
    fresh: int,
) -> bool {
    match step {
        SaveStep::Write => files.target == saved,
        SaveStep::Replace => files.target == saved && files.temporary == Some(fresh),
        SaveStep::Clean(_) => files.target == saved,
        SaveStep::Over(r) => match r {
            Ok(_) => files.target == Some(fresh) && files.temporary is None,
            Err(_) => files.target == saved,
        },
    }
}

/// Saving is all or nothing: at every step the settings file holds the old settings or the
/// new ones whole. After a success it holds the new ones and no temporary file is left; after
/// a failure it holds the old ones.
pub proof fn law_saving_is_atomic(
    step: SaveStep,
    outcome: Result<(), DbError>,
    before: SaveFiles,
    after: SaveFiles,
    saved: Option<int>,
    fresh: int,
)
    requires
        save_reached(step, before, saved, fresh),
        save_effect(step.requested(), outcome is Ok, before, after, fresh),
    ensures
        save_reached(step.successor(outcome), after, saved, fresh),
        after.target == saved || after.target == Some(fresh),
        step is Clean && outcome is Ok ==> after.temporary is None,
{
}

/// A first launch starts on Today with the week's insights, follows the system's theme, and
/// neither quits on closing nor keeps the notice away.
pub proof fn law_first_launch_settings()
    ensures
        default_settings().version == 1,
        default_settings().active_tab == "today"@,
        default_settings().range_kind == "week"@,
        default_settings().theme == Theme::System,
        default_settings().selected_category is None,
        default_settings().range_anchor is None,
        default_settings().main_window_geometry is None,
        !default_settings().close_quits,
        !default_settings().hide_to_tray_notice_dismissed,
        !default_settings().note_field_open,
{
}

/// A file that was read gives no warning; one that could not be used gives one that names the
/// file and the cause and says which of the two it was.
pub proof fn law_warnings_name_file_and_cause(why: String, s: Settings, path: Seq<char>)
    ensures
        load_warning(ReadOutcome::Parsed(s), path) is None,
        load_warning(ReadOutcome::Unreadable(why), path) == Some(
            "warning: could not read settings file "@ + path + ": "@ + why@ + "; using defaults"@,
        ),
        load_warning(ReadOutcome::Unparseable(why), path) == Some(
            "warning: could not parse settings file "@ + path + ": "@ + why@ + "; using defaults"@,
        ),
{
}

/// A save writes the temporary file first and then puts it in place; a failure of either is
/// reported as it was, after the temporary file is cleared away.
pub proof fn law_saving_goes_in_order(e: DbError, cleared: Result<(), DbError>)
    ensures
        SaveStep::Write.requested() == SaveAction::WriteTemporary,
        SaveStep::Write.successor(Ok(())).requested() == SaveAction::Replace,
        SaveStep::Write.successor(Ok(())).successor(Ok(())) == SaveStep::Over(Ok(())),
        SaveStep::Write.successor(Err(e)).requested() == SaveAction::DiscardTemporary,
        SaveStep::Write.successor(Err(e)).successor(cleared) == SaveStep::Over(Err(e)),
        SaveStep::Write.successor(Ok(())).successor(Err(e)).requested()
            == SaveAction::DiscardTemporary,
        SaveStep::Write.successor(Ok(())).successor(Err(e)).successor(cleared) == SaveStep::Over(
            Err(e),
        ),
{
}

} // verus!
