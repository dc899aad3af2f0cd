//! Changing entries on the Today screen: the edit dialog and the tally tiles.
use vstd::prelude::*;

use crate::catalog::DayLogRow;
use crate::dates::{self, Date};
use crate::error::DbError;
use crate::text;
use crate::ui::today::{EditData, EditForm, TileData, TodayData, TodayState};

verus! {

/// The `HH:MM` of a timestamp `YYYY-MM-DD HH:MM...`, or nothing where it has none.
pub open spec fn clock_of(created_at: Seq<char>) -> Seq<char> {
    match text::byte_range(created_at, 11, 16) {
        Some(t) => t,
        None => Seq::empty(),
    }
}

/// The `HH:MM` of a timestamp, or nothing where it has none.
pub fn clock(created_at: &str) -> (r: String)
    ensures
        r@ == clock_of(created_at@),
{
    match text::byte_slice(created_at, 11, 16) {
        Some(t) => t,
        None => String::new(),
    }
}

/// What happened in the edit dialog during one frame.
#[derive(Debug)]
pub struct EditFrame {
    /// The close button was clicked.
    pub close: bool,
    /// The "Change" link was clicked.
    pub toggle_picker: bool,
    /// A type was picked.
    pub choose: Option<i64>,
    pub minus: bool,
    pub plus: bool,
    /// What stands in the date field.
    pub date: String,
    /// The "Today" link beside the date was clicked.
    pub date_today: bool,
    /// What stands in the note field.
    pub notes: String,
    /// "Delete entry" was clicked.
    pub ask_delete: bool,
    pub save: bool,
    pub cancel: bool,
    /// The confirmation's "Delete" was clicked.
    pub delete: bool,
    /// The confirmation's "Keep it" was clicked.
    pub keep: bool,
    /// The confirmation was dismissed (click outside or Esc).
    pub confirm_dismissed: bool,
    /// The dialog was dismissed (click outside or Esc).
    pub dismissed: bool,
    pub up: bool,
    pub down: bool,
    pub enter: bool,
}

/// What the edit dialog asks the database for.
#[derive(Debug)]
pub enum EditRequest {
    Nothing,
    Delete { entry_id: i64 },
    Save { entry_id: i64, task_type_id: i64, date: String, count: i64, notes: String },
}

/// One less, but never below 1.
pub open spec fn stepped_down(count: int) -> int {
    if count <= 1 {
        1
    } else {
        count - 1
    }
}

/// The count after the clicks on the stepper.
pub open spec fn clicked_count(count: int, f: EditFrame) -> int {
    let c = if f.minus {
        stepped_down(count)
    } else {
        count
    };
    if f.plus {
        c + 1
    } else {
        c
    }
}

/// The count after the arrow keys.
pub open spec fn keyed_count(count: int, f: EditFrame) -> int {
    let c = if f.up {
        count + 1
    } else {
        count
    };
    if f.down {
        stepped_down(c)
    } else {
        c
    }
}

impl EditData {
    /// Whether the confirmation is shown on top of the dialog in this frame.
    pub open spec fn asks(self, f: EditFrame) -> bool {
        self.confirm_delete || f.ask_delete
    }

    /// The draft after one frame. The arrow keys reach the count only where no confirmation is
    /// shown.
    pub open spec fn after(self, f: EditFrame, today: Seq<char>) -> EditData {
        let clicked = clicked_count(self.count as int, f);
        EditData {
            task_type_id: match f.choose {
                Some(id) => id,
                None => self.task_type_id,
            },
            picking_type: self.picking_type != f.toggle_picker,
            count: (if self.asks(f) {
                clicked
            } else {
                keyed_count(clicked, f)
            }) as i64,
            date: if f.date_today {
                today
            } else {
                f.date@
            },
            notes: f.notes@,
            confirm_delete: self.asks(f) && !f.keep && !f.confirm_dismissed,
            ..self
        }
    }

    /// Whether the frame closes the dialog without saving.
    pub open spec fn cancelled(self, f: EditFrame) -> bool {
        f.close || f.cancel || (!self.asks(f) && f.dismissed)
    }

    pub open spec fn deletes(self, f: EditFrame) -> bool {
        !self.cancelled(f) && self.asks(f) && f.delete
    }

    pub open spec fn saves(self, f: EditFrame) -> bool {
        !self.cancelled(f) && !self.deletes(f) && (f.save || (!self.asks(f) && f.enter))
    }
}

/// Whether `r` asks for what the frame decided on `form`.
pub open spec fn is_request(r: EditRequest, form: EditData, f: EditFrame, today: Seq<char>) -> bool {
    let after = form.after(f, today);
    match r {
        EditRequest::Nothing => !form.deletes(f) && !form.saves(f),
        EditRequest::Delete { entry_id } => form.deletes(f) && entry_id == form.entry_id,
        EditRequest::Save { entry_id, task_type_id, date, count, notes } => {
            &&& form.saves(f)
            &&& entry_id == after.entry_id
            &&& task_type_id == after.task_type_id
            &&& date@ == after.date
            &&& count == after.count
            &&& notes@ == after.notes
        },
    }
}

fn step_down(count: i64) -> (r: i64)
    ensures
        r == stepped_down(count as int),
{
    if count <= 1 {
        1
    } else {
        count - 1
    }
}

fn count_after(count: i64, f: &EditFrame, asks: bool) -> (r: i64)
    requires
        count <= i64::MAX - 2,
    ensures
        r == (if asks {
            clicked_count(count as int, *f)
        } else {
            keyed_count(clicked_count(count as int, *f), *f)
        }),
{
    let mut c: i64 = count;
    if f.minus {
        c = step_down(c);
    }
    if f.plus {
        c = c + 1;
    }
    if !asks && f.up {
        c = c + 1;
    }
    if !asks && f.down {
        c = step_down(c);
    }
    c
}

fn frame_form(form: EditForm, f: EditFrame, today: Date) -> (r: EditForm)
    requires
        form.count <= i64::MAX - 2,
    ensures
        r@ == form@.after(f, dates::sql_text(today)),
{
    let asks = form.confirm_delete || f.ask_delete;
    let count: i64 = count_after(form.count, &f, asks);
    EditForm {
        entry_id: form.entry_id,
        task_type_id: match f.choose {
            Some(id) => id,
            None => form.task_type_id,
        },
        date: if f.date_today {
            dates::date_sql(today)
        } else {
            f.date
        },
        count,
        notes: f.notes,
        logged_at: form.logged_at,
        picking_type: form.picking_type != f.toggle_picker,
        confirm_delete: asks && !f.keep && !f.confirm_dismissed,
        error: form.error,
    }
}

impl TodayState {
    /// Opens the edit dialog on an entry of the selected day.
    pub fn open_edit(&mut self, row: &DayLogRow)
        ensures
            final(self)@ == (TodayData {
                editing: Some(
                    EditData {
                        entry_id: row.entry_id,
                        task_type_id: row.task_type_id,
                        date: dates::sql_text(old(self).selected_date),
                        count: row.count,
                        notes: row.notes@,
                        logged_at: clock_of(row.created_at@),
                        picking_type: false,
                        confirm_delete: false,
                        error: None,
                    },
                ),
                ..old(self)@
            }),
    {
        self.editing = Some(
            EditForm {
                entry_id: row.entry_id,
                task_type_id: row.task_type_id,
                date: dates::date_sql(self.selected_date),
                count: row.count,
                notes: row.notes.clone(),
                logged_at: clock(row.created_at.as_str()),
                picking_type: false,
                confirm_delete: false,
                error: None,
            },
        );
    }

    /// Whether the delete confirmation has to be shown on top of the dialog.
    pub fn confirming(&self, ask_delete: bool) -> (r: bool)
        ensures
            r == (self.editing matches Some(f) && (f.confirm_delete || ask_delete)),
    {
        match &self.editing {
            Some(f) => f.confirm_delete || ask_delete,
            None => false,
        }
    }

    /// Applies one frame of the edit dialog. Closing comes before deleting, and deleting before
    /// saving.
    pub fn edit_frame(&mut self, f: EditFrame, today: Date) -> (r: EditRequest)
        requires
            old(self).editing matches Some(form) ==> form.count <= i64::MAX - 2,
        ensures
            match old(self)@.editing {
                None => r == EditRequest::Nothing && final(self)@ == old(self)@,
                Some(form) => {
                    &&& is_request(r, form, f, dates::sql_text(today))
                    &&& final(self)@ == (TodayData {
                        editing: if form.cancelled(f) {
                            None
                        } else {
                            Some(form.after(f, dates::sql_text(today)))
                        },
                        ..old(self)@
                    })
                },
            },
    {
        let ghost before = self@;
        let form = match self.editing.take() {
            Some(form) => form,
            None => {
                return EditRequest::Nothing;
            },
        };
        let ghost was = form@;
        let asks = form.confirm_delete || f.ask_delete;
        let cancelled = f.close || f.cancel || (!asks && f.dismissed);
        let deletes = asks && f.delete;
        let saves = f.save || (!asks && f.enter);
        let form = frame_form(form, f, today);
        if cancelled {
            return EditRequest::Nothing;
        }
        let request = if deletes {
            EditRequest::Delete { entry_id: form.entry_id }
        } else if saves {
            EditRequest::Save {
                entry_id: form.entry_id,
                task_type_id: form.task_type_id,
                date: form.date.clone(),
                count: form.count,
                notes: form.notes.clone(),
            }
        } else {
            EditRequest::Nothing
        };
        self.editing = Some(form);
        request
    }

    /// Takes the database's answer to a delete or a save: the dialog closes, or it stays open
    /// and shows the failure.
    pub fn edit_reply(&mut self, answer: Result<(), DbError>)
        ensures
            final(self)@ == old(self)@.edited(answer),
    {
        match answer {
            Ok(_) => {
                self.editing = None;
                self.mark_dirty();
                self.data_changed = true;
            },
            Err(e) => {
                if let Some(mut form) = self.editing.take() {
                    form.confirm_delete = false;
                    form.error = Some(e.message);
                    self.editing = Some(form);
                }
            },
        }
    }
}

/// The question whether to delete an entry.
pub open spec fn delete_question_text(
    form: EditData,
    category: Seq<char>,
    name: Seq<char>,
) -> Seq<char> {
    text::decimal(form.count as int) + " tall"@ + (if form.count == 1 {
        "y"@
    } else {
        "ies"@
    }) + " of "@ + text::raised(category) + " \u{b7} "@ + name + " on "@ + form.date
        + ". This cannot be undone."@
}

/// The question whether to delete an entry.
pub fn delete_question(form: &EditForm, category: &str, name: &str) -> (r: String)
    ensures
        r@ == delete_question_text(form@, category@, name@),
{
    let mut s = String::new();
    text::push_decimal(&mut s, form.count);
    text::push_text(&mut s, " tall");
    text::push_text(
        &mut s,
        if form.count == 1 {
            "y"
        } else {
            "ies"
        },
    );
    text::push_text(&mut s, " of ");
    text::push_text(&mut s, text::raise(category).as_str());
    text::push_text(&mut s, " \u{b7} ");
    text::push_text(&mut s, name);
    text::push_text(&mut s, " on ");
    text::push_text(&mut s, form.date.as_str());
    text::push_text(&mut s, ". This cannot be undone.");
    assert(s@ =~= delete_question_text(form@, category@, name@));
    s
}

// --- tallying ---

/// A change to a type's tallies.
#[derive(Debug)]
pub enum Action {
    /// One more tally of a type.
    Add(i64, String),
    /// The most recent tally of a type goes.
    Remove(i64, String),
}

/// What a change asks the database for.
#[derive(Debug)]
pub enum TallyRequest {
    Add { type_id: i64, date: String, count: i64, note: String },
    RemoveMostRecent { type_id: i64, date: String },
}

/// What the database answers.
#[derive(Debug)]
pub enum TallyReply {
    Written,
    /// There was nothing to remove.
    NothingToRemove,
    Failed(DbError),
}

/// Whether the number keys tally: no tile was clicked, no dialog is open and no text field has
/// the focus.
pub open spec fn keys_tally(clicked: Option<Action>, s: TodayData, focused: bool) -> bool {
    clicked is None && s.editing is None && !focused
}

impl TodayState {
    /// The change of this frame: the clicked tile's, or that of the number key (`key` is 0 for
    /// the key 1) where the keys tally and there is such a tile.
    pub fn chosen_action(
        &self,
        clicked: Option<Action>,
        key: Option<usize>,
        focused: bool,
        tiles: &Vec<TileData>,
    ) -> (r: Option<Action>)
        ensures
            is_chosen(self@, clicked, key, focused, tiles@, r),
            r == (if keys_tally(clicked, self@, focused) && key is Some && key->0 < tiles@.len() {
                Some(Action::Add(tiles@[key->0 as int].type_id, tiles@[key->0 as int].name))
            } else {
                clicked
            }),
    {
        if clicked.is_none() && self.editing.is_none() && !focused {
            if let Some(n) = key {
                if n < tiles.len() {
                    return Some(Action::Add(tiles[n].type_id, tiles[n].name.clone()));
                }
            }
        }
        clicked
    }

    /// What a change asks the database for: the selected day, and for one more tally the
    /// pending note.
    pub fn tally_request(&self, action: &Action) -> (r: TallyRequest)
        ensures
            tally_asks(self@, *action, r),
            match (*action, r) {
                (
                    Action::Add(id, _),
                    TallyRequest::Add { type_id, date, count, note },
                ) => type_id == id && date@ == dates::sql_text(self.selected_date) && count == 1
                    && note@ == self.pending_note@,
                (
                    Action::Remove(id, _),
                    TallyRequest::RemoveMostRecent { type_id, date },
                ) => type_id == id && date@ == dates::sql_text(self.selected_date),
                _ => false,
            },
    {
        let date = dates::date_sql(self.selected_date);
        match action {
            Action::Add(id, _) => TallyRequest::Add {
                type_id: *id,
                date,
                count: 1,
                note: self.pending_note.clone(),
            },
            Action::Remove(id, _) => TallyRequest::RemoveMostRecent { type_id: *id, date },
        }
    }

    /// Takes the database's answer. The pending note is cleared only once a tally that carries
    /// it has been written.
    pub fn tally_reply(&mut self, action: Action, reply: TallyReply)
        ensures
            final(self)@ == old(self)@.tallied(action, reply),
    {
        match reply {
            TallyReply::Failed(e) => {
                self.error = Some(e.message);
            },
            TallyReply::NothingToRemove => {},
            TallyReply::Written => {
                let mut line = String::new();
                match action {
                    Action::Add(_, name) => {
                        self.pending_note = String::new();
                        text::push_text(&mut line, "logged ");
                        text::push_text(&mut line, name.as_str());
                        assert(line@ =~= "logged "@ + name@);
                    },
                    Action::Remove(_, name) => {
                        text::push_text(&mut line, "removed ");
                        text::push_text(&mut line, name.as_str());
                        assert(line@ =~= "removed "@ + name@);
                    },
                }
                self.last_action = Some(line);
                self.mark_dirty();
                self.data_changed = true;
            },
        }
    }
}

impl TodayData {
    /// The screen after the database has answered a delete or a save of the edit dialog.
    pub open spec fn edited(self, answer: Result<(), DbError>) -> TodayData {
        match answer {
            Ok(_) => TodayData { editing: None, dirty: true, data_changed: true, ..self },
            Err(e) => TodayData {
                editing: match self.editing {
                    Some(form) => Some(
                        EditData { confirm_delete: false, error: Some(e.message@), ..form },
                    ),
                    None => None,
                },
                ..self
            },
        }
    }

    /// The screen after the database has answered a change.
    pub open spec fn tallied(self, action: Action, reply: TallyReply) -> TodayData {
        match reply {
            TallyReply::Failed(e) => TodayData { error: Some(e.message@), ..self },
            TallyReply::NothingToRemove => self,
            TallyReply::Written => match action {
                Action::Add(_, name) => TodayData {
                    pending_note: Seq::empty(),
                    last_action: Some("logged "@ + name@),
                    dirty: true,
                    data_changed: true,
                    ..self
                },
                Action::Remove(_, name) => TodayData {
                    last_action: Some("removed "@ + name@),
                    dirty: true,
                    data_changed: true,
                    ..self
                },
            },
        }
    }
}

// --- laws ---

/// The count in the edit dialog never drops below 1, whatever is clicked or pressed.
pub proof fn law_count_stays_positive(form: EditData, f: EditFrame, today: Seq<char>)
    requires
        1 <= form.count <= i64::MAX - 2,
    ensures
        form.after(f, today).count >= 1,
{
}

/// Enter never deletes: a frame deletes only through the confirmation's own button, and only
/// while the confirmation is shown.
pub proof fn law_only_the_confirmation_deletes(form: EditData, f: EditFrame)
    requires
        form.deletes(f),
    ensures
        f.delete,
        form.confirm_delete || f.ask_delete,
        !form.saves(f),
{
}

/// The pending note is lost in no other way than by a tally that was written with it or by a
/// move to another date.
pub proof fn law_note_survives(s: TodayData, action: Action, reply: TallyReply, date: Date)
    ensures
        s.tallied(action, reply).pending_note != s.pending_note ==> action is Add
            && reply is Written,
        s.at_date(date).pending_note != s.pending_note ==> date != s.selected_date,
{
}

/// Every committed change is announced to the other screens and makes this one reload.
pub proof fn law_written_changes_are_announced(s: TodayData, action: Action)
    ensures
        s.tallied(action, TallyReply::Written).dirty,
        s.tallied(action, TallyReply::Written).data_changed,
        s.edited(Ok(())).dirty,
        s.edited(Ok(())).data_changed,
{
}

/// The draft takes what is entered: a type that is picked becomes its type, the date and the
/// note are what stands in their fields, and "Today" beats the date field. Without a pick the
/// type stays, and which entry is edited and when it was logged never changes.
pub proof fn law_draft_takes_what_is_entered(form: EditData, f: EditFrame, today: Seq<char>)
    ensures
        f.choose matches Some(id) ==> form.after(f, today).task_type_id == id,
        f.choose is None ==> form.after(f, today).task_type_id == form.task_type_id,
        f.date_today ==> form.after(f, today).date == today,
        !f.date_today ==> form.after(f, today).date == f.date@,
        form.after(f, today).notes == f.notes@,
        form.after(f, today).entry_id == form.entry_id,
        form.after(f, today).logged_at == form.logged_at,
        form.after(f, today).error == form.error,
        f.toggle_picker <==> form.after(f, today).picking_type != form.picking_type,
{
}

/// The stepper and the arrow keys change the count by one each, and leave it alone otherwise;
/// the keys do not reach it while the confirmation is shown.
pub proof fn law_count_follows_clicks_and_keys(form: EditData, f: EditFrame, today: Seq<char>)
    requires
        2 <= form.count <= i64::MAX - 2,
    ensures
        !f.minus && !f.plus && !f.up && !f.down ==> form.after(f, today).count == form.count,
        f.plus && !f.minus && !f.up && !f.down ==> form.after(f, today).count == form.count + 1,
        f.minus && !f.plus && !f.up && !f.down ==> form.after(f, today).count == form.count - 1,
        !f.minus && !f.plus && f.up && !f.down && !form.confirm_delete && !f.ask_delete
            ==> form.after(f, today).count == form.count + 1,
        !f.minus && !f.plus && !f.up && f.down && !form.confirm_delete && !f.ask_delete
            ==> form.after(f, today).count == form.count - 1,
        (form.confirm_delete || f.ask_delete) && !f.minus && !f.plus ==> form.after(
            f,
            today,
        ).count == form.count,
{
}

/// What is saved is what was entered: the entry that is edited, with the type that was picked in
/// the same frame or before, the date, the note and the count of the draft.
pub proof fn law_saved_entry_is_what_was_entered(
    form: EditData,
    f: EditFrame,
    today: Seq<char>,
    r: EditRequest,
)
    requires
        is_request(r, form, f, today),
        form.count <= i64::MAX - 2,
    ensures
        r matches EditRequest::Save { entry_id, task_type_id, date, count, notes } ==> {
            &&& entry_id == form.entry_id
            &&& f.choose matches Some(id) ==> task_type_id == id
            &&& f.choose is None ==> task_type_id == form.task_type_id
            &&& f.date_today ==> date@ == today
            &&& !f.date_today ==> date@ == f.date@
            &&& notes@ == f.notes@
            &&& count == form.after(f, today).count
            &&& !f.minus && !f.plus && !f.up && !f.down ==> count == form.count
        },
        r matches EditRequest::Delete { entry_id } ==> entry_id == form.entry_id,
{
}

/// What a frame asks for: closing or cancelling asks for nothing and comes first, the
/// confirmation's own button deletes, "Save" saves, and Enter saves where no confirmation is
/// shown. Nothing else is ever asked for.
pub proof fn law_frames_ask_for_what_was_clicked(
    form: EditData,
    f: EditFrame,
    today: Seq<char>,
    r: EditRequest,
)
    requires
        is_request(r, form, f, today),
    ensures
        f.close || f.cancel ==> r is Nothing,
        f.dismissed && !form.confirm_delete && !f.ask_delete ==> r is Nothing,
        r is Delete ==> f.delete,
        r is Save ==> f.save || f.enter,
        r is Save && (form.confirm_delete || f.ask_delete) ==> f.save,
        !f.close && !f.cancel && form.confirm_delete && f.delete ==> r is Delete,
        !f.close && !f.cancel && !f.dismissed && !f.delete && f.save ==> r is Save,
        !f.close && !f.cancel && !f.dismissed && !form.confirm_delete && !f.ask_delete && (f.enter
            || f.save) ==> r is Save,
{
}

/// The confirmation opens with "Delete entry" and stays until it is answered or dismissed.
pub proof fn law_confirmation_stays_until_answered(form: EditData, f: EditFrame, today: Seq<char>)
    ensures
        !form.confirm_delete && !f.ask_delete ==> !form.after(f, today).confirm_delete,
        f.keep || f.confirm_dismissed ==> !form.after(f, today).confirm_delete,
        (form.confirm_delete || f.ask_delete) && !f.keep && !f.confirm_dismissed ==> form.after(
            f,
            today,
        ).confirm_delete,
{
}

/// A refused change keeps the dialog open with the draft as it was and shows why; one that is
/// written closes it. Neither touches anything but the dialog and the marks for a reload.
pub proof fn law_refused_change_keeps_the_draft(s: TodayData, form: EditData, e: DbError)
    requires
        s.editing == Some(form),
    ensures
        s.edited(Ok(())).editing is None,
        s.edited(Err(e)).editing matches Some(g) && g.error == Some(e.message@) && g.entry_id
            == form.entry_id && g.task_type_id == form.task_type_id && g.date == form.date
            && g.count == form.count && g.notes == form.notes && !g.confirm_delete,
        s.edited(Err(e)).dirty == s.dirty,
        s.edited(Err(e)).data_changed == s.data_changed,
        s.edited(Ok(())).pending_note == s.pending_note,
        s.edited(Ok(())).selected_date == s.selected_date,
{
}

/// A tally that was written is announced by the name of its type, as logged or removed; one
/// more tally uses up the pending note, a removal does not. A failure is shown and changes
/// nothing else, and nothing happens where there was nothing to remove.
pub proof fn law_tallies_are_announced(s: TodayData, id: i64, name: String, e: DbError)
    ensures
        s.tallied(Action::Add(id, name), TallyReply::Written).last_action == Some(
            "logged "@ + name@,
        ),
        s.tallied(Action::Remove(id, name), TallyReply::Written).last_action == Some(
            "removed "@ + name@,
        ),
        s.tallied(Action::Add(id, name), TallyReply::Written).pending_note.len() == 0,
        s.tallied(Action::Remove(id, name), TallyReply::Written).pending_note == s.pending_note,
        s.tallied(Action::Add(id, name), TallyReply::Failed(e)) == (TodayData {
            error: Some(e.message@),
            ..s
        }),
        s.tallied(Action::Remove(id, name), TallyReply::Failed(e)) == (TodayData {
            error: Some(e.message@),
            ..s
        }),
        s.tallied(Action::Remove(id, name), TallyReply::NothingToRemove) == s,
{
}

/// The number keys tally only where nothing else takes them: no tile was clicked in the same
/// frame, the edit dialog is closed and no text field has the focus.
pub proof fn law_keys_tally_only_when_free(clicked: Option<Action>, s: TodayData, focused: bool)
    ensures
        keys_tally(clicked, s, focused) ==> clicked is None && s.editing is None && !focused,
        clicked is None && s.editing is None && !focused ==> keys_tally(clicked, s, focused),
{
}

/// The question before a deletion names the count, with its unit in the singular for one, the
/// category, the type and the date.
pub proof fn law_deletion_says_what_goes(form: EditData, category: Seq<char>, name: Seq<char>)
    ensures
        form.count == 1 ==> delete_question_text(form, category, name) =~= text::decimal(1)
            + " tall"@ + "y"@ + " of "@ + text::raised(category) + " \u{b7} "@ + name + " on "@
            + form.date + ". This cannot be undone."@,
        form.count != 1 ==> delete_question_text(form, category, name) =~= text::decimal(
            form.count as int,
        ) + " tall"@ + "ies"@ + " of "@ + text::raised(category) + " \u{b7} "@ + name + " on "@
            + form.date + ". This cannot be undone."@,
{
}

/// Whether `r` is what a change asks the database for.
pub open spec fn tally_asks(s: TodayData, action: Action, r: TallyRequest) -> bool {
    match action {
        Action::Add(id, _) => r matches TallyRequest::Add { type_id, date, count, note } && type_id
            == id && date@ == dates::sql_text(s.selected_date) && count == 1 && note@
            == s.pending_note,
        Action::Remove(id, _) => r matches TallyRequest::RemoveMostRecent { type_id, date }
            && type_id == id && date@ == dates::sql_text(s.selected_date),
    }
}

/// A click on a tile asks for one tally of its type on the day that is shown, with the note that
/// was entered; taking back asks for the newest tally of the type on that day.
pub proof fn law_changes_are_for_the_day_shown(
    s: TodayData,
    id: i64,
    name: String,
    r: TallyRequest,
)
    ensures
        tally_asks(s, Action::Add(id, name), r) ==> (r matches TallyRequest::Add {
            type_id,
            date,
            count,
            note,
        } && type_id == id && count == 1 && date@ == dates::sql_text(s.selected_date) && note@
            == s.pending_note),
        tally_asks(s, Action::Remove(id, name), r) ==> (
        r matches TallyRequest::RemoveMostRecent { type_id, date } && type_id == id && date@
            == dates::sql_text(s.selected_date)),
{
}

/// Whether `r` is what a frame does: what was clicked, or what a number key stands for.
pub open spec fn is_chosen(
    s: TodayData,
    clicked: Option<Action>,
    key: Option<usize>,
    focused: bool,
    tiles: Seq<TileData>,
    r: Option<Action>,
) -> bool {
    if keys_tally(clicked, s, focused) && key is Some && key->0 < tiles.len() {
        r == Some(Action::Add(tiles[key->0 as int].type_id, tiles[key->0 as int].name))
    } else {
        r == clicked
    }
}

/// A number key tallies the tile in its place, as long as there is one, nothing was clicked, no
/// dialog is open and no field has the focus. A click is done whatever key is pressed.
pub proof fn law_number_keys_stand_for_tiles(
    s: TodayData,
    clicked: Option<Action>,
    key: usize,
    focused: bool,
    tiles: Seq<TileData>,
    r: Option<Action>,
)
    requires
        is_chosen(s, clicked, Some(key), focused, tiles, r),
    ensures
        clicked is Some ==> r == clicked,
        clicked is None && s.editing is None && !focused && key < tiles.len() ==> (
        r matches Some(Action::Add(id, name)) && id == tiles[key as int].type_id && name
            == tiles[key as int].name),
        clicked is None && (s.editing is Some || focused || key >= tiles.len()) ==> r is None,
{
}

/// The time of an entry stands behind the ten characters of its date and one more, and is five
/// characters long.
pub proof fn law_clock_stands_behind_the_date(
    date: Seq<char>,
    sep: char,
    time: Seq<char>,
    rest: Seq<char>,
)
    requires
        date.len() == 10,
        time.len() == 5,
        text::all_ascii(date + seq![sep] + time + rest),
    ensures
        clock_of(date + seq![sep] + time + rest) == time,
{
    let s = date + seq![sep] + time + rest;
    text::law_ascii_bytes_are_characters(s, 11, 16);
    assert(s.subrange(11, 16) =~= time);
}

} // verus!
