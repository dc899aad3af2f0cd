//! The Today screen: daily tallying.
//!
//! Query results live in a [`DayView`] that is rebuilt only when the `dirty` flag is set, and
//! every change sets it. The pending note is cleared only after a write has been committed,
//! and is discarded when the date changes.
use vstd::prelude::*;

use crate::catalog::{self, Category, DayLogRow, DayTypeTotal, TaskType};
use crate::dates::{self, Date};
use crate::error::DbError;
use crate::text;
use std::collections::BTreeMap;

verus! {

/// Which category the tile grid is filtered to.
#[derive(Clone, Copy, Debug, PartialEq, Eq, Structural)]
pub enum CategoryFilter {
    All,
    One(i64),
}

impl CategoryFilter {
    /// Whether a task type of category `category_id` is shown.
    pub open spec fn shows(self, category_id: i64) -> bool {
        match self {
            CategoryFilter::All => true,
            CategoryFilter::One(id) => id == category_id,
        }
    }
}

/// The screen's state.
#[derive(Debug)]
pub struct TodayState {
    pub selected_date: Date,
    pub filter: CategoryFilter,
    pub note_open: bool,
    /// Collapses the day's log to its newest row.
    pub log_collapsed: bool,
    pub pending_note: String,
    pub last_action: Option<String>,
    /// The open edit dialog, if any.
    pub editing: Option<EditForm>,
    pub dirty: bool,
    /// Something was written that other screens show.
    pub data_changed: bool,
    pub view: Option<DayView>,
    pub error: Option<String>,
}

/// The draft in the edit dialog.
#[derive(Debug)]
pub struct EditForm {
    pub entry_id: i64,
    pub task_type_id: i64,
    pub date: String,
    pub count: i64,
    pub notes: String,
    /// `HH:MM` the entry was logged at.
    pub logged_at: String,
    /// The type picker is open.
    pub picking_type: bool,
    /// The question whether to delete is open.
    pub confirm_delete: bool,
    pub error: Option<String>,
}

/// What the database answers for one day.
#[derive(Debug)]
pub struct DayRows {
    pub categories: Vec<Category>,
    /// All active types.
    pub active_types: Vec<TaskType>,
    pub totals: Vec<DayTypeTotal>,
    pub day_total: i64,
    pub distinct_types: i64,
    /// The log, newest entry first.
    pub log: Vec<DayLogRow>,
}

/// The screen's query results.
#[derive(Debug)]
pub struct DayView {
    pub categories: Vec<Category>,
    /// Active types in the current filter, in display order.
    pub types: Vec<TaskType>,
    /// All active types, for the edit dialog's type picker.
    pub all_types: Vec<TaskType>,
    /// What each type was tallied on the selected day.
    pub day_counts: BTreeMap<i64, i64>,
    pub day_total: i64,
    pub distinct_types: i64,
    /// What each category was tallied on the selected day.
    pub category_day_counts: BTreeMap<i64, i64>,
    pub log: Vec<DayLogRow>,
}

/// The edit dialog's draft as contracts speak of it.
#[verifier::ext_equal]
pub struct EditData {
    pub entry_id: i64,
    pub task_type_id: i64,
    pub date: Seq<char>,
    pub count: i64,
    pub notes: Seq<char>,
    pub logged_at: Seq<char>,
    pub picking_type: bool,
    pub confirm_delete: bool,
    pub error: Option<Seq<char>>,
}

/// The screen's state as contracts speak of it.
#[verifier::ext_equal]
pub struct TodayData {
    pub selected_date: Date,
    pub filter: CategoryFilter,
    pub note_open: bool,
    pub log_collapsed: bool,
    pub pending_note: Seq<char>,
    pub last_action: Option<Seq<char>>,
    pub editing: Option<EditData>,
    pub dirty: bool,
    pub data_changed: bool,
    pub view: Option<DayView>,
    pub error: Option<Seq<char>>,
}

impl View for EditForm {
    type V = EditData;

    open spec fn view(&self) -> EditData {
        EditData {
            entry_id: self.entry_id,
            task_type_id: self.task_type_id,
            date: self.date@,
            count: self.count,
            notes: self.notes@,
            logged_at: self.logged_at@,
            picking_type: self.picking_type,
            confirm_delete: self.confirm_delete,
            error: text::optional(self.error),
        }
    }
}

impl View for TodayState {
    type V = TodayData;

    open spec fn view(&self) -> TodayData {
        TodayData {
            selected_date: self.selected_date,
            filter: self.filter,
            note_open: self.note_open,
            log_collapsed: self.log_collapsed,
            pending_note: self.pending_note@,
            last_action: text::optional(self.last_action),
            editing: match self.editing {
                Some(f) => Some(f@),
                None => None,
            },
            dirty: self.dirty,
            data_changed: self.data_changed,
            view: self.view,
            error: text::optional(self.error),
        }
    }
}

// --- the day's numbers ---

/// The count each task type has in `rows`; of several rows of a type the last one counts.
pub open spec fn counts_by_type(rows: Seq<DayTypeTotal>) -> Map<i64, i64>
    decreases rows.len(),
{
    if rows.len() == 0 {
        Map::empty()
    } else {
        counts_by_type(rows.drop_last()).insert(rows.last().task_type_id, rows.last().count)
    }
}

/// The sum of the counts of category `id` in `rows`.
pub open spec fn category_sum(rows: Seq<DayTypeTotal>, id: i64) -> int
    decreases rows.len(),
{
    if rows.len() == 0 {
        0
    } else {
        category_sum(rows.drop_last(), id) + (if rows.last().category_id == id {
            rows.last().count as int
        } else {
            0
        })
    }
}

/// Whether category `id` occurs in `rows`.
pub open spec fn has_category(rows: Seq<DayTypeTotal>, id: i64) -> bool {
    exists|i: int| 0 <= i < rows.len() && #[trigger] rows[i].category_id == id
}

/// The counts of every category can be added up, row by row, without leaving the range of the
/// numbers.
pub open spec fn sums_fit(rows: Seq<DayTypeTotal>) -> bool {
    forall|n: int, id: i64|
        0 <= n <= rows.len() ==> i64::MIN <= #[trigger] category_sum(rows.take(n), id) <= i64::MAX
}

/// The map holds the sum of every category that occurs in `rows`, and no other.
pub open spec fn are_category_sums(m: Map<i64, i64>, rows: Seq<DayTypeTotal>) -> bool {
    &&& forall|id: i64| #[trigger] m.contains_key(id) <==> has_category(rows, id)
    &&& forall|id: i64| #[trigger] m.contains_key(id) ==> m[id] == category_sum(rows, id)
}

proof fn lemma_absent_category_sums_to_nothing(rows: Seq<DayTypeTotal>, id: i64)
    requires
        !has_category(rows, id),
    ensures
        category_sum(rows, id) == 0,
    decreases rows.len(),
{
    if rows.len() > 0 {
        assert(rows[rows.len() - 1].category_id != id);
        assert forall|i: int| 0 <= i < rows.drop_last().len() implies #[trigger] rows.drop_last()[i].category_id
            != id by {
            assert(rows[i].category_id != id);
        }
        lemma_absent_category_sums_to_nothing(rows.drop_last(), id);
    }
}

/// Adds one row to the sums; `None` where the sum leaves the range of the numbers.
fn add_row(m: &mut BTreeMap<i64, i64>, rows: &Vec<DayTypeTotal>, i: usize) -> (ok: bool)
    requires
        i < rows@.len(),
        are_category_sums(old(m)@, rows@.take(i as int)),
    ensures
        ok == (i64::MIN <= category_sum(rows@.take(i + 1), rows@[i as int].category_id)
            <= i64::MAX),
        ok ==> are_category_sums(final(m)@, rows@.take(i + 1)),
{
    let ghost before = m@;
    let id: i64 = rows[i].category_id;
    let sum: i64 = catalog::count_of(m, id);
    proof {
        let old_rows = rows@.take(i as int);
        let new_rows = rows@.take(i + 1);
        assert(new_rows.drop_last() =~= old_rows);
        assert(new_rows.last() == rows@[i as int]);
        if !before.contains_key(id) {
            lemma_absent_category_sums_to_nothing(old_rows, id);
        }
        assert(sum == category_sum(old_rows, id));
        assert forall|k: i64| has_category(new_rows, k) == (k == id || has_category(old_rows, k)) by {
            if has_category(old_rows, k) {
                let j = choose|j: int| 0 <= j < old_rows.len() && old_rows[j].category_id == k;
                assert(new_rows[j].category_id == k);
            }
            if has_category(new_rows, k) && k != id {
                let j = choose|j: int| 0 <= j < new_rows.len() && new_rows[j].category_id == k;
                assert(old_rows[j].category_id == k);
            }
            if k == id {
                assert(new_rows[i as int].category_id == id);
            }
        }
    }
    match sum.checked_add(rows[i].count) {
        Some(total) => {
            catalog::set_count(m, id, total);
            true
        },
        None => false,
    }
}

/// Whether the counts of every category can be added up.
pub fn check_sums(rows: &Vec<DayTypeTotal>) -> (r: bool)
    ensures
        r == sums_fit(rows@),
{
    let mut m: BTreeMap<i64, i64> = catalog::no_counts();
    assert(are_category_sums(m@, rows@.take(0)));
    for i in 0..rows.len()
        invariant
            are_category_sums(m@, rows@.take(i as int)),
            forall|n: int, id: i64|
                0 <= n <= i ==> i64::MIN <= #[trigger] category_sum(rows@.take(n), id) <= i64::MAX,
    {
        if !add_row(&mut m, rows, i) {
            assert(!sums_fit(rows@)) by {
                let bad = category_sum(rows@.take(i + 1), rows@[i as int].category_id);
                assert(!(i64::MIN <= bad <= i64::MAX));
            }
            return false;
        }
        assert forall|n: int, id: i64| 0 <= n <= i + 1 implies i64::MIN <= #[trigger] category_sum(
            rows@.take(n),
            id,
        ) <= i64::MAX by {
            if n == i + 1 {
                assert(rows@.take(n).drop_last() =~= rows@.take(i as int));
                let earlier = category_sum(rows@.take(i as int), id);
                assert(i64::MIN <= earlier <= i64::MAX);
            }
        }
    }
    true
}

/// The types the filter shows, in order.
pub open spec fn shown_types(types: Seq<TaskType>, filter: CategoryFilter) -> Seq<TaskType> {
    types.filter(|t: TaskType| filter.shows(t.category_id))
}

/// Whether `v` shows what the database answered.
pub open spec fn view_shows(v: DayView, rows: DayRows, filter: CategoryFilter) -> bool {
    &&& v.categories@ == rows.categories@
    &&& v.all_types@ == rows.active_types@
    &&& v.types@ == shown_types(rows.active_types@, filter)
    &&& v.day_counts@ == counts_by_type(rows.totals@)
    &&& are_category_sums(v.category_day_counts@, rows.totals@)
    &&& v.day_total == rows.day_total
    &&& v.distinct_types == rows.distinct_types
    &&& v.log@ == rows.log@
}

/// The query results to show for what the database answered.
pub fn rebuild(rows: DayRows, filter: CategoryFilter) -> (v: DayView)
    requires
        sums_fit(rows.totals@),
    ensures
        view_shows(v, rows, filter),
{
    let mut day_counts: BTreeMap<i64, i64> = catalog::no_counts();
    let mut category_day_counts: BTreeMap<i64, i64> = catalog::no_counts();
    assert(are_category_sums(category_day_counts@, rows.totals@.take(0)));
    for i in 0..rows.totals.len()
        invariant
            sums_fit(rows.totals@),
            day_counts@ == counts_by_type(rows.totals@.take(i as int)),
            are_category_sums(category_day_counts@, rows.totals@.take(i as int)),
    {
        catalog::set_count(&mut day_counts, rows.totals[i].task_type_id, rows.totals[i].count);
        assert(rows.totals@.take(i + 1).drop_last() =~= rows.totals@.take(i as int));
        assert(i64::MIN <= category_sum(rows.totals@.take(i + 1), rows.totals@[i as int].category_id)
            <= i64::MAX);
        add_row(&mut category_day_counts, &rows.totals, i);
    }
    assert(rows.totals@.take(rows.totals@.len() as int) =~= rows.totals@);
    let mut types: Vec<TaskType> = Vec::new();
    let ghost keep = |t: TaskType| filter.shows(t.category_id);
    for i in 0..rows.active_types.len()
        invariant
            keep == (|t: TaskType| filter.shows(t.category_id)),
            types@ == rows.active_types@.take(i as int).filter(keep),
    {
        proof {
            reveal(Seq::filter);
            assert(rows.active_types@.take(i + 1).drop_last() =~= rows.active_types@.take(i as int));
        }
        let shown = match filter {
            CategoryFilter::All => true,
            CategoryFilter::One(id) => rows.active_types[i].category_id == id,
        };
        if shown {
            types.push(rows.active_types[i].copy());
        }
    }
    assert(rows.active_types@.take(rows.active_types@.len() as int) =~= rows.active_types@);
    DayView {
        categories: rows.categories,
        types,
        all_types: rows.active_types,
        day_counts,
        day_total: rows.day_total,
        distinct_types: rows.distinct_types,
        category_day_counts,
        log: rows.log,
    }
}

// --- the screen's state ---

/// A way to move to another date.
#[derive(Clone, Copy, Debug, PartialEq, Eq, Structural)]
pub enum Nav {
    Prev,
    Today,
    Next,
}

impl TodayData {
    /// The screen of a launch on `today`.
    pub open spec fn fresh(today: Date) -> TodayData {
        TodayData {
            selected_date: today,
            filter: CategoryFilter::All,
            note_open: false,
            log_collapsed: false,
            pending_note: Seq::empty(),
            last_action: None,
            editing: None,
            dirty: true,
            data_changed: false,
            view: None,
            error: None,
        }
    }

    /// The screen after a move to `date`: another date discards the note.
    pub open spec fn at_date(self, date: Date) -> TodayData {
        if date == self.selected_date {
            self
        } else {
            TodayData {
                selected_date: date,
                pending_note: Seq::empty(),
                last_action: None,
                dirty: true,
                ..self
            }
        }
    }
}

/// The day after `d`, or `d` itself where the calendar ends.
pub open spec fn is_day_after(d: Date, r: Date) -> bool {
    if d.number() == dates::day_number(dates::MAX_YEAR as int, 12, 31) {
        r == d
    } else {
        r.valid() && r.number() == d.number() + 1
    }
}

/// The day before `d`, or `d` itself where the calendar begins.
pub open spec fn is_day_before(d: Date, r: Date) -> bool {
    if d.number() == dates::day_number(dates::MIN_YEAR as int, 1, 1) {
        r == d
    } else {
        r.valid() && r.number() == d.number() - 1
    }
}

impl TodayState {
    pub open spec fn well_formed(self) -> bool {
        self.selected_date.valid()
    }

    pub fn new(today: Date) -> (r: TodayState)
        ensures
            r@ == TodayData::fresh(today),
    {
        TodayState {
            selected_date: today,
            filter: CategoryFilter::All,
            note_open: false,
            log_collapsed: false,
            pending_note: String::new(),
            last_action: None,
            editing: None,
            dirty: true,
            data_changed: false,
            view: None,
            error: None,
        }
    }

    /// The query results are out of date.
    pub fn mark_dirty(&mut self)
        ensures
            final(self)@ == (TodayData { dirty: true, ..old(self)@ }),
    {
        self.dirty = true;
    }

    /// Whether something was written that other screens show; the flag is cleared.
    pub fn take_data_changed(&mut self) -> (r: bool)
        ensures
            r == old(self).data_changed,
            final(self)@ == (TodayData { data_changed: false, ..old(self)@ }),
    {
        let r = self.data_changed;
        self.data_changed = false;
        r
    }

    /// Starts over for a different database. An open dialog holds ids of the old one, and ids
    /// are small numbers, so saving it would overwrite an unrelated entry.
    pub fn reset_for_new_database(&mut self)
        ensures
            final(self)@ == (TodayData {
                editing: None,
                pending_note: Seq::empty(),
                last_action: None,
                error: None,
                dirty: true,
                ..old(self)@
            }),
    {
        self.editing = None;
        self.pending_note = String::new();
        self.last_action = None;
        self.error = None;
        self.mark_dirty();
    }

    fn set_date(&mut self, date: Date)
        ensures
            final(self)@ == old(self)@.at_date(date),
    {
        if date != self.selected_date {
            self.selected_date = date;
            self.pending_note = String::new();
            self.last_action = None;
            self.mark_dirty();
        }
    }

    /// Moves to the day before or after the selected one, or to `today`.
    pub fn navigate(&mut self, nav: Nav, today: Date)
        requires
            old(self).well_formed(),
            today.valid(),
        ensures
            final(self).well_formed(),
            final(self)@ == old(self)@.at_date(final(self).selected_date),
            match nav {
                Nav::Prev => is_day_before(old(self).selected_date, final(self).selected_date),
                Nav::Today => final(self).selected_date == today,
                Nav::Next => is_day_after(old(self).selected_date, final(self).selected_date),
            },
    {
        let date = match nav {
            Nav::Prev => match self.selected_date.pred_opt() {
                Some(d) => d,
                None => self.selected_date,
            },
            Nav::Today => today,
            Nav::Next => match self.selected_date.succ_opt() {
                Some(d) => d,
                None => self.selected_date,
            },
        };
        self.set_date(date);
    }

    /// Whether there is a next day to move to: not beyond `today`.
    pub fn next_enabled(&self, today: Date) -> (r: bool)
        ensures
            r == dates::earlier(self.selected_date, today),
    {
        self.selected_date.is_before(today)
    }

    /// Filters the tiles.
    pub fn choose_filter(&mut self, filter: CategoryFilter)
        ensures
            final(self)@ == (TodayData { filter, dirty: true, ..old(self)@ }),
    {
        self.filter = filter;
        self.mark_dirty();
    }

    /// Opens or closes the note field; what is written in it stays.
    pub fn toggle_note(&mut self)
        ensures
            final(self)@ == (TodayData { note_open: !old(self).note_open, ..old(self)@ }),
    {
        self.note_open = !self.note_open;
    }

    /// Collapses or expands the log.
    pub fn toggle_log(&mut self)
        ensures
            final(self)@ == (TodayData { log_collapsed: !old(self).log_collapsed, ..old(self)@ }),
    {
        self.log_collapsed = !self.log_collapsed;
    }

    /// Whether the query results have to be fetched anew.
    pub fn needs_rebuild(&self) -> (r: bool)
        ensures
            r == (self.dirty || self.view is None),
    {
        self.dirty || self.view.is_none()
    }

    /// Takes what the database answered for the selected day. After a failure the old results
    /// stay, still out of date, and the failure is shown.
    pub fn accept_rows(&mut self, answer: Result<DayRows, DbError>)
        requires
            answer matches Ok(rows) ==> sums_fit(rows.totals@),
        ensures
            match answer {
                Ok(rows) => final(self).view is Some && view_shows(
                    final(self).view->0,
                    rows,
                    old(self).filter,
                ) && final(self)@ == (TodayData {
                    view: final(self).view,
                    error: None,
                    dirty: false,
                    ..old(self)@
                }),
                Err(e) => final(self)@ == (TodayData { error: Some(e.message@), ..old(self)@ }),
            },
    {
        match answer {
            Ok(rows) => {
                self.view = Some(rebuild(rows, self.filter));
                self.error = None;
                self.dirty = false;
            },
            Err(e) => {
                self.error = Some(e.message);
            },
        }
    }
}

// --- what is shown ---

/// A tile of the grid.
#[derive(Debug)]
pub struct TileData {
    pub type_id: i64,
    pub name: String,
    pub category: String,
    pub description: String,
    pub count: i64,
}

/// A choice of the edit dialog's type picker.
#[derive(Debug)]
pub struct TypeChoice {
    pub type_id: i64,
    pub category: String,
    pub name: String,
}

impl TileData {
    /// Whether the tile shows `t` with the day's count.
    pub open spec fn shows(self, t: TaskType, v: DayView) -> bool {
        &&& self.type_id == t.id
        &&& self.name@ == t.name@
        &&& self.category@ == catalog::category_name(v.categories@, t.category_id)
        &&& self.description@ == t.description@
        &&& self.count == catalog::count_in(v.day_counts@, t.id)
    }
}

impl TypeChoice {
    pub open spec fn shows(self, t: TaskType, v: DayView) -> bool {
        &&& self.type_id == t.id
        &&& self.category@ == catalog::category_name(v.categories@, t.category_id)
        &&& self.name@ == t.name@
    }
}

/// The tiles, one for each type in the filter, in order.
pub fn tiles(v: &DayView) -> (r: Vec<TileData>)
    ensures
        r@.len() == v.types@.len(),
        forall|i: int| 0 <= i < r@.len() ==> (#[trigger] r@[i]).shows(v.types@[i], *v),
{
    let mut r: Vec<TileData> = Vec::new();
    for i in 0..v.types.len()
        invariant
            r@.len() == i,
            forall|k: int| 0 <= k < i ==> (#[trigger] r@[k]).shows(v.types@[k], *v),
    {
        let t = &v.types[i];
        r.push(
            TileData {
                type_id: t.id,
                name: t.name.clone(),
                category: catalog::name_of_category(&v.categories, t.category_id),
                description: t.description.clone(),
                count: catalog::count_of(&v.day_counts, t.id),
            },
        );
    }
    r
}

/// The choices of the edit dialog's type picker: every active type, in order.
pub fn type_choices(v: &DayView) -> (r: Vec<TypeChoice>)
    ensures
        r@.len() == v.all_types@.len(),
        forall|i: int| 0 <= i < r@.len() ==> (#[trigger] r@[i]).shows(v.all_types@[i], *v),
{
    let mut r: Vec<TypeChoice> = Vec::new();
    for i in 0..v.all_types.len()
        invariant
            r@.len() == i,
            forall|k: int| 0 <= k < i ==> (#[trigger] r@[k]).shows(v.all_types@[k], *v),
    {
        let t = &v.all_types[i];
        r.push(
            TypeChoice {
                type_id: t.id,
                category: catalog::name_of_category(&v.categories, t.category_id),
                name: t.name.clone(),
            },
        );
    }
    r
}

/// The place of the first choice for a type.
pub open spec fn choice_index(choices: Seq<TypeChoice>, type_id: i64) -> Option<int>
    decreases choices.len(),
{
    if choices.len() == 0 {
        None
    } else if choices[0].type_id == type_id {
        Some(0)
    } else {
        match choice_index(choices.drop_first(), type_id) {
            Some(i) => Some(i + 1),
            None => None,
        }
    }
}

/// The category and the name of a type, or nothing where it is not among the choices (as for
/// an entry whose type has become inactive).
pub fn chosen_type(choices: &Vec<TypeChoice>, type_id: i64) -> (r: (String, String))
    ensures
        match choice_index(choices@, type_id) {
            Some(i) => r.0@ == choices@[i].category@ && r.1@ == choices@[i].name@,
            None => r.0@.len() == 0 && r.1@.len() == 0,
        },
{
    assert(choices@.skip(0) =~= choices@);
    for i in 0..choices.len()
        invariant
            match (choice_index(choices@, type_id), choice_index(choices@.skip(i as int), type_id)) {
                (Some(a), Some(b)) => a == b + i,
                (None, None) => true,
                _ => false,
            },
    {
        if choices[i].type_id == type_id {
            return (choices[i].category.clone(), choices[i].name.clone());
        }
        assert(choices@.skip(i as int).drop_first() =~= choices@.skip(i + 1));
    }
    (String::new(), String::new())
}

/// `Tuesday 25 August 2026`.
pub open spec fn long_date(d: Date) -> Seq<char> {
    dates::weekday_long(d.number()) + " "@ + text::decimal(d.day as int) + " "@ + dates::month_long(
        d.month as int,
    ) + " "@ + text::decimal(d.year as int)
}

proof fn lemma_digits_are_ascii(n: nat)
    ensures
        text::all_ascii(text::digits(n)),
    decreases n,
{
    if n >= 10 {
        lemma_digits_are_ascii(n / 10);
    }
}

proof fn lemma_joined_ascii(a: Seq<char>, b: Seq<char>)
    requires
        text::all_ascii(a),
        text::all_ascii(b),
    ensures
        text::all_ascii(a + b),
{
    assert forall|i: int| 0 <= i < (a + b).len() implies (#[trigger] (a + b)[i] as int) < 128 by {
        if i < a.len() {
            assert((a[i] as int) < 128);
        } else {
            assert((b[i - a.len()] as int) < 128);
        }
    }
}

proof fn lemma_names_are_ascii(number: int, month: int)
    ensures
        text::all_ascii(dates::weekday_long(number)),
        text::all_ascii(dates::month_long(month)),
        text::all_ascii(" "@),
        text::all_ascii("-"@),
{
    reveal_strlit("Monday");
    reveal_strlit("Tuesday");
    reveal_strlit("Wednesday");
    reveal_strlit("Thursday");
    reveal_strlit("Friday");
    reveal_strlit("Saturday");
    reveal_strlit("Sunday");
    reveal_strlit("January");
    reveal_strlit("February");
    reveal_strlit("March");
    reveal_strlit("April");
    reveal_strlit("May");
    reveal_strlit("June");
    reveal_strlit("July");
    reveal_strlit("August");
    reveal_strlit("September");
    reveal_strlit("October");
    reveal_strlit("November");
    reveal_strlit("December");
    reveal_strlit(" ");
    reveal_strlit("-");
}

proof fn lemma_long_date_is_ascii(d: Date)
    ensures
        text::all_ascii(long_date(d)),
{
    let w = dates::weekday_long(d.number());
    let m = dates::month_long(d.month as int);
    lemma_names_are_ascii(d.number(), d.month as int);
    lemma_digits_are_ascii(d.day as nat);
    let y = d.year as int;
    if y < 0 {
        lemma_digits_are_ascii((-y) as nat);
        lemma_joined_ascii(seq!['-'], text::digits((-y) as nat));
    } else {
        lemma_digits_are_ascii(y as nat);
    }
    lemma_joined_ascii(w, " "@);
    lemma_joined_ascii(w + " "@, text::decimal(d.day as int));
    lemma_joined_ascii(w + " "@ + text::decimal(d.day as int), " "@);
    lemma_joined_ascii(w + " "@ + text::decimal(d.day as int) + " "@, m);
    lemma_joined_ascii(w + " "@ + text::decimal(d.day as int) + " "@ + m, " "@);
    lemma_joined_ascii(
        w + " "@ + text::decimal(d.day as int) + " "@ + m + " "@,
        text::decimal(y),
    );
}

/// `TUESDAY 25 AUGUST 2026`.
pub fn date_headline(d: Date) -> (r: String)
    requires
        d.valid(),
    ensures
        r@ == text::ascii_upper(long_date(d)),
{
    let mut s = dates::long_weekday(d);
    text::push_text(&mut s, " ");
    text::push_decimal(&mut s, d.day as i64);
    text::push_text(&mut s, " ");
    text::push_text(&mut s, dates::long_month(d).as_str());
    text::push_text(&mut s, " ");
    text::push_decimal(&mut s, d.year as i64);
    assert(s@ =~= long_date(d));
    proof {
        lemma_long_date_is_ascii(d);
    }
    s.as_str().to_uppercase()
}

/// The line under the day's total.
pub open spec fn day_caption_text(total: i64, types: i64) -> Seq<char> {
    if total == 0 {
        "nothing logged yet \u{2014} click a tile"@
    } else {
        text::decimal(total as int) + " tallies across "@ + text::decimal(types as int) + " types"@
    }
}

/// The line under the day's total.
pub fn day_caption(total: i64, types: i64) -> (r: String)
    ensures
        r@ == day_caption_text(total, types),
{
    if total == 0 {
        return "nothing logged yet \u{2014} click a tile".to_owned();
    }
    let mut s = String::new();
    text::push_decimal(&mut s, total);
    text::push_text(&mut s, " tallies across ");
    text::push_decimal(&mut s, types);
    text::push_text(&mut s, " types");
    assert(s@ =~= day_caption_text(total, types));
    s
}

/// The line beside the pills when one category is selected: `3 types in Admin`.
pub fn filter_caption(filter: CategoryFilter, v: &DayView) -> (r: Option<String>)
    ensures
        text::optional(r) == filter_text(filter, v.types@, v.categories@),
        text::optional(r) == (match filter {
            CategoryFilter::All => None,
            CategoryFilter::One(id) => match catalog::category_index(v.categories@, id) {
                Some(i) => Some(
                    text::decimal(v.types@.len() as int) + " types in "@ + v.categories@[i].name@,
                ),
                None => None,
            },
        }),
{
    match filter {
        CategoryFilter::All => None,
        CategoryFilter::One(id) => match catalog::find_category(&v.categories, id) {
            Some(i) => {
                let mut s = String::new();
                text::push_digits(&mut s, v.types.len() as u64);
                text::push_text(&mut s, " types in ");
                text::push_text(&mut s, v.categories[i].name.as_str());
                assert(s@ =~= text::decimal(v.types@.len() as int) + " types in "@
                    + v.categories@[i as int].name@);
                Some(s)
            },
            None => None,
        },
    }
}

/// How many of `len` log rows are shown: all of them, or only the newest.
pub open spec fn log_rows_shown(collapsed: bool, len: int) -> int {
    if collapsed && len > 1 {
        1
    } else {
        len
    }
}

/// How many rows of the log are shown: all of them, or only the newest.
pub fn visible_log(collapsed: bool, len: usize) -> (r: usize)
    ensures
        r == log_rows_shown(collapsed, len as int),
        r == (if collapsed && len > 1 {
            1
        } else {
            len as int
        }),
{
    if collapsed && len > 1 {
        1
    } else {
        len
    }
}

/// The label of the button that collapses or expands the log.
pub fn log_toggle_label(collapsed: bool, len: usize) -> (r: String)
    ensures
        r@ == log_toggle_text(collapsed, len as int),
        r@ == (if collapsed {
            "show all ("@ + text::decimal(len as int) + ")"@
        } else {
            "collapse"@
        }),
{
    if !collapsed {
        return "collapse".to_owned();
    }
    let mut s = String::new();
    text::push_text(&mut s, "show all (");
    text::push_digits(&mut s, len as u64);
    text::push_text(&mut s, ")");
    assert(s@ =~= "show all ("@ + text::decimal(len as int) + ")"@);
    s
}

/// What a tile tells when its name does not fit: the name, and the description if there is one.
pub fn tile_tip(tile: &TileData) -> (r: String)
    ensures
        r@ == tip_text(tile.name@, tile.description@),
        r@ == (if tile.description@.len() == 0 {
            tile.name@
        } else {
            tile.name@ + "\n\n"@ + tile.description@
        }),
{
    let mut s = tile.name.clone();
    if !tile.description.as_str().is_empty() {
        text::push_text(&mut s, "\n\n");
        text::push_text(&mut s, tile.description.as_str());
    }
    s
}

// --- laws ---

/// A type's count of the day is that of its last row, and there is none for a type without one.
pub proof fn law_last_row_of_a_type_counts(rows: Seq<DayTypeTotal>, r: DayTypeTotal, id: i64)
    ensures
        counts_by_type(Seq::empty()) == Map::<i64, i64>::empty(),
        counts_by_type(rows.push(r)).contains_key(r.task_type_id),
        counts_by_type(rows.push(r))[r.task_type_id] == r.count,
        id != r.task_type_id ==> (counts_by_type(rows.push(r)).contains_key(id)
            <==> counts_by_type(rows).contains_key(id)) && counts_by_type(rows.push(r))[id]
            == counts_by_type(rows)[id],
{
    assert(rows.push(r).drop_last() =~= rows);
}

/// A category's sum grows by the count of each of its rows, and by no row of another category.
pub proof fn law_every_row_adds_to_its_category(rows: Seq<DayTypeTotal>, r: DayTypeTotal, id: i64)
    ensures
        category_sum(Seq::empty(), id) == 0,
        r.category_id == id ==> category_sum(rows.push(r), id) == category_sum(rows, id) + r.count,
        r.category_id != id ==> category_sum(rows.push(r), id) == category_sum(rows, id),
{
    assert(rows.push(r).drop_last() =~= rows);
}

/// The screen shows what the database answered: the types of the chosen category and no others,
/// in their order, the day's numbers and the log unchanged, and the sum of each category that
/// was tallied.
pub proof fn law_screen_shows_the_answer(
    v: DayView,
    rows: DayRows,
    filter: CategoryFilter,
    category_id: i64,
    k: int,
)
    requires
        view_shows(v, rows, filter),
    ensures
        v.categories@ == rows.categories@,
        v.all_types@ == rows.active_types@,
        v.day_total == rows.day_total,
        v.distinct_types == rows.distinct_types,
        v.log@ == rows.log@,
        filter == CategoryFilter::All ==> v.types@ == rows.active_types@,
        filter == CategoryFilter::One(category_id) && 0 <= k < v.types@.len() ==> v.types@[k].category_id
            == category_id && rows.active_types@.contains(v.types@[k]),
        filter == CategoryFilter::One(category_id) && 0 <= k < rows.active_types@.len()
            && rows.active_types@[k].category_id == category_id ==> v.types@.contains(
            rows.active_types@[k],
        ),
        v.category_day_counts@.contains_key(category_id) <==> exists|i: int|
            0 <= i < rows.totals@.len() && (#[trigger] rows.totals@[i]).category_id == category_id,
        v.category_day_counts@.contains_key(category_id) ==> v.category_day_counts@[category_id]
            == category_sum(rows.totals@, category_id),
        v.day_counts@ == counts_by_type(rows.totals@),
{
    broadcast use vstd::seq_lib::group_filter_ensures;

    let all = rows.active_types@;
    let keep = |t: TaskType| filter.shows(t.category_id);
    assert(v.types@ == all.filter(keep));
    if filter == CategoryFilter::All {
        lemma_filter_of_everything(all, keep);
    }
    if filter == CategoryFilter::One(category_id) {
        if 0 <= k < v.types@.len() {
            catalog::lemma_kept_was_there(all, keep, k);
            assert(keep(all.filter(keep)[k]));
        }
        if 0 <= k < all.len() && all[k].category_id == category_id {
            assert(keep(all[k]));
        }
    }
    if v.category_day_counts@.contains_key(category_id) {
        assert(has_category(rows.totals@, category_id));
    }
    if exists|i: int|
        0 <= i < rows.totals@.len() && (#[trigger] rows.totals@[i]).category_id == category_id {
        assert(has_category(rows.totals@, category_id));
    }
}

proof fn lemma_filter_of_everything(s: Seq<TaskType>, keep: spec_fn(TaskType) -> bool)
    requires
        forall|t: TaskType| #[trigger] keep(t),
    ensures
        s.filter(keep) == s,
    decreases s.len(),
{
    reveal(Seq::filter);
    if s.len() > 0 {
        lemma_filter_of_everything(s.drop_last(), keep);
        assert(s.drop_last().push(s.last()) =~= s);
    }
}

/// A move to another day shows that day anew, without the note and without the line about the
/// last change; the filter, the open dialog and the rest stay. A move to the day that is shown
/// changes nothing.
pub proof fn law_another_day_discards_the_note(s: TodayData, date: Date)
    ensures
        s.at_date(date).selected_date == date,
        date != s.selected_date ==> s.at_date(date).pending_note.len() == 0 && s.at_date(
            date,
        ).last_action is None && s.at_date(date).dirty,
        date == s.selected_date ==> s.at_date(date) == s,
        s.at_date(date).filter == s.filter,
        s.at_date(date).note_open == s.note_open,
        s.at_date(date).log_collapsed == s.log_collapsed,
        s.at_date(date).editing == s.editing,
        s.at_date(date).data_changed == s.data_changed,
        s.at_date(date).view == s.view,
        s.at_date(date).error == s.error,
{
}

/// At launch the screen shows today's tallies of every category, with nothing entered and
/// nothing loaded.
pub proof fn law_launch_shows_today(today: Date)
    ensures
        TodayData::fresh(today).selected_date == today,
        TodayData::fresh(today).filter == CategoryFilter::All,
        !TodayData::fresh(today).note_open,
        !TodayData::fresh(today).log_collapsed,
        TodayData::fresh(today).pending_note.len() == 0,
        TodayData::fresh(today).last_action is None,
        TodayData::fresh(today).editing is None,
        TodayData::fresh(today).dirty,
        !TodayData::fresh(today).data_changed,
        TodayData::fresh(today).view is None,
        TodayData::fresh(today).error is None,
{
}

/// The next day comes right after the day: no day lies between them. Going back leads to where
/// one came from.
pub proof fn law_days_are_left_and_right_of_each_other(d: Date, r: Date, between: Date)
    requires
        d.valid(),
        r.valid(),
        between.valid(),
    ensures
        is_day_after(d, r) && r != d ==> dates::earlier(d, r) && is_day_before(r, d),
        is_day_before(d, r) && r != d ==> dates::earlier(r, d) && is_day_after(r, d),
        is_day_after(d, r) && dates::earlier(d, between) ==> r != d && !dates::earlier(between, r),
        is_day_before(d, r) && dates::earlier(between, d) ==> r != d && !dates::earlier(r, between),
{
    let first = Date { year: dates::MIN_YEAR, month: 1, day: 1 };
    let last = Date { year: dates::MAX_YEAR, month: 12, day: 31 };
    assert(first.valid() && last.valid());
    dates::law_numbers_follow_the_calendar(d, r);
    dates::law_numbers_follow_the_calendar(r, d);
    dates::law_numbers_follow_the_calendar(d, between);
    dates::law_numbers_follow_the_calendar(between, d);
    dates::law_numbers_follow_the_calendar(between, r);
    dates::law_numbers_follow_the_calendar(r, between);
    dates::law_numbers_follow_the_calendar(last, between);
    dates::law_numbers_follow_the_calendar(between, first);
    dates::law_numbers_follow_the_calendar(last, r);
    dates::law_numbers_follow_the_calendar(r, first);
    dates::law_numbers_follow_the_calendar(last, d);
    dates::law_numbers_follow_the_calendar(d, first);
}

/// A tile stands for one type: it has its id, its name, its description, the name of its
/// category and what it was tallied on the day.
pub proof fn law_tile_is_its_type(tile: TileData, t: TaskType, v: DayView)
    requires
        tile.shows(t, v),
    ensures
        tile.type_id == t.id,
        tile.name@ == t.name@,
        tile.description@ == t.description@,
        catalog::category_index(v.categories@, t.category_id) matches Some(i) ==> tile.category@
            == v.categories@[i].name@,
        catalog::category_index(v.categories@, t.category_id) is None ==> tile.category@.len() == 0,
        v.day_counts@.contains_key(t.id) ==> tile.count == v.day_counts@[t.id],
        !v.day_counts@.contains_key(t.id) ==> tile.count == 0,
{
}

/// A choice of the type picker stands for one type: it has its id, its name and the name of its
/// category.
pub proof fn law_choice_is_its_type(choice: TypeChoice, t: TaskType, v: DayView)
    requires
        choice.shows(t, v),
    ensures
        choice.type_id == t.id,
        choice.name@ == t.name@,
        catalog::category_index(v.categories@, t.category_id) matches Some(i) ==> choice.category@
            == v.categories@[i].name@,
        catalog::category_index(v.categories@, t.category_id) is None ==> choice.category@.len()
            == 0,
{
}

/// Looking a type up among the choices finds the first one for it, wherever there is one.
pub proof fn law_lookup_finds_the_first_choice(choices: Seq<TypeChoice>, id: i64)
    ensures
        choice_index(choices, id) matches Some(i) ==> 0 <= i < choices.len() && choices[i].type_id
            == id && (forall|k: int| 0 <= k < i ==> (#[trigger] choices[k]).type_id != id),
        choice_index(choices, id) is None ==> forall|k: int|
            0 <= k < choices.len() ==> (#[trigger] choices[k]).type_id != id,
    decreases choices.len(),
{
    if choices.len() > 0 && choices[0].type_id != id {
        let rest = choices.drop_first();
        law_lookup_finds_the_first_choice(rest, id);
        match choice_index(rest, id) {
            Some(i) => {
                assert forall|k: int| 0 <= k < i + 1 implies (#[trigger] choices[k]).type_id
                    != id by {
                    if k > 0 {
                        assert(rest[k - 1].type_id != id);
                    }
                }
            },
            None => {
                assert forall|k: int| 0 <= k < choices.len() implies (#[trigger] choices[k]).type_id
                    != id by {
                    if k > 0 {
                        assert(rest[k - 1].type_id != id);
                    }
                }
            },
        }
    }
}

/// The headline names the weekday, the day, the month and the year, in this order and parted by
/// single spaces.
pub proof fn law_headline_reads_weekday_day_month_year(d: Date)
    ensures
        long_date(d) == dates::weekday_long(d.number()) + seq![' '] + text::decimal(d.day as int)
            + seq![' '] + dates::month_long(d.month as int) + seq![' '] + text::decimal(
            d.year as int,
        ),
{
    reveal_strlit(" ");
    assert(" "@ =~= seq![' ']);
}

/// The line under the total says how many tallies and types there are, and on a day without
/// tallies what to do.
pub proof fn law_caption_counts_the_day(total: i64, types: i64)
    ensures
        total != 0 ==> day_caption_text(total, types) == text::decimal(total as int)
            + " tallies across "@ + text::decimal(types as int) + " types"@,
        total == 0 ==> day_caption_text(total, types)
            == "nothing logged yet \u{2014} click a tile"@,
{
}

/// A collapsed log shows its newest row if it has one; an open log shows every row.
pub proof fn law_collapsed_log_shows_the_newest(len: int)
    requires
        len >= 0,
    ensures
        log_rows_shown(false, len) == len,
        len >= 1 ==> log_rows_shown(true, len) == 1,
        len == 0 ==> log_rows_shown(true, len) == 0,
{
}

/// The day's counts fit where, for every category, every sum on the way to the whole is a 64-bit
/// number.
pub proof fn law_counts_fit_row_by_row(rows: Seq<DayTypeTotal>, r: DayTypeTotal, id: i64)
    ensures
        sums_fit(rows.push(r)) ==> sums_fit(rows) && -9223372036854775808 <= category_sum(
            rows.push(r),
            id,
        ) <= 9223372036854775807,
        sums_fit(rows) && -9223372036854775808 <= category_sum(rows.push(r), r.category_id)
            <= 9223372036854775807 ==> sums_fit(rows.push(r)),
{
    let all = rows.push(r);
    assert(all.take(all.len() as int) =~= all);
    assert(rows.take(rows.len() as int) =~= rows);
    let whole = category_sum(all.take(all.len() as int), id);
    if sums_fit(all) {
        assert forall|n: int, k: i64| 0 <= n <= rows.len() implies i64::MIN
            <= #[trigger] category_sum(rows.take(n), k) <= i64::MAX by {
            assert(rows.take(n) =~= all.take(n));
            let same = category_sum(all.take(n), k);
        }
    }
    if sums_fit(rows) && i64::MIN <= category_sum(all, r.category_id) <= i64::MAX {
        assert forall|n: int, k: i64| 0 <= n <= all.len() implies i64::MIN
            <= #[trigger] category_sum(all.take(n), k) <= i64::MAX by {
            if n <= rows.len() {
                assert(rows.take(n) =~= all.take(n));
                let same = category_sum(rows.take(n), k);
            } else {
                law_every_row_adds_to_its_category(rows, r, k);
                let before = category_sum(rows.take(rows.len() as int), k);
            }
        }
    }
}

/// The line beside the pills.
pub open spec fn filter_text(
    filter: CategoryFilter,
    types: Seq<TaskType>,
    categories: Seq<Category>,
) -> Option<Seq<char>> {
    match filter {
        CategoryFilter::All => None,
        CategoryFilter::One(id) => match catalog::category_index(categories, id) {
            Some(i) => Some(
                text::decimal(types.len() as int) + " types in "@ + categories[i].name@,
            ),
            None => None,
        },
    }
}

/// The label of the button that collapses or expands the log.
pub open spec fn log_toggle_text(collapsed: bool, len: int) -> Seq<char> {
    if collapsed {
        "show all ("@ + text::decimal(len) + ")"@
    } else {
        "collapse"@
    }
}

/// What a tile tells when its name does not fit.
pub open spec fn tip_text(name: Seq<char>, description: Seq<char>) -> Seq<char> {
    if description.len() == 0 {
        name
    } else {
        name + "\n\n"@ + description
    }
}

/// The line beside the pills counts the types of a chosen category that is there; the button of a
/// collapsed log tells how many rows there are; the tip of a tile leaves out a description that is
/// empty.
pub proof fn law_small_lines_tell_what_is_there(
    id: i64,
    types: Seq<TaskType>,
    categories: Seq<Category>,
    len: int,
    name: Seq<char>,
    description: Seq<char>,
)
    ensures
        filter_text(CategoryFilter::All, types, categories) is None,
        catalog::category_index(categories, id) is None ==> filter_text(
            CategoryFilter::One(id),
            types,
            categories,
        ) is None,
        catalog::category_index(categories, id) matches Some(i) ==> filter_text(
            CategoryFilter::One(id),
            types,
            categories,
        ) == Some(text::decimal(types.len() as int) + " types in "@ + categories[i].name@),
        log_toggle_text(true, len) == "show all ("@ + text::decimal(len) + ")"@,
        log_toggle_text(false, len) == "collapse"@,
        tip_text(name, Seq::empty()) == name,
        description.len() > 0 ==> tip_text(name, description) == name + "\n\n"@ + description,
{
}

} // verus!
