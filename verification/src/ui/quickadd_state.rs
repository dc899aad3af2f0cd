//! The quick-add popup's state: what is loaded, which row is selected, and what Enter writes.
use vstd::prelude::*;

use crate::catalog::{self, Category, DayLogRow, DayTypeTotal, TaskType};
use crate::error::DbError;
use crate::text;
use crate::ui::quickadd::{self, MAX_ROWS};
use crate::ui::rank;
use crate::ui::today;
use std::collections::BTreeMap;

verus! {

/// One result row.
#[derive(Debug)]
pub struct Row {
    pub task_type_id: i64,
    pub name: String,
    pub category_name: String,
    pub today_count: i64,
    /// How many of today's tallies a removal can take from this type. Lower than `today_count`
    /// where a tally carries a note, which is never deleted.
    pub removable: i64,
}

/// The popup's query results.
#[derive(Debug)]
pub struct QuickView {
    pub types: Vec<TaskType>,
    pub categories: Vec<Category>,
    pub today_counts: BTreeMap<i64, i64>,
    pub today_removable: BTreeMap<i64, i64>,
}

/// The popup's state.
#[derive(Debug)]
pub struct QuickAddState {
    pub query: String,
    pub selected: usize,
    pub dirty: bool,
    pub view: Option<QuickView>,
    pub error: Option<String>,
}

/// The popup's state as contracts speak of it.
#[verifier::ext_equal]
pub struct QuickData {
    pub query: Seq<char>,
    pub selected: int,
    pub dirty: bool,
    pub view: Option<QuickView>,
    pub error: Option<Seq<char>>,
}

impl QuickData {
    /// The popup of a launch.
    pub open spec fn fresh() -> QuickData {
        QuickData {
            query: Seq::empty(),
            selected: 0,
            dirty: true,
            view: None,
            error: None,
        }
    }
}

impl View for QuickAddState {
    type V = QuickData;

    open spec fn view(&self) -> QuickData {
        QuickData {
            query: self.query@,
            selected: self.selected as int,
            dirty: self.dirty,
            view: self.view,
            error: text::optional(self.error),
        }
    }
}

// --- what can be taken back ---

/// The log rows of one type: each count, and whether the row carries a note.
#[derive(Debug)]
pub struct RemovalGroup {
    pub task_type_id: i64,
    pub rows: Vec<(i64, bool)>,
}

/// What of a log row matters for a removal.
pub open spec fn removal_row(r: DayLogRow) -> (i64, bool) {
    (r.count, text::trimmed(r.notes@).len() > 0)
}

/// The log rows of a type, in order.
pub open spec fn rows_of_type(log: Seq<DayLogRow>, id: i64) -> Seq<(i64, bool)>
    decreases log.len(),
{
    if log.len() == 0 {
        Seq::empty()
    } else if log.last().task_type_id == id {
        rows_of_type(log.drop_last(), id).push(removal_row(log.last()))
    } else {
        rows_of_type(log.drop_last(), id)
    }
}

/// Whether there is a group for a type.
pub open spec fn has_group(groups: Seq<RemovalGroup>, id: i64) -> bool {
    exists|i: int| 0 <= i < groups.len() && (#[trigger] groups[i]).task_type_id == id
}

/// Whether the groups hold the rows of every type of the log, each type once.
pub open spec fn are_groups(groups: Seq<RemovalGroup>, log: Seq<DayLogRow>) -> bool {
    &&& forall|i: int|
        0 <= i < groups.len() ==> (#[trigger] groups[i]).rows@ == rows_of_type(
            log,
            groups[i].task_type_id,
        )
    &&& forall|i: int, j: int|
        0 <= i < j < groups.len() ==> (#[trigger] groups[i]).task_type_id != (
        #[trigger] groups[j]).task_type_id
    &&& forall|k: int|
        0 <= k < log.len() ==> has_group(groups, (#[trigger] log[k]).task_type_id)
}

/// Groups the day's log rows by type, for asking how much of each can be taken back.
pub fn removal_groups(log: &Vec<DayLogRow>) -> (r: Vec<RemovalGroup>)
    ensures
        are_groups(r@, log@),
{
    let mut groups: Vec<RemovalGroup> = Vec::new();
    for k in 0..log.len()
        invariant
            forall|i: int|
                0 <= i < groups@.len() ==> (#[trigger] groups@[i]).rows@ == rows_of_type(
                    log@,
                    groups@[i].task_type_id,
                ),
            forall|i: int, j: int|
                0 <= i < j < groups@.len() ==> (#[trigger] groups@[i]).task_type_id != (
                #[trigger] groups@[j]).task_type_id,
            forall|m: int|
                0 <= m < k ==> has_group(groups@, (#[trigger] log@[m]).task_type_id),
    {
        let id: i64 = log[k].task_type_id;
        let mut known = false;
        for i in 0..groups.len()
            invariant
                known == exists|j: int|
                    0 <= j < i && (#[trigger] groups@[j]).task_type_id == id,
        {
            if groups[i].task_type_id == id {
                assert(groups@[i as int].task_type_id == id);
                known = true;
            }
        }
        if !known {
            let ghost before = groups@;
            groups.push(RemovalGroup { task_type_id: id, rows: rows_of(log, id) });
            assert(groups@[before.len() as int].task_type_id == id);
            assert forall|m: int| 0 <= m < k implies has_group(
                groups@,
                (#[trigger] log@[m]).task_type_id,
            ) by {
                let i = choose|i: int|
                    0 <= i < before.len() && (#[trigger] before[i]).task_type_id
                        == log@[m].task_type_id;
                assert(groups@[i].task_type_id == log@[m].task_type_id);
            }
        }
    }
    groups
}

fn rows_of(log: &Vec<DayLogRow>, id: i64) -> (r: Vec<(i64, bool)>)
    ensures
        r@ == rows_of_type(log@, id),
{
    let mut r: Vec<(i64, bool)> = Vec::new();
    for i in 0..log.len()
        invariant
            r@ == rows_of_type(log@.take(i as int), id),
    {
        assert(log@.take(i + 1).drop_last() =~= log@.take(i as int));
        if log[i].task_type_id == id {
            r.push((log[i].count, !text::is_blank(log[i].notes.as_str())));
        }
    }
    assert(log@.take(log@.len() as int) =~= log@);
    r
}

// --- loading ---

/// What the database answers about the types.
#[derive(Debug)]
pub struct QuickRows {
    pub types: Vec<TaskType>,
    pub categories: Vec<Category>,
}

/// How much of a type can be taken back.
#[derive(Clone, Copy, Debug, PartialEq, Eq, Structural)]
pub struct Removable {
    pub task_type_id: i64,
    pub count: i64,
}

/// What the database answers about the day.
#[derive(Debug)]
pub struct DayNumbers {
    pub totals: Vec<DayTypeTotal>,
    pub removable: Vec<Removable>,
}

/// The number for each type; of several rows of a type the last one counts.
pub open spec fn removable_map(rows: Seq<Removable>) -> Map<i64, i64>
    decreases rows.len(),
{
    if rows.len() == 0 {
        Map::empty()
    } else {
        removable_map(rows.drop_last()).insert(rows.last().task_type_id, rows.last().count)
    }
}

/// Whether `v` holds what the database answered; without the day's numbers there are none.
pub open spec fn view_holds(v: QuickView, rows: QuickRows, day: Option<DayNumbers>) -> bool {
    &&& v.types@ == rows.types@
    &&& v.categories@ == rows.categories@
    &&& match day {
        Some(d) => v.today_counts@ == today::counts_by_type(d.totals@) && v.today_removable@
            == removable_map(d.removable@),
        None => v.today_counts@ == Map::<i64, i64>::empty() && v.today_removable@ == Map::<
            i64,
            i64,
        >::empty(),
    }
}

fn build_view(rows: QuickRows, day: Option<DayNumbers>) -> (v: QuickView)
    ensures
        view_holds(v, rows, day),
{
    let mut today_counts: BTreeMap<i64, i64> = catalog::no_counts();
    let mut today_removable: BTreeMap<i64, i64> = catalog::no_counts();
    if let Some(d) = day {
        for i in 0..d.totals.len()
            invariant
                today_counts@ == today::counts_by_type(d.totals@.take(i as int)),
        {
            assert(d.totals@.take(i + 1).drop_last() =~= d.totals@.take(i as int));
            catalog::set_count(&mut today_counts, d.totals[i].task_type_id, d.totals[i].count);
        }
        assert(d.totals@.take(d.totals@.len() as int) =~= d.totals@);
        for i in 0..d.removable.len()
            invariant
                today_removable@ == removable_map(d.removable@.take(i as int)),
        {
            assert(d.removable@.take(i + 1).drop_last() =~= d.removable@.take(i as int));
            catalog::set_count(
                &mut today_removable,
                d.removable[i].task_type_id,
                d.removable[i].count,
            );
        }
        assert(d.removable@.take(d.removable@.len() as int) =~= d.removable@);
    }
    QuickView { types: rows.types, categories: rows.categories, today_counts, today_removable }
}

impl QuickAddState {
    pub fn new() -> (r: QuickAddState)
        ensures
            r@ == QuickData::fresh(),
    {
        QuickAddState { query: String::new(), selected: 0, dirty: true, view: None, error: None }
    }

    /// Clears the query and the selection and asks for a reload. Called whenever the popup is
    /// summoned or hidden.
    pub fn reset(&mut self)
        ensures
            final(self)@ == (QuickData {
                query: Seq::empty(),
                selected: 0,
                error: None,
                dirty: true,
                ..old(self)@
            }),
    {
        self.query = String::new();
        self.selected = 0;
        self.error = None;
        self.dirty = true;
    }

    /// The query results are out of date.
    pub fn mark_dirty(&mut self)
        ensures
            final(self)@ == (QuickData { dirty: true, ..old(self)@ }),
    {
        self.dirty = true;
    }

    /// Takes what the database answered about the types, and about the day. A failure about
    /// the day is shown rather than taken for a day without tallies.
    pub fn accept_rows(
        &mut self,
        rows: Result<QuickRows, DbError>,
        day: Result<DayNumbers, DbError>,
    )
        ensures
            match (rows, day) {
                (Ok(q), Ok(d)) => final(self).view is Some && view_holds(
                    final(self).view->0,
                    q,
                    Some(d),
                ) && final(self)@ == (QuickData {
                    view: final(self).view,
                    error: None,
                    dirty: false,
                    ..old(self)@
                }),
                (Ok(q), Err(e)) => final(self).view is Some && view_holds(
                    final(self).view->0,
                    q,
                    None,
                ) && final(self)@ == (QuickData {
                    view: final(self).view,
                    error: Some(e.message@),
                    dirty: false,
                    ..old(self)@
                }),
                (Err(e), _) => final(self)@ == (QuickData {
                    view: None,
                    error: Some(e.message@),
                    dirty: false,
                    ..old(self)@
                }),
            },
    {
        self.dirty = false;
        match rows {
            Ok(q) => match day {
                Ok(d) => {
                    self.view = Some(build_view(q, Some(d)));
                    self.error = None;
                },
                Err(e) => {
                    self.view = Some(build_view(q, None));
                    self.error = Some(e.message);
                },
            },
            Err(e) => {
                self.view = None;
                self.error = Some(e.message);
            },
        }
    }
}

// --- the rows ---

/// Whether `row` shows the type `id` of the view.
pub open spec fn row_shows(row: Row, v: QuickView, id: i64) -> bool {
    &&& catalog::type_index(v.types@, id) matches Some(i)
    &&& row.task_type_id == id
    &&& row.name@ == v.types@[i].name@
    &&& row.category_name@ == catalog::category_name(v.categories@, v.types@[i].category_id)
    &&& row.today_count == catalog::count_in(v.today_counts@, id)
    &&& row.removable == catalog::count_in(v.today_removable@, id)
}

/// Whether `rows` are the results of the query: the ranked types, in order.
pub open spec fn are_rows(rows: Seq<Row>, v: QuickView, query: Seq<char>) -> bool {
    exists|ids: Seq<i64>| #[trigger]
        rank::is_search_result(
            ids,
            v.types@,
            v.today_counts@,
            quickadd::query_parts(query).0,
            MAX_ROWS as int,
        ) && {
            &&& rows.len() == ids.len()
            &&& forall|k: int| 0 <= k < rows.len() ==> row_shows(#[trigger] rows[k], v, ids[k])
        }
}

/// Whether every type of the view can be matched against the query.
pub open spec fn can_show(v: QuickView, query: Seq<char>) -> bool {
    let search = quickadd::query_parts(query).0;
    text::trimmed(search).len() == 0 || rank::searchable(v.types@, search)
}

proof fn lemma_ranked_ids_are_types(ids: Seq<i64>, v: QuickView, search: Seq<char>, k: int)
    requires
        rank::is_search_result(ids, v.types@, v.today_counts@, search, MAX_ROWS as int),
        0 <= k < ids.len(),
    ensures
        catalog::type_index(v.types@, ids[k]) is Some,
{
    let types = v.types@;
    if text::trimmed(search).len() == 0 {
        let scores = rank::today_scores(types, v.today_counts@);
        rank::law_top_ids_are_kept_types(
            ids,
            types,
            scores,
            rank::active_marks(types),
            MAX_ROWS as int,
        );
        assert(rank::is_kept_id(ids[k], types, rank::active_marks(types)));
        let i = choose|i: int|
            0 <= i < types.len() && #[trigger] rank::active_marks(types)[i] && types[i].id
                == ids[k];
        lemma_listed_type_is_found(types, i);
    } else {
        let scores = rank::search_scores(types, search);
        let keep = rank::match_marks(types, scores);
        rank::law_top_ids_are_kept_types(ids, types, scores, keep, MAX_ROWS as int);
        assert(rank::is_kept_id(ids[k], types, keep));
        let i = choose|i: int|
            0 <= i < types.len() && #[trigger] keep[i] && types[i].id == ids[k];
        lemma_listed_type_is_found(types, i);
    }
}

proof fn lemma_listed_type_is_found(types: Seq<TaskType>, i: int)
    requires
        0 <= i < types.len(),
    ensures
        catalog::type_index(types, types[i].id) is Some,
    decreases types.len(),
{
    if types[0].id != types[i].id {
        lemma_listed_type_is_found(types.drop_first(), i - 1);
    }
}

/// The result rows of a query; `None` where a type cannot be matched against its text.
pub fn result_rows(v: &QuickView, query: &str) -> (r: Option<Vec<Row>>)
    ensures
        match r {
            Some(rows) => can_show(*v, query@) && are_rows(rows@, *v, query@),
            None => !can_show(*v, query@),
        },
{
    let (search, _count) = quickadd::parse_query(query);
    let ids = match rank::rank_checked(
        v.types.as_slice(),
        &v.today_counts,
        search.as_str(),
        MAX_ROWS,
    ) {
        Some(ids) => ids,
        None => {
            return None;
        },
    };
    let mut rows: Vec<Row> = Vec::new();
    for k in 0..ids.len()
        invariant
            rank::is_search_result(ids@, v.types@, v.today_counts@, search@, MAX_ROWS as int),
            rows@.len() == k,
            forall|j: int| 0 <= j < k ==> row_shows(#[trigger] rows@[j], *v, ids@[j]),
    {
        let id: i64 = ids[k];
        proof {
            lemma_ranked_ids_are_types(ids@, *v, search@, k as int);
        }
        let i: usize = catalog::find_type(&v.types, id).unwrap();
        let t = &v.types[i];
        rows.push(
            Row {
                task_type_id: t.id,
                name: t.name.clone(),
                category_name: catalog::name_of_category(&v.categories, t.category_id),
                today_count: catalog::count_of(&v.today_counts, t.id),
                removable: catalog::count_of(&v.today_removable, t.id),
            },
        );
    }
    assert(rank::is_search_result(
        ids@,
        v.types@,
        v.today_counts@,
        quickadd::query_parts(query@).0,
        MAX_ROWS as int,
    ));
    Some(rows)
}

impl QuickData {
    /// The popup with the selection kept on one of `len` rows.
    pub open spec fn clamped(self, len: int) -> QuickData {
        QuickData {
            selected: if len == 0 {
                0
            } else if self.selected < len {
                self.selected
            } else {
                len - 1
            },
            ..self
        }
    }

    /// The popup after the arrow keys, with `len` rows.
    pub open spec fn arrowed(self, down: bool, up: bool, len: int) -> QuickData {
        let lower = if down && self.selected + 1 < len {
            self.selected + 1
        } else {
            self.selected
        };
        QuickData {
            selected: if up && lower > 0 {
                lower - 1
            } else {
                lower
            },
            ..self
        }
    }
}

impl QuickAddState {
    /// Keeps the selection on one of `len` rows.
    pub fn clamp_selection(&mut self, len: usize)
        ensures
            final(self)@ == old(self)@.clamped(len as int),
            final(self)@ == (QuickData {
                selected: if len == 0 {
                    0
                } else if old(self).selected < len {
                    old(self).selected as int
                } else {
                    len - 1
                },
                ..old(self)@
            }),
    {
        if len == 0 {
            self.selected = 0;
        } else if self.selected >= len {
            self.selected = len - 1;
        }
    }

    /// Moves the selection by the arrow keys, first down and then up, among `len` rows.
    pub fn move_selection(&mut self, down: bool, up: bool, len: usize)
        requires
            len == 0 ==> old(self).selected == 0,
            len > 0 ==> old(self).selected < len,
        ensures
            final(self)@ == old(self)@.arrowed(down, up, len as int),
            len > 0 ==> final(self).selected < len,
            final(self)@ == (QuickData {
                selected: ({
                    let s = old(self).selected as int;
                    let d = if down && s + 1 < len {
                        s + 1
                    } else {
                        s
                    };
                    if up && d > 0 {
                        d - 1
                    } else {
                        d
                    }
                }),
                ..old(self)@
            }),
    {
        if down && len > 0 && self.selected < len - 1 {
            self.selected = self.selected + 1;
        }
        if up && self.selected > 0 {
            self.selected = self.selected - 1;
        }
    }
}

// --- writing ---

/// What one frame concluded.
#[derive(Debug)]
pub enum Action {
    Nothing,
    /// Esc: the popup is to be hidden.
    Dismiss,
    /// A tally was written; the line that confirms it.
    Logged(String),
}

/// What is asked of the database.
#[derive(Debug)]
pub enum CommitRequest {
    Add { type_id: i64, date: String, count: i64 },
    Remove { type_id: i64, date: String, asked: i64 },
}

/// What the database answers.
#[derive(Debug)]
pub enum CommitReply {
    Added,
    /// How many tallies were removed, and how many rows were kept for their note.
    Removed { removed: i64, notes_protected: i64 },
    Failed(DbError),
}

/// Whether the request is what a count on a row means: a positive count adds, a negative one
/// removes.
pub open spec fn asks_for(r: CommitRequest, type_id: i64, date: Seq<char>, count: int) -> bool {
    match r {
        CommitRequest::Add { type_id: id, date: d, count: c } => count >= 0 && id == type_id && d@
            == date && c == count,
        CommitRequest::Remove { type_id: id, date: d, asked } => count < 0 && id == type_id && d@
            == date && asked == -count,
    }
}

/// What Enter or a click on a row asks for: a positive count adds, a negative one removes.
pub fn commit_request(row: &Row, date: &str, count: i64) -> (r: CommitRequest)
    requires
        count > i64::MIN,
    ensures
        asks_for(r, row.task_type_id, date@, count as int),
        if count >= 0 {
            r matches CommitRequest::Add { type_id, date: d, count: c } && type_id
                == row.task_type_id && d@ == date@ && c == count
        } else {
            r matches CommitRequest::Remove { type_id, date: d, asked } && type_id
                == row.task_type_id && d@ == date@ && asked == -count
        },
{
    if count >= 0 {
        CommitRequest::Add { type_id: row.task_type_id, date: date.to_owned(), count }
    } else {
        CommitRequest::Remove { type_id: row.task_type_id, date: date.to_owned(), asked: -count }
    }
}

/// The line that confirms what was written. A removal states what happened: it is often less
/// than what was asked for.
pub open spec fn commit_text(name: Seq<char>, count: int, reply: CommitReply) -> Option<Seq<char>> {
    match reply {
        CommitReply::Added => Some("+"@ + text::decimal(count) + " "@ + name),
        CommitReply::Removed { removed, notes_protected } => Some(
            "\u{2212}"@ + text::decimal(removed as int) + " "@ + name + (if removed < -count {
                " \u{2014} asked for "@ + text::decimal(-count) + (if notes_protected > 0 {
                    ", the rest carries a note"@
                } else {
                    ", that was all of today's"@
                })
            } else {
                Seq::empty()
            }),
        ),
        CommitReply::Failed(_) => None,
    }
}

impl QuickAddState {
    /// Takes the database's answer: the line that confirms what was written, or the failure is
    /// shown and the popup stays.
    pub fn commit_reply(&mut self, name: &str, count: i64, reply: CommitReply) -> (r: Option<String>)
        requires
            count > i64::MIN,
        ensures
            text::optional(r) == commit_text(name@, count as int, reply),
            final(self)@ == (match reply {
                CommitReply::Failed(e) => QuickData { error: Some(e.message@), ..old(self)@ },
                _ => old(self)@,
            }),
    {
        let mut line = String::new();
        match reply {
            CommitReply::Added => {
                text::push_text(&mut line, "+");
                text::push_decimal(&mut line, count);
                text::push_text(&mut line, " ");
                text::push_text(&mut line, name);
                assert(line@ =~= "+"@ + text::decimal(count as int) + " "@ + name@);
                Some(line)
            },
            CommitReply::Removed { removed, notes_protected } => {
                text::push_text(&mut line, "\u{2212}");
                text::push_decimal(&mut line, removed);
                text::push_text(&mut line, " ");
                text::push_text(&mut line, name);
                let asked: i64 = -count;
                if removed < asked {
                    text::push_text(&mut line, " \u{2014} asked for ");
                    text::push_decimal(&mut line, asked);
                    text::push_text(
                        &mut line,
                        if notes_protected > 0 {
                            ", the rest carries a note"
                        } else {
                            ", that was all of today's"
                        },
                    );
                }
                assert(line@ =~= commit_text(name@, count as int, reply)->0);
                Some(line)
            },
            CommitReply::Failed(e) => {
                self.error = Some(e.message);
                None
            },
        }
    }
}

/// What a frame concludes: a tally that was written outweighs Esc.
pub fn frame_action(escape: bool, logged: Option<String>) -> (r: Action)
    ensures
        match logged {
            Some(line) => r == Action::Logged(line),
            None => r == (if escape {
                Action::Dismiss
            } else {
                Action::Nothing
            }),
        },
{
    match logged {
        Some(line) => Action::Logged(line),
        None => if escape {
            Action::Dismiss
        } else {
            Action::Nothing
        },
    }
}

/// How many rows high the list is drawn: at least one, for the line that says nothing matches.
pub fn list_rows(len: usize) -> (r: usize)
    ensures
        r == (if len == 0 {
            1
        } else {
            len as int
        }),
{
    if len == 0 {
        1
    } else {
        len
    }
}

/// A write that failed confirms nothing, so it never dismisses the popup.
pub proof fn law_failure_keeps_the_popup(name: Seq<char>, count: int, e: DbError)
    ensures
        commit_text(name, count, CommitReply::Failed(e)) is None,
{
}

/// Every type of the log has a group, and each group holds the counts of its type's rows, in
/// their order, each with whether more than blanks stand in its note.
pub proof fn law_groups_hold_the_log(groups: Seq<RemovalGroup>, log: Seq<DayLogRow>, k: int)
    requires
        are_groups(groups, log),
        0 <= k < log.len(),
    ensures
        forall|a: int, b: int|
            0 <= a < b < groups.len() ==> (#[trigger] groups[a]).task_type_id != (
            #[trigger] groups[b]).task_type_id,
        exists|i: int, j: int|
            0 <= i < groups.len() && 0 <= j < groups[i].rows@.len() && groups[i].task_type_id
                == log[k].task_type_id && #[trigger] groups[i].rows@[j] == (
                log[k].count,
                !text::all_white(log[k].notes@),
            ),
{
    assert(has_group(groups, log[k].task_type_id));
    let i = choose|i: int|
        0 <= i < groups.len() && (#[trigger] groups[i]).task_type_id == log[k].task_type_id;
    let j = lemma_row_is_kept(log, k);
    lemma_blank_is_white(log[k].notes@);
    assert(groups[i].rows@[j] == (log[k].count, !text::all_white(log[k].notes@)));
}

proof fn lemma_blank_is_white(s: Seq<char>)
    ensures
        (text::trimmed(s).len() == 0) == text::all_white(s),
{
    if text::all_white(s) {
        text::law_trimming_keeps_the_middle(s, Seq::empty(), Seq::empty());
        assert(s + Seq::<char>::empty() + Seq::<char>::empty() =~= s);
    } else {
        lemma_trimmed_to_nothing(s);
    }
}

proof fn lemma_trimmed_to_nothing(s: Seq<char>)
    ensures
        text::trimmed(s).len() == 0 ==> text::all_white(s),
    decreases s.len(),
{
    if s.len() > 0 {
        if text::is_white(s[0]) {
            lemma_trimmed_to_nothing(s.drop_first());
            if text::trimmed(s).len() == 0 {
                assert forall|i: int| 0 <= i < s.len() implies text::is_white(#[trigger] s[i]) by {
                    if i > 0 {
                        assert(text::is_white(s.drop_first()[i - 1]));
                    }
                }
            }
        } else {
            lemma_end_keeps_a_word(s);
        }
    }
}

proof fn lemma_end_keeps_a_word(s: Seq<char>)
    requires
        s.len() > 0,
        !text::is_white(s[0]),
    ensures
        text::trim_end(s).len() > 0,
    decreases s.len(),
{
    if text::is_white(s.last()) {
        assert(s.len() > 1);
        lemma_end_keeps_a_word(s.drop_last());
    }
}

/// The groups hold no more than the log: each type once, and as many rows as the log has of it.
pub proof fn law_groups_hold_nothing_else(log: Seq<DayLogRow>, r: DayLogRow, id: i64)
    ensures
        rows_of_type(Seq::empty(), id).len() == 0,
        r.task_type_id == id ==> rows_of_type(log.push(r), id) == rows_of_type(log, id).push(
            (r.count, !text::all_white(r.notes@)),
        ),
        r.task_type_id != id ==> rows_of_type(log.push(r), id) == rows_of_type(log, id),
{
    assert(log.push(r).drop_last() =~= log);
    lemma_blank_is_white(r.notes@);
}

proof fn lemma_row_is_kept(log: Seq<DayLogRow>, k: int) -> (j: int)
    requires
        0 <= k < log.len(),
    ensures
        0 <= j < rows_of_type(log, log[k].task_type_id).len(),
        rows_of_type(log, log[k].task_type_id)[j] == (
            log[k].count,
            text::trimmed(log[k].notes@).len() > 0,
        ),
    decreases log.len(),
{
    let rest = log.drop_last();
    if k < rest.len() {
        assert(rest[k] == log[k]);
        lemma_row_is_kept(rest, k)
    } else {
        rows_of_type(rest, log[k].task_type_id).len() as int
    }
}

/// How much can be taken back of a type is what its last row says, and there is nothing for a
/// type without one.
pub proof fn law_removable_is_that_of_the_rows(rows: Seq<Removable>, r: Removable, id: i64)
    ensures
        removable_map(Seq::empty()) == Map::<i64, i64>::empty(),
        catalog::count_in(removable_map(rows.push(r)), r.task_type_id) == r.count,
        id != r.task_type_id ==> catalog::count_in(removable_map(rows.push(r)), id)
            == catalog::count_in(removable_map(rows), id),
{
    assert(rows.push(r).drop_last() =~= rows);
}

/// The popup holds the types and categories that the database answered; of a day whose numbers
/// could not be had it shows none.
pub proof fn law_popup_holds_the_answer(v: QuickView, rows: QuickRows, day: Option<DayNumbers>)
    requires
        view_holds(v, rows, day),
    ensures
        v.types@ == rows.types@,
        v.categories@ == rows.categories@,
        day matches Some(d) ==> v.today_counts@ == today::counts_by_type(d.totals@)
            && v.today_removable@ == removable_map(d.removable@),
        day is None ==> forall|id: i64|
            catalog::count_in(v.today_counts@, id) == 0 && #[trigger] catalog::count_in(
                v.today_removable@,
                id,
            ) == 0,
{
}

/// Each result row stands for one of the types: it has the type's id and name, the name of its
/// category, what it was tallied today and how much of that can be taken back. There are at most
/// six of them.
pub proof fn law_rows_are_types(rows: Seq<Row>, v: QuickView, query: Seq<char>, k: int) -> (i: int)
    requires
        are_rows(rows, v, query),
        0 <= k < rows.len(),
    ensures
        0 <= i < v.types@.len(),
        rows[k].task_type_id == v.types@[i].id,
        rows[k].name@ == v.types@[i].name@,
        rows[k].category_name@ == catalog::category_name(v.categories@, v.types@[i].category_id),
        rows[k].today_count == catalog::count_in(v.today_counts@, v.types@[i].id),
        rows[k].removable == catalog::count_in(v.today_removable@, v.types@[i].id),
        rows.len() <= 6,
{
    let search = quickadd::query_parts(query).0;
    let ids = choose|ids: Seq<i64>| #[trigger]
        rank::is_search_result(ids, v.types@, v.today_counts@, search, MAX_ROWS as int) && {
            &&& rows.len() == ids.len()
            &&& forall|k: int| 0 <= k < rows.len() ==> row_shows(#[trigger] rows[k], v, ids[k])
        };
    assert(row_shows(rows[k], v, ids[k]));
    catalog::law_lookup_finds_the_first_type(v.types@, ids[k]);
    match catalog::type_index(v.types@, ids[k]) {
        Some(i) => i,
        None => 0,
    }
}

/// A fresh popup has no text, its first row selected, and everything to load.
pub proof fn law_fresh_popup_is_blank()
    ensures
        QuickData::fresh().query.len() == 0,
        QuickData::fresh().selected == 0,
        QuickData::fresh().dirty,
        QuickData::fresh().view is None,
        QuickData::fresh().error is None,
{
}

/// The selection stays where it is as long as there is a row, and falls back to the last row;
/// nothing else changes.
pub proof fn law_selection_stays_on_a_row(s: QuickData, len: int)
    requires
        s.selected >= 0,
        len >= 0,
    ensures
        s.selected < len ==> s.clamped(len) == s,
        0 < len <= s.selected ==> s.clamped(len).selected == len - 1,
        len == 0 ==> s.clamped(len).selected == 0,
        s.clamped(len).query == s.query,
        s.clamped(len).dirty == s.dirty,
        s.clamped(len).view == s.view,
        s.clamped(len).error == s.error,
{
}

/// Each arrow key moves the selection by one row and stops at either end; nothing else changes.
pub proof fn law_arrows_move_by_one_row(s: QuickData, len: int)
    requires
        0 <= s.selected < len,
    ensures
        s.arrowed(false, false, len) == s,
        s.selected < len - 1 ==> s.arrowed(true, false, len).selected == s.selected + 1,
        s.selected == len - 1 ==> s.arrowed(true, false, len) == s,
        s.selected > 0 ==> s.arrowed(false, true, len).selected == s.selected - 1,
        s.selected == 0 ==> s.arrowed(false, true, len) == s,
        s.selected < len - 1 ==> s.arrowed(true, true, len) == s,
        s.arrowed(true, false, len).query == s.query,
        s.arrowed(false, true, len).query == s.query,
        s.arrowed(true, false, len).dirty == s.dirty,
        s.arrowed(false, true, len).dirty == s.dirty,
        s.arrowed(true, false, len).view == s.view,
        s.arrowed(false, true, len).view == s.view,
        s.arrowed(true, false, len).error == s.error,
        s.arrowed(false, true, len).error == s.error,
{
}

/// A count that is not negative adds as many tallies to the row's type on the day; a negative
/// one asks to take as many back.
pub proof fn law_sign_tells_adding_from_removing(
    r: CommitRequest,
    type_id: i64,
    date: Seq<char>,
    count: int,
)
    requires
        asks_for(r, type_id, date, count),
    ensures
        count >= 0 <==> r is Add,
        count < 0 <==> r is Remove,
        r matches CommitRequest::Add { type_id: id, date: d, count: c } ==> id == type_id && d@
            == date && c == count,
        r matches CommitRequest::Remove { type_id: id, date: d, asked } ==> id == type_id && d@
            == date && asked == -count && asked > 0,
{
}

/// The line that confirms a write names the type and what was written. A removal that fell short
/// also says what was asked for, and why.
pub proof fn law_confirmation_says_what_happened(
    name: Seq<char>,
    count: int,
    removed: i64,
    notes_protected: i64,
)
    ensures
        commit_text(name, count, CommitReply::Added) == Some(
            "+"@ + text::decimal(count) + " "@ + name,
        ),
        removed >= -count ==> commit_text(
            name,
            count,
            CommitReply::Removed { removed, notes_protected },
        ) == Some("\u{2212}"@ + text::decimal(removed as int) + " "@ + name),
        removed < -count && notes_protected > 0 ==> commit_text(
            name,
            count,
            CommitReply::Removed { removed, notes_protected },
        ) == Some(
            "\u{2212}"@ + text::decimal(removed as int) + " "@ + name + (" \u{2014} asked for "@
                + text::decimal(-count) + ", the rest carries a note"@),
        ),
        removed < -count && notes_protected <= 0 ==> commit_text(
            name,
            count,
            CommitReply::Removed { removed, notes_protected },
        ) == Some(
            "\u{2212}"@ + text::decimal(removed as int) + " "@ + name + (" \u{2014} asked for "@
                + text::decimal(-count) + ", that was all of today's"@),
        ),
{
    if removed >= -count {
        assert("\u{2212}"@ + text::decimal(removed as int) + " "@ + name + Seq::<char>::empty()
            =~= "\u{2212}"@ + text::decimal(removed as int) + " "@ + name);
    }
}

} // verus!
