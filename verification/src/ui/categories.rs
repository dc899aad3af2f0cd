//! The manage-categories dialog: rename in place, reorder, add, and remove or move.
use vstd::prelude::*;

use crate::catalog::{self, Category, TaskType, TypeLifetimeTotal, TypeWrite};
use crate::error::{DbError, ErrorKind};
use crate::text;
use crate::ui::types::{self, CatAgg};

verus! {

/// The dialog's rows and drafts.
#[derive(Debug)]
pub struct CategoriesModal {
    pub rows: Vec<CatRow>,
    pub new_name: String,
    pub error: Option<String>,
    /// Set while a row's drag handle is held.
    pub drag: Option<DragState>,
    /// Open when a category that still holds task types is to be removed.
    pub move_dialog: Option<MoveDialogState>,
}

/// A row that is being dragged.
#[derive(Clone, Copy, Debug, PartialEq, Eq, Structural)]
pub struct DragState {
    pub id: i64,
    pub start_index: usize,
}

/// One category.
#[derive(Debug)]
pub struct CatRow {
    pub id: i64,
    pub name: String,
    pub type_count: i64,
    pub tally_count: i64,
    /// `Some` while this row is being renamed in place.
    pub rename: Option<RenameState>,
}

/// A rename under way.
#[derive(Debug)]
pub struct RenameState {
    pub buffer: String,
    /// True for the frame in which the row entered rename mode, so the field takes the focus
    /// once.
    pub just_opened: bool,
    pub error: Option<String>,
}

/// A category that types can be moved to.
#[derive(Debug)]
pub struct OtherCategory {
    pub id: i64,
    pub name: String,
    pub type_count: i64,
}

/// The dialog for removing a category that still holds task types: they are moved first.
#[derive(Debug)]
pub struct MoveDialogState {
    pub category_id: i64,
    pub category_name: String,
    pub type_count: i64,
    pub tally_count: i64,
    /// The task types of the category.
    pub types: Vec<TaskType>,
    /// Every other category.
    pub others: Vec<OtherCategory>,
    pub target: i64,
    pub error: Option<String>,
}

/// What a change means for the screens.
#[derive(Clone, Copy, Debug, PartialEq, Eq, Structural)]
pub struct Changes {
    /// The rows have to be reloaded from the database.
    pub data_changed: bool,
    /// The pill row of the Today screen has to be rebuilt.
    pub today_dirty: bool,
}

pub open spec fn no_changes() -> Changes {
    Changes { data_changed: false, today_dirty: false }
}

pub open spec fn everything_changed() -> Changes {
    Changes { data_changed: true, today_dirty: true }
}

/// A row as contracts speak of it.
#[verifier::ext_equal]
pub struct RowData {
    pub id: i64,
    pub name: Seq<char>,
    pub type_count: i64,
    pub tally_count: i64,
    pub rename: Option<RenameData>,
}

#[verifier::ext_equal]
pub struct RenameData {
    pub buffer: Seq<char>,
    pub just_opened: bool,
    pub error: Option<Seq<char>>,
}

#[verifier::ext_equal]
pub struct MoveData {
    pub category_id: i64,
    pub category_name: Seq<char>,
    pub type_count: i64,
    pub tally_count: i64,
    pub types: Seq<TaskType>,
    pub others: Seq<OtherCategory>,
    pub target: i64,
    pub error: Option<Seq<char>>,
}

/// The dialog as contracts speak of it.
#[verifier::ext_equal]
pub struct CategoriesData {
    pub rows: Seq<RowData>,
    pub new_name: Seq<char>,
    pub error: Option<Seq<char>>,
    pub drag: Option<DragState>,
    pub move_dialog: Option<MoveData>,
}

impl View for RenameState {
    type V = RenameData;

    open spec fn view(&self) -> RenameData {
        RenameData {
            buffer: self.buffer@,
            just_opened: self.just_opened,
            error: text::optional(self.error),
        }
    }
}

impl View for CatRow {
    type V = RowData;

    open spec fn view(&self) -> RowData {
        RowData {
            id: self.id,
            name: self.name@,
            type_count: self.type_count,
            tally_count: self.tally_count,
            rename: match self.rename {
                Some(r) => Some(r@),
                None => None,
            },
        }
    }
}

impl View for MoveDialogState {
    type V = MoveData;

    open spec fn view(&self) -> MoveData {
        MoveData {
            category_id: self.category_id,
            category_name: self.category_name@,
            type_count: self.type_count,
            tally_count: self.tally_count,
            types: self.types@,
            others: self.others@,
            target: self.target,
            error: text::optional(self.error),
        }
    }
}

pub open spec fn rows_data(rows: Seq<CatRow>) -> Seq<RowData> {
    Seq::new(rows.len(), |i: int| rows[i]@)
}

impl View for CategoriesModal {
    type V = CategoriesData;

    open spec fn view(&self) -> CategoriesData {
        CategoriesData {
            rows: rows_data(self.rows@),
            new_name: self.new_name@,
            error: text::optional(self.error),
            drag: self.drag,
            move_dialog: match self.move_dialog {
                Some(m) => Some(m@),
                None => None,
            },
        }
    }
}

/// The ids of the rows, in order.
pub open spec fn row_ids(rows: Seq<RowData>) -> Seq<i64> {
    Seq::new(rows.len(), |i: int| rows[i].id)
}

/// The place of the first row with this id.
pub open spec fn row_index(rows: Seq<RowData>, id: i64) -> Option<int>
    decreases rows.len(),
{
    if rows.len() == 0 {
        None
    } else if rows[0].id == id {
        Some(0)
    } else {
        match row_index(rows.drop_first(), id) {
            Some(i) => Some(i + 1),
            None => None,
        }
    }
}

proof fn lemma_row_index(rows: Seq<RowData>, id: i64)
    ensures
        row_index(rows, id) matches Some(i) ==> 0 <= i < rows.len() && rows[i].id == id,
    decreases rows.len(),
{
    if rows.len() > 0 {
        lemma_row_index(rows.drop_first(), id);
    }
}

fn find_row(rows: &Vec<CatRow>, id: i64) -> (r: Option<usize>)
    ensures
        match (r, row_index(rows_data(rows@), id)) {
            (Some(a), Some(b)) => a == b && a < rows@.len() && rows@[b].id == id,
            (None, None) => true,
            _ => false,
        },
{
    let ghost all = rows_data(rows@);
    assert(all.skip(0) =~= all);
    for i in 0..rows.len()
        invariant
            all == rows_data(rows@),
            match (row_index(all, id), row_index(all.skip(i as int), id)) {
                (Some(a), Some(b)) => a == b + i,
                (None, None) => true,
                _ => false,
            },
    {
        assert(all.skip(i as int)[0] == rows@[i as int]@);
        if rows[i].id == id {
            return Some(i);
        }
        assert(all.skip(i as int).drop_first() =~= all.skip(i + 1));
    }
    None
}

/// Whether `r` is the row of category `c`, with no rename under way.
pub open spec fn is_fresh_row(
    r: RowData,
    c: Category,
    all: Seq<TaskType>,
    totals: Seq<TypeLifetimeTotal>,
) -> bool {
    &&& r.id == c.id
    &&& r.name == c.name@
    &&& r.type_count == types::types_in(all, c.id)
    &&& r.tally_count == types::tallies_in(all, totals, c.id)
    &&& r.rename is None
}

/// Whether the rows are those of the categories, in order.
pub open spec fn are_fresh_rows(
    rows: Seq<RowData>,
    categories: Seq<Category>,
    all: Seq<TaskType>,
    totals: Seq<TypeLifetimeTotal>,
) -> bool {
    &&& rows.len() == categories.len()
    &&& forall|i: int|
        0 <= i < rows.len() ==> is_fresh_row(#[trigger] rows[i], categories[i], all, totals)
}

/// The dialog without rows, as it is shown when the categories could not be loaded.
pub fn empty_modal() -> (r: CategoriesModal)
    ensures
        r@ == (CategoriesData {
            rows: Seq::empty(),
            new_name: Seq::empty(),
            error: None,
            drag: None,
            move_dialog: None,
        }),
{
    let r = CategoriesModal {
        rows: Vec::new(),
        new_name: String::new(),
        error: None,
        drag: None,
        move_dialog: None,
    };
    assert(r@.rows =~= Seq::<RowData>::empty());
    r
}

/// The dialog for what the database holds.
pub fn load_categories_modal(
    categories: &Vec<Category>,
    all: &Vec<TaskType>,
    totals: &Vec<TypeLifetimeTotal>,
) -> (r: CategoriesModal)
    requires
        types::aggregates_fit(categories@, all@, totals@),
    ensures
        are_fresh_rows(r@.rows, categories@, all@, totals@),
        r@ == (CategoriesData {
            rows: r@.rows,
            new_name: Seq::empty(),
            error: None,
            drag: None,
            move_dialog: None,
        }),
{
    let aggs = types::aggregate_categories(
        categories.as_slice(),
        all.as_slice(),
        totals.as_slice(),
    );
    let mut rows: Vec<CatRow> = Vec::new();
    for i in 0..aggs.len()
        invariant
            aggs@.len() == categories@.len(),
            forall|k: int|
                0 <= k < aggs@.len() ==> types::is_row_of(
                    #[trigger] aggs@[k],
                    categories@[k],
                    all@,
                    totals@,
                ),
            rows@.len() == i,
            forall|k: int|
                0 <= k < i ==> is_fresh_row(
                    (#[trigger] rows@[k])@,
                    categories@[k],
                    all@,
                    totals@,
                ),
    {
        let a: &CatAgg = &aggs[i];
        assert(types::is_row_of(aggs@[i as int], categories@[i as int], all@, totals@));
        rows.push(
            CatRow {
                id: a.id,
                name: a.name.clone(),
                type_count: a.type_count,
                tally_count: a.tally_count,
                rename: None,
            },
        );
    }
    CategoriesModal { rows, new_name: String::new(), error: None, drag: None, move_dialog: None }
}

// --- reordering ---

/// The place an arrow moves a row to.
pub open spec fn nudged(index: int, count: int, up: bool) -> Option<int> {
    if up {
        if index > 0 {
            Some(index - 1)
        } else {
            None
        }
    } else if index + 1 < count {
        Some(index + 1)
    } else {
        None
    }
}

/// The arrows beside a row move it by one place; the first row has no way up and the last none
/// down.
pub fn nudge_target(index: usize, count: usize, up: bool) -> (r: Option<usize>)
    requires
        index < count,
    ensures
        match (r, nudged(index as int, count as int, up)) {
            (Some(a), Some(b)) => a == b,
            (None, None) => true,
            _ => false,
        },
        r == (if up {
            if index > 0 {
                Some((index - 1) as usize)
            } else {
                None
            }
        } else if index + 1 < count {
            Some((index + 1) as usize)
        } else {
            None
        }),
{
    if up {
        if index > 0 {
            Some(index - 1)
        } else {
            None
        }
    } else if index + 1 < count {
        Some(index + 1)
    } else {
        None
    }
}

impl CategoriesModal {
    fn ids(&self) -> (r: Vec<i64>)
        ensures
            r@ == row_ids(self@.rows),
    {
        let mut ids: Vec<i64> = Vec::new();
        for i in 0..self.rows.len()
            invariant
                ids@ == row_ids(self@.rows).take(i as int),
        {
            ids.push(self.rows[i].id);
        }
        assert(ids@ =~= row_ids(self@.rows));
        ids
    }

    /// The order to write when a row is moved by its arrows, unless it stays the same.
    pub fn nudge(&self, from: usize, to: usize) -> (r: Option<Vec<i64>>)
        ensures
            ({
                let ids = row_ids(self@.rows);
                let ordered = types::moved(ids, from as int, to as int);
                match r {
                    Some(v) => v@ == ordered && ordered != ids,
                    None => ordered == ids,
                }
            }),
    {
        let ids = self.ids();
        let ordered = types::reordered_ids(ids.as_slice(), from, to);
        if same_ids(&ordered, &ids) {
            None
        } else {
            Some(ordered)
        }
    }

    /// A row's handle was taken.
    pub fn start_drag(&mut self, id: i64, start_index: usize)
        ensures
            final(self)@ == (CategoriesData {
                drag: if old(self).drag is None {
                    Some(DragState { id, start_index })
                } else {
                    old(self).drag
                },
                ..old(self)@
            }),
    {
        if self.drag.is_none() {
            self.drag = Some(DragState { id, start_index });
        }
    }

    /// The dragged row is over place `target`: it moves there, the others keep their order.
    pub fn drag_to(&mut self, target: usize)
        ensures
            final(self)@ == old(self)@.dragged_to(target as int),
    {
        if let Some(d) = self.drag {
            if let Some(cur) = find_row(&self.rows, d.id) {
                if cur != target {
                    let ghost before = self.rows@;
                    let row = self.rows.remove(cur);
                    let at: usize = if target < self.rows.len() {
                        target
                    } else {
                        self.rows.len()
                    };
                    self.rows.insert(at, row);
                    assert(rows_data(self.rows@) =~= types::moved(
                        rows_data(before),
                        cur as int,
                        target as int,
                    ));
                }
            }
        }
    }

    /// The handle was let go: the order to write, if the row has moved.
    pub fn end_drag(&mut self) -> (r: Option<Vec<i64>>)
        ensures
            final(self)@ == (CategoriesData { drag: None, ..old(self)@ }),
            match r {
                Some(v) => old(self)@.drag_moved() && v@ == row_ids(old(self)@.rows),
                None => !old(self)@.drag_moved(),
            },
    {
        match self.drag.take() {
            None => None,
            Some(d) => {
                let cur: usize = match find_row(&self.rows, d.id) {
                    Some(i) => i,
                    None => d.start_index,
                };
                if cur != d.start_index {
                    Some(self.ids())
                } else {
                    None
                }
            },
        }
    }
}

impl CategoriesData {
    /// The dialog once the dragged row is over place `target`.
    pub open spec fn dragged_to(self, target: int) -> CategoriesData {
        match self.drag {
            None => self,
            Some(d) => match row_index(self.rows, d.id) {
                None => self,
                Some(cur) => CategoriesData { rows: types::moved(self.rows, cur, target), ..self },
            },
        }
    }

    /// Whether the dragged row stands elsewhere than where it was taken.
    pub open spec fn drag_moved(self) -> bool {
        self.drag matches Some(d) && row_index(self.rows, d.id) matches Some(cur) && cur
            != d.start_index
    }
}

fn same_ids(a: &Vec<i64>, b: &Vec<i64>) -> (r: bool)
    ensures
        r == (a@ == b@),
{
    if a.len() != b.len() {
        return false;
    }
    for i in 0..a.len()
        invariant
            a@.len() == b@.len(),
            forall|k: int| 0 <= k < i ==> a@[k] == b@[k],
    {
        if a[i] != b[i] {
            return false;
        }
    }
    assert(a@ =~= b@);
    true
}

// --- renaming ---

/// The row with the given rename state.
pub open spec fn with_rename(row: RowData, rename: Option<RenameData>) -> RowData {
    RowData { rename, ..row }
}

impl CategoriesData {
    /// The dialog with a rename of `id` opened and every other one closed.
    pub open spec fn renaming(self, id: i64) -> CategoriesData {
        let closed = Seq::new(self.rows.len(), |i: int| with_rename(self.rows[i], None));
        CategoriesData {
            rows: match row_index(self.rows, id) {
                None => closed,
                Some(i) => closed.update(
                    i,
                    with_rename(
                        self.rows[i],
                        Some(
                            RenameData {
                                buffer: self.rows[i].name,
                                just_opened: true,
                                error: None,
                            },
                        ),
                    ),
                ),
            },
            ..self
        }
    }

    /// The dialog with the rename of `id` replaced.
    pub open spec fn rename_set(self, id: i64, rename: Option<RenameData>) -> CategoriesData {
        match row_index(self.rows, id) {
            None => self,
            Some(i) => CategoriesData {
                rows: self.rows.update(i, with_rename(self.rows[i], rename)),
                ..self
            },
        }
    }

    /// The dialog with a failure shown in the rename of `id`, where it is open.
    pub open spec fn rename_failed(self, id: i64, why: Seq<char>) -> CategoriesData {
        match row_index(self.rows, id) {
            Some(i) => match self.rows[i].rename {
                Some(r) => self.rename_set(id, Some(RenameData { error: Some(why), ..r })),
                None => self,
            },
            None => self,
        }
    }
}

fn row_with_rename(row: CatRow, rename: Option<RenameState>) -> (r: CatRow)
    ensures
        r@ == with_rename(
            row@,
            match rename {
                Some(s) => Some(s@),
                None => None,
            },
        ),
{
    CatRow {
        id: row.id,
        name: row.name,
        type_count: row.type_count,
        tally_count: row.tally_count,
        rename,
    }
}

impl CategoriesModal {
    fn set_rename(&mut self, at: usize, rename: Option<RenameState>)
        requires
            at < old(self).rows@.len(),
        ensures
            final(self)@ == (CategoriesData {
                rows: old(self)@.rows.update(
                    at as int,
                    with_rename(
                        old(self)@.rows[at as int],
                        match rename {
                            Some(s) => Some(s@),
                            None => None,
                        },
                    ),
                ),
                ..old(self)@
            }),
    {
        let ghost before = self@;
        let row = self.rows.remove(at);
        self.rows.insert(at, row_with_rename(row, rename));
        assert(self@.rows =~= before.rows.update(
            at as int,
            with_rename(
                before.rows[at as int],
                match rename {
                    Some(s) => Some(s@),
                    None => None,
                },
            ),
        ));
    }

    /// Opens the rename field of a row and closes any other.
    pub fn start_rename(&mut self, id: i64)
        ensures
            final(self)@ == old(self)@.renaming(id),
    {
        let ghost before = self@;
        let found = find_row(&self.rows, id);
        let n: usize = self.rows.len();
        for i in 0..n
            invariant
                n == self@.rows.len(),
                n == before.rows.len(),
                self@ == (CategoriesData { rows: self@.rows, ..before }),
                forall|k: int|
                    0 <= k < before.rows.len() ==> #[trigger] self@.rows[k] == (if k < i {
                        with_rename(before.rows[k], None)
                    } else {
                        before.rows[k]
                    }),
        {
            self.set_rename(i, None);
        }
        assert(self@.rows =~= Seq::new(
            before.rows.len(),
            |i: int| with_rename(before.rows[i], None),
        ));
        if let Some(i) = found {
            assert(self@.rows[i as int] == self.rows@[i as int]@);
            let buffer = self.rows[i].name.clone();
            self.set_rename(i, Some(RenameState { buffer, just_opened: true, error: None }));
            assert(self@.rows[i as int] =~= with_rename(
                before.rows[i as int],
                self@.rows[i as int].rename,
            ));
        }
    }

    /// Closes the rename field of a row; the name stays as it was.
    pub fn cancel_rename(&mut self, id: i64)
        ensures
            final(self)@ == old(self)@.rename_set(id, None),
    {
        if let Some(i) = find_row(&self.rows, id) {
            self.set_rename(i, None);
        }
    }

    fn fail_rename(&mut self, id: i64, why: String)
        ensures
            final(self)@ == old(self)@.rename_failed(id, why@),
    {
        if let Some(i) = find_row(&self.rows, id) {
            assert(self@.rows[i as int] == self.rows@[i as int]@);
            if let Some(s) = &self.rows[i].rename {
                let state = RenameState {
                    buffer: s.buffer.clone(),
                    just_opened: s.just_opened,
                    error: Some(why),
                };
                self.set_rename(i, Some(state));
            }
        }
    }
}

/// What becomes of a rename in a frame.
#[derive(Clone, Copy, Debug, PartialEq, Eq, Structural)]
pub enum RenameAction {
    Keep,
    Save,
    Cancel,
}

/// What becomes of a rename in a frame.
pub open spec fn rename_outcome(saved: bool, escape: bool, lost_focus: bool) -> RenameAction {
    if saved {
        RenameAction::Save
    } else if escape || lost_focus {
        RenameAction::Cancel
    } else {
        RenameAction::Keep
    }
}

/// One frame of a rename: saving comes first, and leaving the field otherwise cancels.
pub fn rename_frame(saved: bool, escape: bool, lost_focus: bool) -> (r: RenameAction)
    ensures
        r == rename_outcome(saved, escape, lost_focus),
        r == (if saved {
            RenameAction::Save
        } else if escape || lost_focus {
            RenameAction::Cancel
        } else {
            RenameAction::Keep
        }),
{
    if saved {
        RenameAction::Save
    } else if escape || lost_focus {
        RenameAction::Cancel
    } else {
        RenameAction::Keep
    }
}

// --- removing ---

/// What removing a category takes.
#[derive(Debug)]
pub enum RemoveStep {
    Nothing,
    /// The category is empty and can go.
    Delete { id: i64 },
    /// The category still holds types: load what the move dialog shows.
    LoadMove { id: i64, name: String },
}

/// Whether `r` is what removing the category `id` takes.
pub open spec fn removal_takes(rows: Seq<RowData>, id: i64, r: RemoveStep) -> bool {
    match row_index(rows, id) {
        None => r is Nothing,
        Some(i) => if rows[i].type_count == 0 {
            r matches RemoveStep::Delete { id: k } && k == id
        } else {
            r matches RemoveStep::LoadMove { id: k, name } && k == id && name@ == rows[i].name
        },
    }
}

impl CategoriesModal {
    /// What removing the category of a row takes.
    pub fn remove(&self, id: i64) -> (r: RemoveStep)
        ensures
            removal_takes(self@.rows, id, r),
            match row_index(self@.rows, id) {
                None => r is Nothing,
                Some(i) => if self@.rows[i].type_count == 0 {
                    r == (RemoveStep::Delete { id })
                } else {
                    r matches RemoveStep::LoadMove { id: k, name } && k == id && name@
                        == self@.rows[i].name
                },
            },
    {
        match find_row(&self.rows, id) {
            None => RemoveStep::Nothing,
            Some(i) => {
                assert(self@.rows[i as int] == self.rows@[i as int]@);
                if self.rows[i].type_count == 0 {
                    RemoveStep::Delete { id }
                } else {
                    RemoveStep::LoadMove { id, name: self.rows[i].name.clone() }
                }
            },
        }
    }
}

/// The types of a category, in order.
pub open spec fn types_of(all: Seq<TaskType>, category_id: i64) -> Seq<TaskType> {
    all.filter(|t: TaskType| t.category_id == category_id)
}

/// The rows other than that of a category, in order.
pub open spec fn other_rows(rows: Seq<RowData>, category_id: i64) -> Seq<RowData> {
    rows.filter(|r: RowData| r.id != category_id)
}

/// Whether `o` offers the category of row `r`.
pub open spec fn offers(o: OtherCategory, r: RowData) -> bool {
    o.id == r.id && o.name@ == r.name && o.type_count == r.type_count
}

fn types_of_category(all: &Vec<TaskType>, category_id: i64) -> (r: Vec<TaskType>)
    ensures
        r@ == types_of(all@, category_id),
{
    let mut r: Vec<TaskType> = Vec::new();
    let ghost keep = |t: TaskType| t.category_id == category_id;
    assert(r@ =~= all@.take(0).filter(keep)) by {
        reveal(Seq::filter);
    }
    for i in 0..all.len()
        invariant
            keep == (|t: TaskType| t.category_id == category_id),
            r@ == all@.take(i as int).filter(keep),
    {
        proof {
            reveal(Seq::filter);
            assert(all@.take(i + 1).drop_last() =~= all@.take(i as int));
        }
        if all[i].category_id == category_id {
            r.push(all[i].copy());
        }
    }
    assert(all@.take(all@.len() as int) =~= all@);
    r
}

fn other_categories(rows: &Vec<CatRow>, category_id: i64) -> (r: Vec<OtherCategory>)
    ensures
        r@.len() == other_rows(rows_data(rows@), category_id).len(),
        forall|i: int|
            0 <= i < r@.len() ==> offers(
                #[trigger] r@[i],
                other_rows(rows_data(rows@), category_id)[i],
            ),
{
    let mut r: Vec<OtherCategory> = Vec::new();
    let ghost all = rows_data(rows@);
    let ghost keep = |r: RowData| r.id != category_id;
    assert(all.take(0).filter(keep).len() == 0) by {
        reveal(Seq::filter);
    }
    for i in 0..rows.len()
        invariant
            all == rows_data(rows@),
            keep == (|r: RowData| r.id != category_id),
            r@.len() == all.take(i as int).filter(keep).len(),
            forall|k: int|
                0 <= k < r@.len() ==> offers(#[trigger] r@[k], all.take(i as int).filter(keep)[k]),
    {
        proof {
            reveal(Seq::filter);
            assert(all.take(i + 1).drop_last() =~= all.take(i as int));
            assert(all.take(i + 1).last() == rows@[i as int]@);
        }
        if rows[i].id != category_id {
            r.push(
                OtherCategory {
                    id: rows[i].id,
                    name: rows[i].name.clone(),
                    type_count: rows[i].type_count,
                },
            );
        }
    }
    assert(all.take(all.len() as int) =~= all);
    r
}

/// Whether `m` is the move dialog for a category.
pub open spec fn is_move_dialog(
    m: MoveData,
    category_id: i64,
    name: Seq<char>,
    rows: Seq<RowData>,
    all: Seq<TaskType>,
    totals: Seq<TypeLifetimeTotal>,
) -> bool {
    let others = other_rows(rows, category_id);
    &&& m.category_id == category_id
    &&& m.category_name == name
    &&& m.types == types_of(all, category_id)
    &&& m.type_count == types_of(all, category_id).len()
    &&& m.tally_count == types::tallies_in(all, totals, category_id)
    &&& m.others.len() == others.len()
    &&& forall|i: int| 0 <= i < m.others.len() ==> offers(#[trigger] m.others[i], others[i])
    &&& m.target == (if others.len() > 0 {
        others[0].id
    } else {
        0
    })
    &&& m.error is None
}

impl CategoriesModal {
    /// Opens the move dialog for a category that still holds types. The first other category
    /// is preselected.
    pub fn open_move_dialog(
        &mut self,
        category_id: i64,
        name: &str,
        all: &Vec<TaskType>,
        totals: &Vec<TypeLifetimeTotal>,
    )
        requires
            all@.len() <= i64::MAX,
            types::tallies_fit(all@, totals@, category_id),
        ensures
            final(self)@.move_dialog is Some,
            is_move_dialog(
                final(self)@.move_dialog->0,
                category_id,
                name@,
                old(self)@.rows,
                all@,
                totals@,
            ),
            final(self)@ == (CategoriesData {
                move_dialog: final(self)@.move_dialog,
                ..old(self)@
            }),
    {
        let types = types_of_category(all, category_id);
        let others = other_categories(&self.rows, category_id);
        let tally_count: i64 = types::category_tallies(
            all.as_slice(),
            totals.as_slice(),
            category_id,
        ).unwrap();
        let target: i64 = if others.len() > 0 {
            others[0].id
        } else {
            0
        };
        assert(others@.len() > 0 ==> offers(others@[0], other_rows(self@.rows, category_id)[0]));
        proof {
            all@.lemma_filter_len(|t: TaskType| t.category_id == category_id);
        }
        let type_count: i64 = types.len() as i64;
        self.move_dialog = Some(
            MoveDialogState {
                category_id,
                category_name: name.to_owned(),
                type_count,
                tally_count,
                types,
                others,
                target,
                error: None,
            },
        );
    }

    /// Shows why the move dialog could not be opened.
    pub fn move_dialog_failed(&mut self, e: DbError)
        ensures
            final(self)@ == (CategoriesData { error: Some(e.message@), ..old(self)@ }),
    {
        self.error = Some(e.message);
    }
}

// --- what the database answers ---

/// A change to the categories that the database was asked for.
#[derive(Clone, Copy, Debug, PartialEq, Eq, Structural)]
pub enum CategoryChange {
    /// The order, after a click on an arrow.
    Nudge,
    /// The order, after a drag.
    Drag,
    Rename { id: i64 },
    Delete,
    Create,
}

impl CategoriesData {
    /// The dialog after the database has answered a change.
    pub open spec fn answered(
        self,
        change: CategoryChange,
        answer: Result<(), DbError>,
    ) -> CategoriesData {
        match (change, answer) {
            (CategoryChange::Delete, Ok(_)) => CategoriesData { error: None, ..self },
            (CategoryChange::Create, Ok(_)) => CategoriesData {
                new_name: Seq::empty(),
                error: None,
                ..self
            },
            (_, Ok(_)) => self,
            (CategoryChange::Rename { id }, Err(e)) => self.rename_failed(
                id,
                if e.kind == ErrorKind::Duplicate {
                    "a category with that name already exists"@
                } else {
                    e.message@
                },
            ),
            (CategoryChange::Delete, Err(e)) => CategoriesData {
                error: Some(
                    if e.kind == ErrorKind::Conflict {
                        "move or remove its task types first"@
                    } else {
                        e.message@
                    },
                ),
                ..self
            },
            (CategoryChange::Create, Err(e)) => CategoriesData {
                error: Some(
                    if e.kind == ErrorKind::Duplicate {
                        "a category with that name already exists"@
                    } else {
                        e.message@
                    },
                ),
                ..self
            },
            (_, Err(e)) => CategoriesData { error: Some(e.message@), ..self },
        }
    }
}

/// What a change that was carried out means for the screens. A drag has already put the rows
/// into their order, so only the Today screen has to follow.
pub open spec fn changes_of(change: CategoryChange, answer: Result<(), DbError>) -> Changes {
    if answer is Err {
        no_changes()
    } else if change == CategoryChange::Drag {
        Changes { data_changed: false, today_dirty: true }
    } else {
        everything_changed()
    }
}

impl CategoriesModal {
    /// Takes the database's answer to a change.
    pub fn accept(&mut self, change: CategoryChange, answer: Result<(), DbError>) -> (r: Changes)
        ensures
            final(self)@ == old(self)@.answered(change, answer),
            r == changes_of(change, answer),
    {
        match answer {
            Ok(_) => {
                match change {
                    CategoryChange::Delete => {
                        self.error = None;
                    },
                    CategoryChange::Create => {
                        self.new_name = String::new();
                        self.error = None;
                    },
                    _ => {},
                }
                Changes { data_changed: change != CategoryChange::Drag, today_dirty: true }
            },
            Err(e) => {
                match change {
                    CategoryChange::Rename { id } => {
                        let why = if e.kind == ErrorKind::Duplicate {
                            "a category with that name already exists".to_owned()
                        } else {
                            e.message
                        };
                        self.fail_rename(id, why);
                    },
                    CategoryChange::Delete => {
                        self.error = Some(
                            if e.kind == ErrorKind::Conflict {
                                "move or remove its task types first".to_owned()
                            } else {
                                e.message
                            },
                        );
                    },
                    CategoryChange::Create => {
                        self.error = Some(
                            if e.kind == ErrorKind::Duplicate {
                                "a category with that name already exists".to_owned()
                            } else {
                                e.message
                            },
                        );
                    },
                    _ => {
                        self.error = Some(e.message);
                    },
                }
                Changes { data_changed: false, today_dirty: false }
            },
        }
    }

    /// Replaces the rows by freshly loaded ones; the failure that is shown and the name that
    /// is being typed stay.
    pub fn reload(&mut self, fresh: CategoriesModal)
        ensures
            final(self)@ == (CategoriesData {
                error: old(self)@.error,
                new_name: old(self)@.new_name,
                ..fresh@
            }),
    {
        self.rows = fresh.rows;
        self.drag = fresh.drag;
        self.move_dialog = fresh.move_dialog;
    }
}

// --- moving types away ---

/// Where removing a category together with moving its types stands.
#[derive(Debug)]
pub enum MoveStep {
    /// Re-point the type with this place in the dialog's list.
    Repoint(usize),
    /// Every type has moved: delete the category.
    Delete,
    /// Over: the category is gone.
    Removed,
    /// Over: the database refused something; types that have moved stay where they are.
    Refused(DbError),
}

/// What the move asks the database for.
#[derive(Debug)]
pub enum MoveRequest {
    Repoint(TypeWrite),
    Delete { category_id: i64 },
    Stop,
}

impl MoveData {
    /// The first step of a confirmed move.
    pub open spec fn first_step(self) -> MoveStep {
        self.step_at(0)
    }

    pub open spec fn step_at(self, i: int) -> MoveStep {
        if i < self.types.len() {
            MoveStep::Repoint(i as usize)
        } else {
            MoveStep::Delete
        }
    }

    /// The step after `step`, given how it went.
    pub open spec fn next_step(self, step: MoveStep, answer: Result<(), DbError>) -> MoveStep {
        match (step, answer) {
            (MoveStep::Repoint(i), Ok(_)) => self.step_at(i + 1),
            (MoveStep::Delete, Ok(_)) => MoveStep::Removed,
            (MoveStep::Repoint(_), Err(e)) => MoveStep::Refused(e),
            (MoveStep::Delete, Err(e)) => MoveStep::Refused(e),
            (s, _) => s,
        }
    }
}

/// Whether the step is one of the dialog's.
pub open spec fn step_fits(m: MoveData, step: MoveStep) -> bool {
    step matches MoveStep::Repoint(i) ==> i < m.types.len()
}

/// Whether `r` is what a step of the move asks the database for.
pub open spec fn step_asks(m: MoveData, step: MoveStep, r: MoveRequest) -> bool {
    match step {
        MoveStep::Repoint(i) => r matches MoveRequest::Repoint(w) && w.repoints(
            m.types[i as int],
            m.target,
            m.types[i as int].is_active,
        ),
        MoveStep::Delete => r matches MoveRequest::Delete { category_id } && category_id
            == m.category_id,
        _ => r is Stop,
    }
}

impl MoveDialogState {
    /// The first step of a confirmed move.
    pub fn begin(&self) -> (r: MoveStep)
        ensures
            r == self@.first_step(),
            step_fits(self@, r),
    {
        if self.types.len() > 0 {
            MoveStep::Repoint(0)
        } else {
            MoveStep::Delete
        }
    }

    /// What a step asks the database for: every type keeps its name, its description and its
    /// active state and goes to the target category.
    pub fn request(&self, step: &MoveStep) -> (r: MoveRequest)
        requires
            step_fits(self@, *step),
        ensures
            step_asks(self@, *step, r),
            match *step {
                MoveStep::Repoint(i) => r matches MoveRequest::Repoint(w) && w.repoints(
                    self.types@[i as int],
                    self.target,
                    self.types@[i as int].is_active,
                ),
                MoveStep::Delete => r == (MoveRequest::Delete { category_id: self.category_id }),
                _ => r is Stop,
            },
    {
        match step {
            MoveStep::Repoint(i) => MoveRequest::Repoint(
                catalog::repoint(&self.types[*i], self.target, self.types[*i].is_active),
            ),
            MoveStep::Delete => MoveRequest::Delete { category_id: self.category_id },
            _ => MoveRequest::Stop,
        }
    }

    /// The step after `step`, given how it went.
    pub fn next(&self, step: MoveStep, answer: Result<(), DbError>) -> (r: MoveStep)
        requires
            step_fits(self@, step),
        ensures
            r == self@.next_step(step, answer),
            step_fits(self@, r),
    {
        let n: usize = self.types.len();
        match step {
            MoveStep::Repoint(i) => match answer {
                Ok(_) => if i + 1 < n {
                    MoveStep::Repoint(i + 1)
                } else {
                    MoveStep::Delete
                },
                Err(e) => MoveStep::Refused(e),
            },
            MoveStep::Delete => match answer {
                Ok(_) => MoveStep::Removed,
                Err(e) => MoveStep::Refused(e),
            },
            s => s,
        }
    }
}

impl CategoriesData {
    /// The dialog at the end of a confirmed move.
    pub open spec fn move_ended(self, end: MoveStep) -> CategoriesData {
        match end {
            MoveStep::Removed => CategoriesData { move_dialog: None, ..self },
            MoveStep::Refused(e) => CategoriesData {
                move_dialog: match self.move_dialog {
                    Some(m) => Some(MoveData { error: Some(e.message@), ..m }),
                    None => None,
                },
                ..self
            },
            _ => self,
        }
    }

    /// The dialog with another category picked for the types to go to.
    pub open spec fn aimed_at(self, id: i64) -> CategoriesData {
        CategoriesData {
            move_dialog: match self.move_dialog {
                Some(m) => Some(MoveData { target: id, ..m }),
                None => None,
            },
            ..self
        }
    }
}

impl CategoriesModal {
    /// Closes the move dialog without moving anything.
    pub fn cancel_move(&mut self)
        ensures
            final(self)@ == (CategoriesData { move_dialog: None, ..old(self)@ }),
    {
        self.move_dialog = None;
    }

    /// Picks the category the types go to.
    pub fn choose_target(&mut self, id: i64)
        ensures
            final(self)@ == old(self)@.aimed_at(id),
            final(self)@ == (CategoriesData {
                move_dialog: match old(self)@.move_dialog {
                    Some(m) => Some(MoveData { target: id, ..m }),
                    None => None,
                },
                ..old(self)@
            }),
    {
        if let Some(mut m) = self.move_dialog.take() {
            m.target = id;
            self.move_dialog = Some(m);
        }
    }

    /// Takes the end of a confirmed move: the dialog closes, or it stays open and shows what
    /// the database refused.
    pub fn finish_move(&mut self, end: MoveStep) -> (r: Changes)
        ensures
            final(self)@ == old(self)@.move_ended(end),
            match end {
                MoveStep::Removed => r == everything_changed() && final(self)@ == (
                CategoriesData { move_dialog: None, ..old(self)@ }),
                MoveStep::Refused(e) => r == no_changes() && final(self)@ == (CategoriesData {
                    move_dialog: match old(self)@.move_dialog {
                        Some(m) => Some(MoveData { error: Some(e.message@), ..m }),
                        None => None,
                    },
                    ..old(self)@
                }),
                _ => r == no_changes() && final(self)@ == old(self)@,
            },
    {
        match end {
            MoveStep::Removed => {
                self.move_dialog = None;
                Changes { data_changed: true, today_dirty: true }
            },
            MoveStep::Refused(e) => {
                if let Some(mut m) = self.move_dialog.take() {
                    m.error = Some(e.message);
                    self.move_dialog = Some(m);
                }
                Changes { data_changed: false, today_dirty: false }
            },
            _ => Changes { data_changed: false, today_dirty: false },
        }
    }
}

/// A run of a confirmed move: `answers[i]` is how `steps[i]` went.
pub open spec fn move_run(
    m: MoveData,
    steps: Seq<MoveStep>,
    answers: Seq<Result<(), DbError>>,
) -> bool {
    &&& steps.len() == answers.len() + 1
    &&& steps[0] == m.first_step()
    &&& forall|i: int|
        #![trigger answers[i]]
        0 <= i < answers.len() ==> steps[i + 1] == m.next_step(steps[i], answers[i])
}

proof fn lemma_move_run(
    m: MoveData,
    steps: Seq<MoveStep>,
    answers: Seq<Result<(), DbError>>,
    k: int,
)
    requires
        move_run(m, steps, answers),
        m.types.len() <= usize::MAX,
        0 <= k < steps.len(),
    ensures
        match steps[k] {
            MoveStep::Repoint(i) => i == k && i < m.types.len(),
            MoveStep::Delete => k == m.types.len(),
            MoveStep::Removed => k > m.types.len(),
            MoveStep::Refused(_) => true,
        },
        !(steps[k] is Refused) ==> forall|i: int|
            0 <= i < m.types.len() && i < k ==> #[trigger] steps[i] == MoveStep::Repoint(i as usize)
                && answers[i] is Ok,
    decreases k,
{
    if k > 0 {
        lemma_move_run(m, steps, answers, k - 1);
        let a = answers[k - 1];
        assert(steps[k] == m.next_step(steps[k - 1], a));
    }
}

/// The category is deleted only after every one of its types has been moved away: no move
/// loses a type.
pub proof fn law_category_goes_last(
    m: MoveData,
    steps: Seq<MoveStep>,
    answers: Seq<Result<(), DbError>>,
    k: int,
)
    requires
        move_run(m, steps, answers),
        m.types.len() <= usize::MAX,
        0 <= k < steps.len(),
        steps[k] is Delete,
    ensures
        k == m.types.len(),
        forall|i: int|
            0 <= i < m.types.len() ==> #[trigger] steps[i] == MoveStep::Repoint(i as usize)
                && answers[i] is Ok,
{
    lemma_move_run(m, steps, answers, k);
}

// --- labels ---

/// How many types the categories of these rows hold together.
pub open spec fn type_total(rows: Seq<RowData>) -> int
    decreases rows.len(),
{
    if rows.len() == 0 {
        0
    } else {
        type_total(rows.drop_last()) + rows.last().type_count
    }
}

/// The counts can be added up, one by one, without leaving the range of the numbers.
pub open spec fn type_total_fits(rows: Seq<RowData>) -> bool {
    forall|n: int|
        0 <= n <= rows.len() ==> i64::MIN <= #[trigger] type_total(rows.take(n)) <= i64::MAX
}

/// `3 categories · 7 types`.
pub open spec fn header_text(rows: Seq<RowData>) -> Seq<char> {
    text::decimal(rows.len() as int) + " categories \u{b7} "@ + text::decimal(type_total(rows))
        + " types"@
}

impl CategoriesModal {
    /// The line beside the title, where the counts can be added up: `3 categories · 7 types`.
    pub fn header(&self) -> (r: Option<String>)
        ensures
            r is Some <==> type_total_fits(self@.rows),
            r matches Some(s) ==> s@ == header_text(self@.rows),
    {
        let ghost rows = self@.rows;
        let mut types: i64 = 0;
        for i in 0..self.rows.len()
            invariant
                rows == self@.rows,
                rows.len() == self.rows@.len(),
                types == type_total(rows.take(i as int)),
                forall|n: int|
                    0 <= n <= i ==> i64::MIN <= #[trigger] type_total(rows.take(n)) <= i64::MAX,
        {
            assert(rows[i as int] == self.rows@[i as int]@);
            assert(rows.take(i + 1).drop_last() =~= rows.take(i as int));
            match types.checked_add(self.rows[i].type_count) {
                Some(n) => {
                    types = n;
                },
                None => {
                    assert(!(i64::MIN <= type_total(rows.take(i + 1)) <= i64::MAX));
                    return None;
                },
            }
        }
        assert(rows.take(rows.len() as int) =~= rows);
        let mut s = String::new();
        text::push_digits(&mut s, self.rows.len() as u64);
        text::push_text(&mut s, " categories \u{b7} ");
        text::push_decimal(&mut s, types);
        text::push_text(&mut s, " types");
        assert(s@ =~= header_text(rows));
        Some(s)
    }
}

/// `3 types · 1 tally`.
pub open spec fn row_subtitle_text(type_count: i64, tally_count: i64) -> Seq<char> {
    text::decimal(type_count as int) + (if type_count == 1 {
        " type"@
    } else {
        " types"@
    }) + " \u{b7} "@ + text::decimal(tally_count as int) + (if tally_count == 1 {
        " tally"@
    } else {
        " tallies"@
    })
}

/// The line under a category's name: `3 types · 1 tally`.
pub fn row_subtitle(type_count: i64, tally_count: i64) -> (r: String)
    ensures
        r@ == row_subtitle_text(type_count, tally_count),
{
    let mut s = String::new();
    text::push_decimal(&mut s, type_count);
    text::push_text(
        &mut s,
        if type_count == 1 {
            " type"
        } else {
            " types"
        },
    );
    text::push_text(&mut s, " \u{b7} ");
    text::push_decimal(&mut s, tally_count);
    text::push_text(
        &mut s,
        if tally_count == 1 {
            " tally"
        } else {
            " tallies"
        },
    );
    assert(s@ =~= row_subtitle_text(type_count, tally_count));
    s
}

// --- laws ---

/// Looking a row up by its id finds the first one that has it, and finds one wherever there is
/// one.
pub proof fn law_lookup_finds_the_first_row(rows: Seq<RowData>, id: i64)
    ensures
        row_index(rows, id) matches Some(i) ==> 0 <= i < rows.len() && rows[i].id == id && (
        forall|k: int| 0 <= k < i ==> (#[trigger] rows[k]).id != id),
        row_index(rows, id) is None ==> forall|k: int|
            0 <= k < rows.len() ==> (#[trigger] rows[k]).id != id,
    decreases rows.len(),
{
    if rows.len() > 0 && rows[0].id != id {
        let rest = rows.drop_first();
        law_lookup_finds_the_first_row(rest, id);
        match row_index(rest, id) {
            Some(i) => {
                assert forall|k: int| 0 <= k < i + 1 implies (#[trigger] rows[k]).id != id by {
                    if k > 0 {
                        assert(rest[k - 1].id != id);
                    }
                }
            },
            None => {
                assert forall|k: int| 0 <= k < rows.len() implies (#[trigger] rows[k]).id != id by {
                    if k > 0 {
                        assert(rest[k - 1].id != id);
                    }
                }
            },
        }
    }
}

/// The dialog lists every category once, in the user's order, with its name, how many types it
/// holds, and what they were tallied.
pub proof fn law_rows_are_the_categories(
    rows: Seq<RowData>,
    categories: Seq<Category>,
    all: Seq<TaskType>,
    totals: Seq<TypeLifetimeTotal>,
    i: int,
)
    requires
        are_fresh_rows(rows, categories, all, totals),
    ensures
        rows.len() == categories.len(),
        0 <= i < rows.len() ==> rows[i].id == categories[i].id && rows[i].name
            == categories[i].name@ && rows[i].rename is None && rows[i].type_count
            == types::types_in(all, categories[i].id) && rows[i].tally_count == types::tallies_in(
            all,
            totals,
            categories[i].id,
        ),
{
    if 0 <= i < rows.len() {
        assert(is_fresh_row(rows[i], categories[i], all, totals));
    }
}

/// Up is one place less and down one place more; the first row cannot go up, the last not down,
/// and every other row can go both ways.
pub proof fn law_arrows_move_by_one_place(index: int, count: int)
    requires
        0 <= index < count,
    ensures
        index > 0 ==> nudged(index, count, true) == Some(index - 1),
        index == 0 ==> nudged(index, count, true) is None,
        index < count - 1 ==> nudged(index, count, false) == Some(index + 1),
        index == count - 1 ==> nudged(index, count, false) is None,
{
}

/// A dragged row goes to the place it is held over; the other rows keep their order, and nothing
/// else of the dialog changes.
pub proof fn law_dragged_row_goes_to_its_place(s: CategoriesData, d: DragState, target: int)
    requires
        s.drag == Some(d),
        0 <= target < s.rows.len(),
    ensures
        row_index(s.rows, d.id) matches Some(cur) ==> s.dragged_to(target).rows[target]
            == s.rows[cur] && s.dragged_to(target).rows.remove(target) == s.rows.remove(cur),
        row_index(s.rows, d.id) is None ==> s.dragged_to(target) == s,
        s.dragged_to(target).rows.len() == s.rows.len(),
        s.dragged_to(target).new_name == s.new_name,
        s.dragged_to(target).error == s.error,
        s.dragged_to(target).drag == s.drag,
        s.dragged_to(target).move_dialog == s.move_dialog,
        (CategoriesData { drag: None, ..s }).dragged_to(target).rows == s.rows,
{
    lemma_row_index(s.rows, d.id);
    match row_index(s.rows, d.id) {
        Some(cur) => {
            assert(s.dragged_to(target).rows.remove(target) =~= s.rows.remove(cur));
        },
        None => {},
    }
}

/// An order is written after a drag exactly where the row's place is no longer the one it was
/// taken from.
pub proof fn law_drag_that_ends_where_it_began_writes_nothing(s: CategoriesData, d: DragState)
    requires
        s.drag == Some(d),
    ensures
        row_index(s.rows, d.id) matches Some(cur) ==> (s.drag_moved() <==> cur != d.start_index),
        row_index(s.rows, d.id) is None ==> !s.drag_moved(),
        !(CategoriesData { drag: None, ..s }).drag_moved(),
{
}

/// Opening a rename fills its field with the row's name and closes every other rename; names,
/// counts and the order of the rows stay.
pub proof fn law_one_rename_at_a_time(s: CategoriesData, id: i64, k: int)
    requires
        0 <= k < s.rows.len(),
    ensures
        s.renaming(id).rows.len() == s.rows.len(),
        s.renaming(id).rows[k].id == s.rows[k].id,
        s.renaming(id).rows[k].name == s.rows[k].name,
        s.renaming(id).rows[k].type_count == s.rows[k].type_count,
        s.renaming(id).rows[k].tally_count == s.rows[k].tally_count,
        row_index(s.rows, id) == Some(k) ==> (s.renaming(id).rows[k].rename matches Some(r)
            && r.buffer == s.rows[k].name && r.just_opened && r.error is None),
        row_index(s.rows, id) != Some(k) ==> s.renaming(id).rows[k].rename is None,
        s.renaming(id).new_name == s.new_name,
        s.renaming(id).error == s.error,
        s.renaming(id).drag == s.drag,
        s.renaming(id).move_dialog == s.move_dialog,
{
    lemma_row_index(s.rows, id);
}

/// Closing a rename leaves the name as it was and touches no other row.
pub proof fn law_cancelled_rename_keeps_the_name(s: CategoriesData, id: i64, k: int)
    requires
        0 <= k < s.rows.len(),
    ensures
        s.rename_set(id, None).rows.len() == s.rows.len(),
        row_index(s.rows, id) == Some(k) ==> s.rename_set(id, None).rows[k].rename is None
            && s.rename_set(id, None).rows[k].name == s.rows[k].name && s.rename_set(
            id,
            None,
        ).rows[k].id == s.rows[k].id,
        row_index(s.rows, id) != Some(k) ==> s.rename_set(id, None).rows[k] == s.rows[k],
        s.rename_set(id, None).error == s.error,
        s.rename_set(id, None).new_name == s.new_name,
{
    lemma_row_index(s.rows, id);
}

/// A rename that was refused stays open with what was typed, and says why: in its own words for
/// a name that is taken, and as the database put it otherwise.
pub proof fn law_refused_rename_stays_open(s: CategoriesData, id: i64, i: int, e: DbError)
    requires
        row_index(s.rows, id) == Some(i),
        s.rows[i].rename is Some,
    ensures
        s.answered(CategoryChange::Rename { id }, Err(e)).rows[i].rename matches Some(r)
            && r.buffer == s.rows[i].rename->0.buffer && r.just_opened
            == s.rows[i].rename->0.just_opened && r.error == Some(
            if e.kind == ErrorKind::Duplicate {
                "a category with that name already exists"@
            } else {
                e.message@
            },
        ),
        s.answered(CategoryChange::Rename { id }, Err(e)).error == s.error,
        s.answered(CategoryChange::Rename { id }, Err(e)).rows[i].name == s.rows[i].name,
        forall|k: int|
            0 <= k < s.rows.len() && k != i ==> #[trigger] s.answered(
                CategoryChange::Rename { id },
                Err(e),
            ).rows[k] == s.rows[k],
{
    lemma_row_index(s.rows, id);
}

/// A new category that was written empties the name field; one that was refused keeps it and
/// says why. A deletion that was refused because types are left says what to do about it.
pub proof fn law_answers_are_shown(s: CategoriesData, e: DbError)
    ensures
        s.answered(CategoryChange::Create, Ok(())).new_name.len() == 0,
        s.answered(CategoryChange::Create, Ok(())).error is None,
        s.answered(CategoryChange::Create, Ok(())).rows == s.rows,
        s.answered(CategoryChange::Delete, Ok(())).error is None,
        s.answered(CategoryChange::Delete, Ok(())).new_name == s.new_name,
        s.answered(CategoryChange::Delete, Ok(())).rows == s.rows,
        s.answered(CategoryChange::Nudge, Ok(())) == s,
        s.answered(CategoryChange::Drag, Ok(())) == s,
        forall|id: i64| #[trigger] s.answered(CategoryChange::Rename { id }, Ok(())) == s,
        s.answered(CategoryChange::Create, Err(e)).new_name == s.new_name,
        s.answered(CategoryChange::Create, Err(e)).rows == s.rows,
        e.kind == ErrorKind::Duplicate ==> s.answered(CategoryChange::Create, Err(e)).error == Some(
            "a category with that name already exists"@,
        ),
        e.kind != ErrorKind::Duplicate ==> s.answered(CategoryChange::Create, Err(e)).error == Some(
            e.message@,
        ),
        e.kind == ErrorKind::Conflict ==> s.answered(CategoryChange::Delete, Err(e)).error == Some(
            "move or remove its task types first"@,
        ),
        e.kind != ErrorKind::Conflict ==> s.answered(CategoryChange::Delete, Err(e)).error == Some(
            e.message@,
        ),
        s.answered(CategoryChange::Delete, Err(e)).rows == s.rows,
        s.answered(CategoryChange::Delete, Err(e)).new_name == s.new_name,
        s.answered(CategoryChange::Nudge, Err(e)).error == Some(e.message@),
        s.answered(CategoryChange::Nudge, Err(e)).rows == s.rows,
        s.answered(CategoryChange::Drag, Err(e)).error == Some(e.message@),
        s.answered(CategoryChange::Drag, Err(e)).rows == s.rows,
{
}

/// Every change that was written reaches the Today screen, and every one but a drag has the rows
/// loaded anew. A change that was refused does neither.
pub proof fn law_written_changes_are_told(change: CategoryChange, e: DbError)
    ensures
        changes_of(change, Ok(())).today_dirty,
        changes_of(change, Ok(())).data_changed <==> change != CategoryChange::Drag,
        !changes_of(change, Err(e)).today_dirty,
        !changes_of(change, Err(e)).data_changed,
        everything_changed().data_changed && everything_changed().today_dirty,
        !no_changes().data_changed && !no_changes().today_dirty,
{
}

/// Enter saves a rename, whatever else happens in the frame; Escape and leaving the field close
/// it; otherwise it stays open.
pub proof fn law_enter_saves_a_rename(escape: bool, lost_focus: bool)
    ensures
        rename_outcome(true, escape, lost_focus) == RenameAction::Save,
        rename_outcome(false, true, lost_focus) == RenameAction::Cancel,
        rename_outcome(false, escape, true) == RenameAction::Cancel,
        rename_outcome(false, false, false) == RenameAction::Keep,
{
}

/// A category without types can go at once; one with types needs another home for them first;
/// one that is not listed is left alone.
pub proof fn law_category_with_types_is_not_deleted_outright(
    rows: Seq<RowData>,
    id: i64,
    r: RemoveStep,
)
    requires
        removal_takes(rows, id, r),
    ensures
        r is Delete <==> (row_index(rows, id) matches Some(i) && rows[i].type_count == 0),
        r is LoadMove <==> (row_index(rows, id) matches Some(i) && rows[i].type_count != 0),
        r matches RemoveStep::Delete { id: k } ==> k == id,
        r matches RemoveStep::LoadMove { id: k, name } ==> k == id && (row_index(
            rows,
            id,
        ) matches Some(i) ==> name@ == rows[i].name),
{
}

/// The move dialog lists every type of the category and no other, offers every other category,
/// and starts with the first of them.
pub proof fn law_move_dialog_lists_the_types(
    m: MoveData,
    category_id: i64,
    name: Seq<char>,
    rows: Seq<RowData>,
    all: Seq<TaskType>,
    totals: Seq<TypeLifetimeTotal>,
    k: int,
)
    requires
        is_move_dialog(m, category_id, name, rows, all, totals),
    ensures
        m.category_id == category_id,
        m.category_name == name,
        m.error is None,
        m.type_count == m.types.len(),
        m.tally_count == types::tallies_in(all, totals, category_id),
        0 <= k < m.types.len() ==> m.types[k].category_id == category_id && all.contains(
            m.types[k],
        ),
        0 <= k < all.len() && all[k].category_id == category_id ==> m.types.contains(all[k]),
        0 <= k < m.others.len() ==> m.others[k].id != category_id && exists|j: int|
            0 <= j < rows.len() && (#[trigger] rows[j]).id == m.others[k].id && rows[j].name
                == m.others[k].name@ && rows[j].type_count == m.others[k].type_count,
        0 <= k < rows.len() && rows[k].id != category_id ==> exists|j: int|
            0 <= j < m.others.len() && (#[trigger] m.others[j]).id == rows[k].id,
        m.others.len() > 0 ==> m.target == m.others[0].id,
        m.others.len() == 0 ==> m.target == 0,
{
    broadcast use vstd::seq_lib::group_filter_ensures;

    let own = |t: TaskType| t.category_id == category_id;
    let other = |r: RowData| r.id != category_id;
    let others = rows.filter(other);
    assert(others == other_rows(rows, category_id));
    if 0 <= k < m.types.len() {
        catalog::lemma_kept_was_there(all, own, k);
        assert(own(all.filter(own)[k]));
    }
    if 0 <= k < all.len() && all[k].category_id == category_id {
        assert(own(all[k]));
    }
    if 0 <= k < m.others.len() {
        assert(offers(m.others[k], others[k]));
        catalog::lemma_kept_was_there(rows, other, k);
        assert(other(others[k]));
        let j = choose|j: int| 0 <= j < rows.len() && rows[j] == others[k];
        assert(rows[j].id == m.others[k].id);
    }
    if 0 <= k < rows.len() && rows[k].id != category_id {
        assert(other(rows[k]));
        assert(others.contains(rows[k]));
        let j = choose|j: int| 0 <= j < others.len() && others[j] == rows[k];
        assert(offers(m.others[j], others[j]));
        assert(m.others[j].id == rows[k].id);
    }
    if m.others.len() > 0 {
        assert(offers(m.others[0], others[0]));
    }
}

/// The types move one after the other, the category goes once they all have, and the first
/// refusal ends it all.
pub proof fn law_types_move_one_after_the_other(m: MoveData, i: usize, e: DbError)
    requires
        m.types.len() <= usize::MAX,
        i < m.types.len(),
    ensures
        m.first_step() == MoveStep::Repoint(0),
        i + 1 < m.types.len() ==> m.next_step(MoveStep::Repoint(i), Ok(())) == MoveStep::Repoint(
            (i + 1) as usize,
        ),
        i + 1 == m.types.len() ==> m.next_step(MoveStep::Repoint(i), Ok(())) == MoveStep::Delete,
        m.next_step(MoveStep::Delete, Ok(())) == MoveStep::Removed,
        m.next_step(MoveStep::Repoint(i), Err(e)) == MoveStep::Refused(e),
        m.next_step(MoveStep::Delete, Err(e)) == MoveStep::Refused(e),
{
}

/// A moved type goes to the chosen category and keeps its id, its name, its description and
/// whether it is active; what is deleted is the category that was to go.
pub proof fn law_moved_types_keep_all_but_their_category(
    m: MoveData,
    step: MoveStep,
    r: MoveRequest,
)
    requires
        step_asks(m, step, r),
        step_fits(m, step),
    ensures
        step matches MoveStep::Repoint(i) ==> r matches MoveRequest::Repoint(w) && w.id
            == m.types[i as int].id && w.name@ == m.types[i as int].name@ && w.description@
            == m.types[i as int].description@ && w.is_active == m.types[i as int].is_active
            && w.category_id == m.target,
        step is Delete ==> (r matches MoveRequest::Delete { category_id } && category_id
            == m.category_id),
        step is Removed || step is Refused ==> r is Stop,
{
}

/// A move that went through closes its dialog; one that was refused keeps it open with all that
/// was chosen and shows why. Picking a target changes the target alone.
pub proof fn law_move_dialog_closes_when_done(s: CategoriesData, m: MoveData, e: DbError, id: i64)
    requires
        s.move_dialog == Some(m),
    ensures
        s.move_ended(MoveStep::Removed).move_dialog is None,
        s.move_ended(MoveStep::Removed).rows == s.rows,
        s.move_ended(MoveStep::Removed).error == s.error,
        s.move_ended(MoveStep::Refused(e)).move_dialog matches Some(n) && n.error == Some(
            e.message@,
        ) && n.target == m.target && n.types == m.types && n.others == m.others && n.category_id
            == m.category_id,
        s.move_ended(MoveStep::Refused(e)).rows == s.rows,
        s.move_ended(MoveStep::Delete) == s,
        s.aimed_at(id).move_dialog matches Some(n) && n.target == id && n.types == m.types
            && n.others == m.others && n.category_id == m.category_id && n.error == m.error,
        s.aimed_at(id).rows == s.rows,
        s.aimed_at(id).error == s.error,
{
}

/// The header counts the categories and adds up their types; the line under a category counts
/// its types and tallies, each in the singular for one.
pub proof fn law_labels_count(rows: Seq<RowData>, r: RowData, types: i64, tallies: i64)
    ensures
        type_total(Seq::empty()) == 0,
        type_total(rows.push(r)) == type_total(rows) + r.type_count,
        header_text(rows) == text::decimal(rows.len() as int) + " categories \u{b7} "@
            + text::decimal(type_total(rows)) + " types"@,
        row_subtitle_text(1, 1) == text::decimal(1) + " type"@ + " \u{b7} "@ + text::decimal(1)
            + " tally"@,
        types != 1 && tallies != 1 ==> row_subtitle_text(types, tallies) == text::decimal(
            types as int,
        ) + " types"@ + " \u{b7} "@ + text::decimal(tallies as int) + " tallies"@,
        types != 1 ==> row_subtitle_text(types, 1) == text::decimal(types as int) + " types"@
            + " \u{b7} "@ + text::decimal(1) + " tally"@,
        tallies != 1 ==> row_subtitle_text(1, tallies) == text::decimal(1) + " type"@
            + " \u{b7} "@ + text::decimal(tallies as int) + " tallies"@,
{
    assert(rows.push(r).drop_last() =~= rows);
}

/// The counts of types fit where every sum on the way to the whole is a 64-bit number.
pub proof fn law_type_counts_fit_row_by_row(rows: Seq<RowData>, r: RowData)
    ensures
        type_total_fits(Seq::empty()),
        type_total_fits(rows.push(r)) <==> type_total_fits(rows) && -9223372036854775808 <= type_total(
            rows.push(r),
        ) <= 9223372036854775807,
{
    let all = rows.push(r);
    let whole = type_total(all.take(all.len() as int));
    assert(all.take(all.len() as int) =~= all);
    assert forall|n: int| 0 <= n <= rows.len() implies #[trigger] rows.take(n) == all.take(n) by {
        assert(rows.take(n) =~= all.take(n));
    }
    if type_total_fits(all) {
        assert forall|n: int| 0 <= n <= rows.len() implies i64::MIN <= #[trigger] type_total(
            rows.take(n),
        ) <= i64::MAX by {
            assert(rows.take(n) == all.take(n));
            let same = type_total(all.take(n));
        }
    }
    if type_total_fits(rows) && i64::MIN <= whole <= i64::MAX {
        assert forall|n: int| 0 <= n <= all.len() implies i64::MIN <= #[trigger] type_total(
            all.take(n),
        ) <= i64::MAX by {
            if n <= rows.len() {
                assert(rows.take(n) == all.take(n));
                let same = type_total(rows.take(n));
            }
        }
    }
    assert(type_total_fits(Seq::<RowData>::empty())) by {
        assert forall|n: int| 0 <= n <= 0 implies i64::MIN <= #[trigger] type_total(
            Seq::<RowData>::empty().take(n),
        ) <= i64::MAX by {
            assert(Seq::<RowData>::empty().take(n) =~= Seq::<RowData>::empty());
        }
    }
}

/// A step of a move is for one of the types that are to move.
pub proof fn law_steps_are_for_the_types(m: MoveData, i: usize)
    ensures
        step_fits(m, MoveStep::Repoint(i)) <==> (i as int) < m.types.len(),
        step_fits(m, MoveStep::Delete),
        step_fits(m, MoveStep::Removed),
{
}

} // verus!
