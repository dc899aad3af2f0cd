//! The state of the Task types screen: selection, dialogs, and what is written when.
use vstd::prelude::*;

use crate::catalog::{self, Category, TaskType, TypeLifetimeTotal, TypeUsage, TypeWrite};
use crate::error::DbError;
use crate::service::import::CombinedReport;
use crate::text;
use crate::ui::categories::{self, CategoriesData, CategoriesModal, Changes};
use crate::ui::type_form::{self, DeleteData, TypeForm, TypeFormData};
use crate::ui::types::{self, ActiveFilter, CatAgg, CategoryFilter};
use std::collections::{BTreeMap, BTreeSet};

verus! {

/// The screen's state.
#[derive(Debug)]
pub struct TypesState {
    pub search: String,
    pub category_filter: CategoryFilter,
    pub active_filter: ActiveFilter,
    pub selection: BTreeSet<i64>,
    /// A refused write, shown beside the caption.
    pub notice: Option<String>,
    pub modal: Modal,
    pub dirty: bool,
    pub view: Option<TypesView>,
    /// A failed query, shown in place of the screen.
    pub error: Option<String>,
    /// The manage-categories dialog has written something that the Today screen shows.
    pub categories_changed: bool,
}

/// The dialog that is open, if any.
#[derive(Debug)]
pub enum Modal {
    Closed,
    Edit(TypeForm),
    ImportReport(ImportOutcome),
    ManageCategories(CategoriesModal),
}

/// What came of an import.
#[derive(Debug)]
pub enum ImportOutcome {
    Report(CombinedReport),
    Error(String),
    /// The user picked no file.
    Cancelled,
}

/// What the database answers for the screen.
#[derive(Debug)]
pub struct TypeRows {
    pub categories: Vec<Category>,
    /// All types, active or not.
    pub types: Vec<TaskType>,
    pub totals: Vec<TypeLifetimeTotal>,
}

/// The screen's query results.
#[derive(Debug)]
pub struct TypesView {
    pub categories: Vec<Category>,
    /// All types, active or not; the filters apply when they are shown.
    pub types: Vec<TaskType>,
    pub lifetime: BTreeMap<i64, i64>,
}

/// The dialog as contracts speak of it.
pub enum ModalData {
    Closed,
    Edit(TypeFormData),
    ImportReport(ImportOutcome),
    ManageCategories(CategoriesData),
}

/// The screen's state as contracts speak of it.
#[verifier::ext_equal]
pub struct TypesData {
    pub search: Seq<char>,
    pub category_filter: CategoryFilter,
    pub active_filter: ActiveFilter,
    pub selection: Set<i64>,
    pub notice: Option<Seq<char>>,
    pub modal: ModalData,
    pub dirty: bool,
    pub view: Option<TypesView>,
    pub error: Option<Seq<char>>,
    pub categories_changed: bool,
}

impl View for Modal {
    type V = ModalData;

    open spec fn view(&self) -> ModalData {
        match self {
            Modal::Closed => ModalData::Closed,
            Modal::Edit(f) => ModalData::Edit(f@),
            Modal::ImportReport(o) => ModalData::ImportReport(*o),
            Modal::ManageCategories(m) => ModalData::ManageCategories(m@),
        }
    }
}

impl View for TypesState {
    type V = TypesData;

    open spec fn view(&self) -> TypesData {
        TypesData {
            search: self.search@,
            category_filter: self.category_filter,
            active_filter: self.active_filter,
            selection: self.selection@,
            notice: text::optional(self.notice),
            modal: self.modal@,
            dirty: self.dirty,
            view: self.view,
            error: text::optional(self.error),
            categories_changed: self.categories_changed,
        }
    }
}

/// The total each type has in `totals`; of several rows of a type the last one counts.
pub open spec fn lifetime_map(totals: Seq<TypeLifetimeTotal>) -> Map<i64, i64>
    decreases totals.len(),
{
    if totals.len() == 0 {
        Map::empty()
    } else {
        lifetime_map(totals.drop_last()).insert(totals.last().task_type_id, totals.last().total)
    }
}

/// The total each type has in `totals`; of several rows of a type the last one counts.
pub fn lifetime_counts(totals: &Vec<TypeLifetimeTotal>) -> (r: BTreeMap<i64, i64>)
    ensures
        r@ == lifetime_map(totals@),
{
    let mut r: BTreeMap<i64, i64> = catalog::no_counts();
    for i in 0..totals.len()
        invariant
            r@ == lifetime_map(totals@.take(i as int)),
    {
        assert(totals@.take(i + 1).drop_last() =~= totals@.take(i as int));
        catalog::set_count(&mut r, totals[i].task_type_id, totals[i].total);
    }
    assert(totals@.take(totals@.len() as int) =~= totals@);
    r
}

/// Whether `v` shows what the database answered.
pub open spec fn view_shows(v: TypesView, rows: TypeRows) -> bool {
    v.categories@ == rows.categories@ && v.types@ == rows.types@ && v.lifetime@ == lifetime_map(
        rows.totals@,
    )
}

/// The query results to show for what the database answered.
pub fn rebuild(rows: TypeRows) -> (v: TypesView)
    ensures
        view_shows(v, rows),
{
    let lifetime = lifetime_counts(&rows.totals);
    TypesView { categories: rows.categories, types: rows.types, lifetime }
}

/// The lifetime totals of the types of a view, one row for each.
pub open spec fn lifetime_list(v: TypesView) -> Seq<TypeLifetimeTotal> {
    Seq::new(
        v.types@.len(),
        |i: int|
            TypeLifetimeTotal {
                task_type_id: v.types@[i].id,
                total: catalog::count_in(v.lifetime@, v.types@[i].id),
            },
    )
}

/// The lifetime totals of the types of a view, one row for each.
pub fn lifetime_rows(v: &TypesView) -> (r: Vec<TypeLifetimeTotal>)
    ensures
        r@ == lifetime_list(*v),
{
    let mut r: Vec<TypeLifetimeTotal> = Vec::new();
    for i in 0..v.types.len()
        invariant
            r@ == lifetime_list(*v).take(i as int),
    {
        r.push(
            TypeLifetimeTotal {
                task_type_id: v.types[i].id,
                total: catalog::count_of(&v.lifetime, v.types[i].id),
            },
        );
        assert(r@ =~= lifetime_list(*v).take(i + 1));
    }
    assert(r@ =~= lifetime_list(*v));
    r
}

/// The numbers behind the category pills of the edit dialog.
pub fn pill_numbers(v: &TypesView) -> (r: Vec<CatAgg>)
    requires
        types::aggregates_fit(v.categories@, v.types@, lifetime_list(*v)),
    ensures
        r@.len() == v.categories@.len(),
        forall|i: int|
            0 <= i < r@.len() ==> types::is_row_of(
                #[trigger] r@[i],
                v.categories@[i],
                v.types@,
                lifetime_list(*v),
            ),
{
    let totals = lifetime_rows(v);
    types::aggregate_categories(v.categories.as_slice(), v.types.as_slice(), totals.as_slice())
}

impl TypesData {
    /// The screen of a launch.
    pub open spec fn fresh() -> TypesData {
        TypesData {
            search: Seq::empty(),
            category_filter: CategoryFilter::All,
            active_filter: ActiveFilter::All,
            selection: Set::empty(),
            notice: None,
            modal: ModalData::Closed,
            dirty: true,
            view: None,
            error: None,
            categories_changed: false,
        }
    }
}

impl TypesState {
    pub fn new() -> (r: TypesState)
        ensures
            r@ == TypesData::fresh(),
    {
        TypesState {
            search: String::new(),
            category_filter: CategoryFilter::All,
            active_filter: ActiveFilter::All,
            selection: BTreeSet::new(),
            notice: None,
            modal: Modal::Closed,
            dirty: true,
            view: None,
            error: None,
            categories_changed: false,
        }
    }

    /// The query results are out of date.
    pub fn mark_dirty(&mut self)
        ensures
            final(self)@ == (TypesData { dirty: true, ..old(self)@ }),
    {
        self.dirty = true;
    }

    /// Starts over for a different database: nothing that holds an id of the old one stays.
    pub fn reset_for_new_database(&mut self)
        ensures
            final(self)@ == (TypesData {
                modal: ModalData::Closed,
                selection: Set::empty(),
                notice: None,
                error: None,
                dirty: true,
                ..old(self)@
            }),
    {
        self.modal = Modal::Closed;
        self.selection = BTreeSet::new();
        self.notice = None;
        self.error = None;
        self.mark_dirty();
    }

    /// Whether the categories were changed since the last call.
    pub fn take_categories_changed(&mut self) -> (r: bool)
        ensures
            r == old(self).categories_changed,
            final(self)@ == (TypesData { categories_changed: false, ..old(self)@ }),
    {
        let r = self.categories_changed;
        self.categories_changed = false;
        r
    }

    /// Whether the query results have to be fetched anew.
    pub fn needs_rebuild(&self) -> (r: bool)
        ensures
            r == (self.dirty || self.view is None),
    {
        self.dirty || self.view.is_none()
    }

    /// Takes what the database answered. After a failure the old results stay, still out of
    /// date, and the failure is shown.
    pub fn accept_rows(&mut self, answer: Result<TypeRows, DbError>)
        ensures
            match answer {
                Ok(rows) => final(self).view is Some && view_shows(final(self).view->0, rows)
                    && final(self)@ == (TypesData {
                    view: final(self).view,
                    error: None,
                    dirty: false,
                    ..old(self)@
                }),
                Err(e) => final(self)@ == (TypesData { error: Some(e.message@), ..old(self)@ }),
            },
    {
        match answer {
            Ok(rows) => {
                self.view = Some(rebuild(rows));
                self.error = None;
                self.dirty = false;
            },
            Err(e) => {
                self.error = Some(e.message);
            },
        }
    }

    // --- the toolbar ---

    /// Sets the filters of the table.
    pub fn choose_filters(&mut self, category_filter: CategoryFilter, active_filter: ActiveFilter)
        ensures
            final(self)@ == (TypesData { category_filter, active_filter, ..old(self)@ }),
    {
        self.category_filter = category_filter;
        self.active_filter = active_filter;
    }

    /// Opens the manage-categories dialog, without rows where they could not be loaded.
    pub fn open_categories(&mut self, loaded: Option<CategoriesModal>)
        ensures
            final(self)@ == (TypesData {
                modal: ModalData::ManageCategories(
                    match loaded {
                        Some(m) => m@,
                        None => CategoriesData {
                            rows: Seq::empty(),
                            new_name: Seq::empty(),
                            error: None,
                            drag: None,
                            move_dialog: None,
                        },
                    },
                ),
                ..old(self)@
            }),
    {
        self.modal = Modal::ManageCategories(
            match loaded {
                Some(m) => m,
                None => categories::empty_modal(),
            },
        );
    }

    /// Shows what came of an import. The user picking no file opens no dialog.
    pub fn import_done(&mut self, outcome: ImportOutcome)
        ensures
            final(self)@ == (TypesData {
                modal: if outcome is Cancelled {
                    ModalData::Closed
                } else {
                    ModalData::ImportReport(outcome)
                },
                dirty: true,
                ..old(self)@
            }),
    {
        self.modal = match outcome {
            ImportOutcome::Cancelled => Modal::Closed,
            o => Modal::ImportReport(o),
        };
        self.mark_dirty();
    }

    /// Opens the form for a new type, in the first category.
    pub fn open_new(&mut self)
        ensures
            final(self)@ == (TypesData {
                modal: ModalData::Edit(
                    type_form::blank_form(
                        match old(self).view {
                            Some(v) => if v.categories@.len() > 0 {
                                v.categories@[0].id
                            } else {
                                0
                            },
                            None => 0,
                        },
                    ),
                ),
                ..old(self)@
            }),
    {
        let first: i64 = match &self.view {
            Some(v) => if v.categories.len() > 0 {
                v.categories[0].id
            } else {
                0
            },
            None => 0,
        };
        self.modal = Modal::Edit(type_form::new_type_form(first));
    }

    /// Closes whatever dialog is open.
    pub fn close_modal(&mut self)
        ensures
            final(self)@ == (TypesData { modal: ModalData::Closed, ..old(self)@ }),
    {
        self.modal = Modal::Closed;
    }
}

/// The lines of the import report.
pub open spec fn report_texts(r: CombinedReport) -> Seq<Seq<char>> {
    let numbers = seq![
        "Imported: "@ + text::decimal(r.imported as int),
        "Already existed: "@ + text::decimal(r.skipped_existing as int),
        "Duplicate in file: "@ + text::decimal(r.skipped_in_file as int),
        "Malformed rows skipped: "@ + text::decimal(r.skipped_malformed as int),
        "Categories created: "@ + text::decimal(r.categories_created as int),
    ];
    if r.encoding@ == "windows-1252"@ {
        numbers.push("used windows-1252 encoding"@)
    } else {
        numbers
    }
}

fn numbered(label: &str, n: usize) -> (r: String)
    ensures
        r@ == label@ + text::decimal(n as int),
{
    let mut s = label.to_owned();
    text::push_digits(&mut s, n as u64);
    s
}

/// The lines of the import report: the five numbers, and a note where the file was not UTF-8.
pub fn report_lines(r: &CombinedReport) -> (lines: Vec<String>)
    ensures
        lines@.map_values(|s: String| s@) == report_texts(*r),
{
    let mut lines: Vec<String> = Vec::new();
    lines.push(numbered("Imported: ", r.imported));
    lines.push(numbered("Already existed: ", r.skipped_existing));
    lines.push(numbered("Duplicate in file: ", r.skipped_in_file));
    lines.push(numbered("Malformed rows skipped: ", r.skipped_malformed));
    lines.push(numbered("Categories created: ", r.categories_created));
    if text::same_text(r.encoding.as_str(), "windows-1252") {
        lines.push("used windows-1252 encoding".to_owned());
    }
    assert(lines@.map_values(|s: String| s@) =~= report_texts(*r));
    lines
}

// --- the table ---

/// What a click on a row means.
#[derive(Clone, Copy, Debug, PartialEq, Eq, Structural)]
pub enum RowClick {
    Nothing,
    OpenEdit,
    Select { ctrl: bool },
    Toggle,
}

/// What the clicks on a row mean.
pub open spec fn click_means(
    double_clicked: bool,
    clicked: bool,
    pill_clicked: bool,
    ctrl: bool,
) -> RowClick {
    if pill_clicked {
        RowClick::Toggle
    } else if double_clicked {
        RowClick::OpenEdit
    } else if clicked {
        RowClick::Select { ctrl }
    } else {
        RowClick::Nothing
    }
}

/// What the clicks on a row mean. The status pill stands on top of the row: a click on it never
/// also selects the row or opens the form.
pub fn row_click(double_clicked: bool, clicked: bool, pill_clicked: bool, ctrl: bool) -> (r: RowClick)
    ensures
        r == click_means(double_clicked, clicked, pill_clicked, ctrl),
        r == (if pill_clicked {
            RowClick::Toggle
        } else if double_clicked {
            RowClick::OpenEdit
        } else if clicked {
            RowClick::Select { ctrl }
        } else {
            RowClick::Nothing
        }),
{
    if pill_clicked {
        RowClick::Toggle
    } else if double_clicked {
        RowClick::OpenEdit
    } else if clicked {
        RowClick::Select { ctrl }
    } else {
        RowClick::Nothing
    }
}

/// The types of the query results, none where there are no results.
pub open spec fn types_shown(s: TypesData) -> Seq<TaskType> {
    match s.view {
        Some(v) => v.types@,
        None => Seq::empty(),
    }
}

impl TypesData {
    /// The screen after a click that selects a row.
    pub open spec fn with_selected(self, id: i64, ctrl: bool) -> TypesData {
        TypesData {
            selection: if !ctrl {
                set![id]
            } else if self.selection.contains(id) {
                self.selection.remove(id)
            } else {
                self.selection.insert(id)
            },
            ..self
        }
    }

    /// The screen after the database has answered a flip of a type's active state.
    pub open spec fn after_toggle(self, answer: Result<(), DbError>) -> TypesData {
        match answer {
            Ok(_) => TypesData { notice: None, dirty: true, ..self },
            Err(e) => TypesData { notice: Some(e.message@), ..self },
        }
    }

    /// The screen after the database has answered a save.
    pub open spec fn after_save(self, answer: Result<(), DbError>) -> TypesData {
        match (answer, self.modal) {
            (Ok(_), _) => TypesData { modal: ModalData::Closed, dirty: true, ..self },
            (Err(e), ModalData::Edit(f)) => TypesData {
                modal: ModalData::Edit(
                    TypeFormData {
                        error: Some(
                            if e.kind == crate::error::ErrorKind::Duplicate {
                                "a type with that name already exists in this category"@
                            } else {
                                e.message@
                            },
                        ),
                        ..f
                    },
                ),
                ..self
            },
            _ => self,
        }
    }

    /// The screen after the database has answered a deletion.
    pub open spec fn after_deletion(self, answer: Result<(), DbError>) -> TypesData {
        match (answer, self.modal) {
            (Ok(_), _) => TypesData { modal: ModalData::Closed, dirty: true, ..self },
            (Err(e), ModalData::Edit(f)) => TypesData {
                modal: ModalData::Edit(
                    TypeFormData {
                        delete: match f.delete {
                            Some(d) => Some(DeleteData { error: Some(e.message@), ..d }),
                            None => None,
                        },
                        ..f
                    },
                ),
                ..self
            },
            _ => self,
        }
    }

    /// The screen with the form for a type opened.
    pub open spec fn editing(
        self,
        id: i64,
        usage: Option<TypeUsage>,
        from_table: bool,
    ) -> TypesData {
        match catalog::type_index(types_shown(self), id) {
            None => self,
            Some(i) => {
                let t = types_shown(self)[i];
                TypesData {
                    selection: if from_table {
                        set![id]
                    } else {
                        self.selection
                    },
                    modal: ModalData::Edit(
                        TypeFormData {
                            target_id: Some(t.id),
                            name: t.name@,
                            description: t.description@,
                            is_active: t.is_active,
                            usage,
                            ..type_form::blank_form(t.category_id)
                        },
                    ),
                    ..self
                }
            },
        }
    }
}

impl TypesState {
    /// Selects a row. With Ctrl it joins or leaves the selection, otherwise it is the only one.
    pub fn select(&mut self, id: i64, ctrl: bool)
        ensures
            final(self)@ == old(self)@.with_selected(id, ctrl),
            final(self)@ == (TypesData {
                selection: if !ctrl {
                    set![id]
                } else if old(self).selection@.contains(id) {
                    old(self).selection@.remove(id)
                } else {
                    old(self).selection@.insert(id)
                },
                ..old(self)@
            }),
    {
        if ctrl {
            let was_in = catalog::drop_id(&mut self.selection, id);
            if !was_in {
                catalog::add_id(&mut self.selection, id);
                assert(self.selection@ =~= old(self).selection@.insert(id));
            }
        } else {
            self.selection = BTreeSet::new();
            catalog::add_id(&mut self.selection, id);
        }
    }

    fn place_of(&self, id: i64) -> (r: Option<usize>)
        ensures
            match (r, catalog::type_index(types_shown(self@), id)) {
                (Some(a), Some(b)) => self.view is Some && a == b && a
                    < self.view->0.types@.len() && self.view->0.types@[b].id == id,
                (None, None) => true,
                _ => false,
            },
    {
        match &self.view {
            Some(v) => catalog::find_type(&v.types, id),
            None => None,
        }
    }

    /// Whether there is a type with this id, so that its usage is worth asking for.
    pub fn has_type(&self, id: i64) -> (r: bool)
        ensures
            r == (catalog::type_index(types_shown(self@), id) is Some),
    {
        self.place_of(id).is_some()
    }

    /// Opens the form for a type. From the table (`from_table`) its row becomes the only
    /// selected one.
    pub fn open_edit(&mut self, id: i64, usage: Option<TypeUsage>, from_table: bool)
        ensures
            final(self)@ == old(self)@.editing(id, usage, from_table),
            match catalog::type_index(types_shown(old(self)@), id) {
                None => final(self)@ == old(self)@,
                Some(i) => {
                    let t = types_shown(old(self)@)[i];
                    final(self)@ == (TypesData {
                        selection: if from_table {
                            set![id]
                        } else {
                            old(self).selection@
                        },
                        modal: ModalData::Edit(
                            TypeFormData {
                                target_id: Some(t.id),
                                name: t.name@,
                                description: t.description@,
                                is_active: t.is_active,
                                usage,
                                ..type_form::blank_form(t.category_id)
                            },
                        ),
                        ..old(self)@
                    })
                },
            },
    {
        if let Some(i) = self.place_of(id) {
            if let Some(v) = &self.view {
                self.modal = Modal::Edit(type_form::edit_type_form(&v.types[i], usage));
            }
            if from_table {
                self.selection = BTreeSet::new();
                catalog::add_id(&mut self.selection, id);
            }
        }
    }

    /// The change that flips the active state of a type, where there is such a type.
    pub fn toggle_request(&self, id: i64) -> (r: Option<TypeWrite>)
        ensures
            match (catalog::type_index(types_shown(self@), id), r) {
                (Some(i), Some(w)) => {
                    let t = types_shown(self@)[i];
                    w.repoints(t, t.category_id, !t.is_active)
                },
                (None, None) => true,
                _ => false,
            },
    {
        match self.place_of(id) {
            None => None,
            Some(i) => match &self.view {
                Some(v) => Some(
                    catalog::repoint(&v.types[i], v.types[i].category_id, !v.types[i].is_active),
                ),
                None => None,
            },
        }
    }

    /// Takes the database's answer to a flip. A refusal is a notice beside the caption, not the
    /// whole screen replaced by a failure.
    pub fn toggle_reply(&mut self, answer: Result<(), DbError>)
        ensures
            final(self)@ == old(self)@.after_toggle(answer),
            final(self)@ == (match answer {
                Ok(_) => TypesData { notice: None, dirty: true, ..old(self)@ },
                Err(e) => TypesData { notice: Some(e.message@), ..old(self)@ },
            }),
    {
        match answer {
            Ok(_) => {
                self.notice = None;
                self.mark_dirty();
            },
            Err(e) => {
                self.notice = Some(e.message);
            },
        }
    }
}

// --- the caption ---

/// Whether a selected type is active.
pub open spec fn is_active_id(types: Seq<TaskType>, id: i64) -> bool {
    catalog::type_index(types, id) matches Some(i) && types[i].is_active
}

/// Whether one of the selected types is active: only a selection without one offers
/// "Activate".
pub open spec fn any_active(s: TypesData) -> bool {
    exists|id: i64| s.selection.contains(id) && #[trigger] is_active_id(types_shown(s), id)
}

/// The ids among `ids` that are types of the screen, in order.
pub open spec fn known_ids(types: Seq<TaskType>, ids: Seq<i64>) -> Seq<i64>
    decreases ids.len(),
{
    if ids.len() == 0 {
        Seq::empty()
    } else if catalog::type_index(types, ids.last()) is Some {
        known_ids(types, ids.drop_last()).push(ids.last())
    } else {
        known_ids(types, ids.drop_last())
    }
}

/// The first failure of a list of answers.
pub open spec fn first_failure(answers: Seq<Result<(), DbError>>) -> Option<Seq<char>>
    decreases answers.len(),
{
    if answers.len() == 0 {
        None
    } else {
        match answers[0] {
            Err(e) => Some(e.message@),
            Ok(_) => first_failure(answers.drop_first()),
        }
    }
}

impl TypesState {
    /// Whether one of the selected types is active.
    pub fn selection_has_active(&self) -> (r: bool)
        ensures
            r == any_active(self@),
    {
        let ids = catalog::ids_in_order(&self.selection);
        for k in 0..ids.len()
            invariant
                catalog::lists_ids(ids@, self.selection@),
                forall|j: int|
                    0 <= j < k ==> !is_active_id(types_shown(self@), #[trigger] ids@[j]),
        {
            let id: i64 = ids[k];
            assert(self.selection@.contains(id)) by {
                assert(ids@.to_set().contains(ids@[k as int]));
            }
            if let Some(i) = self.place_of(id) {
                if let Some(v) = &self.view {
                    if v.types[i].is_active {
                        assert(is_active_id(types_shown(self@), id));
                        return true;
                    }
                }
            }
        }
        proof {
            assert forall|id: i64| self.selection@.contains(id) implies !(
            #[trigger] is_active_id(types_shown(self@), id)) by {
                assert(ids@.to_set().contains(id));
                let j = choose|j: int| 0 <= j < ids@.len() && ids@[j] == id;
                assert(!is_active_id(types_shown(self@), ids@[j]));
            }
        }
        false
    }

    /// The changes that deactivate the selected types, or activate them where none is active,
    /// in the order of their ids.
    pub fn bulk_requests(&self) -> (r: Vec<TypeWrite>)
        ensures
            exists|ids: Seq<i64>| #[trigger]
                catalog::lists_ids(ids, self.selection@) && ({
                    let known = known_ids(types_shown(self@), ids);
                    &&& r@.len() == known.len()
                    &&& forall|k: int|
                        0 <= k < r@.len() ==> {
                            let t = types_shown(self@)[catalog::type_index(
                                types_shown(self@),
                                known[k],
                            )->0];
                            (#[trigger] r@[k]).repoints(t, t.category_id, !any_active(self@))
                        }
                }),
    {
        let target_active = !self.selection_has_active();
        let ids = catalog::ids_in_order(&self.selection);
        let ghost types = types_shown(self@);
        let mut r: Vec<TypeWrite> = Vec::new();
        for k in 0..ids.len()
            invariant
                types == types_shown(self@),
                target_active == !any_active(self@),
                r@.len() == known_ids(types, ids@.take(k as int)).len(),
                forall|j: int|
                    0 <= j < r@.len() ==> {
                        let t = types[catalog::type_index(
                            types,
                            known_ids(types, ids@.take(k as int))[j],
                        )->0];
                        (#[trigger] r@[j]).repoints(t, t.category_id, target_active)
                    },
        {
            assert(ids@.take(k + 1).drop_last() =~= ids@.take(k as int));
            if let Some(i) = self.place_of(ids[k]) {
                if let Some(v) = &self.view {
                    r.push(
                        catalog::repoint(&v.types[i], v.types[i].category_id, target_active),
                    );
                }
            }
        }
        assert(ids@.take(ids@.len() as int) =~= ids@);
        r
    }

    /// Takes the database's answers to the changes: the first failure is shown.
    pub fn bulk_reply(&mut self, answers: Vec<Result<(), DbError>>)
        ensures
            final(self)@ == (TypesData {
                notice: first_failure(answers@),
                dirty: true,
                ..old(self)@
            }),
    {
        let mut notice: Option<String> = None;
        assert(answers@.skip(0) =~= answers@);
        for i in 0..answers.len()
            invariant_except_break
                notice is None,
                first_failure(answers@) == first_failure(answers@.skip(i as int)),
            ensures
                text::optional(notice) == first_failure(answers@),
        {
            if let Err(e) = &answers[i] {
                notice = Some(e.message.clone());
                break ;
            }
            assert(answers@.skip(i as int).drop_first() =~= answers@.skip(i + 1));
        }
        self.notice = notice;
        self.mark_dirty();
    }
}

// --- the dialogs ---

impl TypesState {
    /// Takes the database's answer to a save: the form closes, or it stays open and shows the
    /// failure.
    pub fn save_reply(&mut self, answer: Result<(), DbError>)
        ensures
            final(self)@ == old(self)@.after_save(answer),
            match (answer, old(self)@.modal) {
                (Ok(_), _) => final(self)@ == (TypesData {
                    modal: ModalData::Closed,
                    dirty: true,
                    ..old(self)@
                }),
                (Err(e), ModalData::Edit(f)) => final(self)@ == (TypesData {
                    modal: ModalData::Edit(
                        TypeFormData {
                            error: Some(
                                if e.kind == crate::error::ErrorKind::Duplicate {
                                    "a type with that name already exists in this category"@
                                } else {
                                    e.message@
                                },
                            ),
                            ..f
                        },
                    ),
                    ..old(self)@
                }),
                _ => final(self)@ == old(self)@,
            },
    {
        match answer {
            Ok(_) => {
                self.modal = Modal::Closed;
                self.mark_dirty();
            },
            Err(e) => {
                if let Modal::Edit(form) = &mut self.modal {
                    form.save_failed(e);
                }
            },
        }
    }

    /// Takes the database's answer to a deletion: both dialogs close, or the delete dialog
    /// shows the failure.
    pub fn delete_reply(&mut self, answer: Result<(), DbError>)
        ensures
            final(self)@ == old(self)@.after_deletion(answer),
            match (answer, old(self)@.modal) {
                (Ok(_), _) => final(self)@ == (TypesData {
                    modal: ModalData::Closed,
                    dirty: true,
                    ..old(self)@
                }),
                (Err(e), ModalData::Edit(f)) => final(self)@ == (TypesData {
                    modal: ModalData::Edit(
                        TypeFormData {
                            delete: match f.delete {
                                Some(d) => Some(DeleteData { error: Some(e.message@), ..d }),
                                None => None,
                            },
                            ..f
                        },
                    ),
                    ..old(self)@
                }),
                _ => final(self)@ == old(self)@,
            },
    {
        match answer {
            Ok(_) => {
                self.modal = Modal::Closed;
                self.mark_dirty();
            },
            Err(e) => {
                if let Modal::Edit(form) = &mut self.modal {
                    if let Some(mut d) = form.delete.take() {
                        d.error = Some(e.message);
                        form.delete = Some(d);
                    }
                }
            },
        }
    }

    /// Closes the delete dialog; the form under it stays.
    pub fn close_delete(&mut self)
        ensures
            final(self)@ == (match old(self)@.modal {
                ModalData::Edit(f) => TypesData {
                    modal: ModalData::Edit(TypeFormData { delete: None, ..f }),
                    ..old(self)@
                },
                _ => old(self)@,
            }),
    {
        if let Modal::Edit(form) = &mut self.modal {
            form.delete = None;
        }
    }

    /// Ends one frame of the manage-categories dialog: `changes` is what the frame has written,
    /// `reloaded` the rows as they are now in the database, if they could be loaded.
    pub fn end_categories_frame(
        &mut self,
        changes: Changes,
        close: bool,
        reloaded: Option<CategoriesModal>,
    )
        ensures
            final(self)@ == old(self)@.after_categories(changes, close, reloaded),
    {
        if changes.today_dirty {
            self.categories_changed = true;
        }
        if close {
            self.modal = Modal::Closed;
            self.mark_dirty();
            return;
        }
        if changes.data_changed {
            if let Modal::ManageCategories(m) = &mut self.modal {
                if let Some(fresh) = reloaded {
                    m.reload(fresh);
                }
            }
            self.mark_dirty();
        }
    }
}

impl TypesData {
    /// The screen after a frame of the manage-categories dialog.
    pub open spec fn after_categories(
        self,
        changes: Changes,
        close: bool,
        reloaded: Option<CategoriesModal>,
    ) -> TypesData {
        let categories_changed = self.categories_changed || changes.today_dirty;
        if close {
            TypesData { modal: ModalData::Closed, dirty: true, categories_changed, ..self }
        } else if changes.data_changed {
            TypesData {
                modal: match (self.modal, reloaded) {
                    (ModalData::ManageCategories(m), Some(fresh)) => ModalData::ManageCategories(
                        CategoriesData { error: m.error, new_name: m.new_name, ..fresh@ },
                    ),
                    (modal, _) => modal,
                },
                dirty: true,
                categories_changed,
                ..self
            }
        } else {
            TypesData { categories_changed, ..self }
        }
    }
}

/// Every category that the manage-categories dialog adds, renames, moves or deletes, with or
/// without moving its types elsewhere first, reaches the Today screen.
pub proof fn law_category_changes_reach_today(
    s: TypesData,
    change: categories::CategoryChange,
    answer: Result<(), DbError>,
    close: bool,
    reloaded: Option<CategoriesModal>,
)
    requires
        answer is Ok,
    ensures
        s.after_categories(
            categories::changes_of(change, answer),
            close,
            reloaded,
        ).categories_changed,
        s.after_categories(
            categories::everything_changed(),
            close,
            reloaded,
        ).categories_changed,
{
}

/// A type's lifetime total is that of its last row, and 0 where there is none.
pub proof fn law_last_row_of_a_type_counts(
    totals: Seq<TypeLifetimeTotal>,
    r: TypeLifetimeTotal,
    id: i64,
)
    ensures
        lifetime_map(Seq::empty()) == Map::<i64, i64>::empty(),
        catalog::count_in(lifetime_map(totals.push(r)), r.task_type_id) == r.total,
        id != r.task_type_id ==> catalog::count_in(lifetime_map(totals.push(r)), id)
            == catalog::count_in(lifetime_map(totals), id),
{
    assert(totals.push(r).drop_last() =~= totals);
}

/// The screen holds the categories and types that the database answered, and one lifetime total
/// for each of the types.
pub proof fn law_screen_holds_the_answer(v: TypesView, rows: TypeRows, k: int)
    requires
        view_shows(v, rows),
    ensures
        v.categories@ == rows.categories@,
        v.types@ == rows.types@,
        v.lifetime@ == lifetime_map(rows.totals@),
        lifetime_list(v).len() == rows.types@.len(),
        0 <= k < rows.types@.len() ==> lifetime_list(v)[k].task_type_id == rows.types@[k].id
            && lifetime_list(v)[k].total == catalog::count_in(
            lifetime_map(rows.totals@),
            rows.types@[k].id,
        ),
{
}

/// At launch the screen filters nothing, selects nothing, has no dialog open and everything to
/// load.
pub proof fn law_launch_shows_every_type(id: i64)
    ensures
        TypesData::fresh().search.len() == 0,
        TypesData::fresh().category_filter == CategoryFilter::All,
        TypesData::fresh().active_filter == ActiveFilter::All,
        !TypesData::fresh().selection.contains(id),
        TypesData::fresh().notice is None,
        TypesData::fresh().modal == ModalData::Closed,
        TypesData::fresh().dirty,
        TypesData::fresh().view is None,
        TypesData::fresh().error is None,
        !TypesData::fresh().categories_changed,
{
}

/// The import report gives each of its five numbers in a line of its own, and one line more
/// where the file was in the old encoding.
pub proof fn law_report_gives_the_numbers(r: CombinedReport)
    ensures
        report_texts(r)[0] == "Imported: "@ + text::decimal(r.imported as int),
        report_texts(r)[1] == "Already existed: "@ + text::decimal(r.skipped_existing as int),
        report_texts(r)[2] == "Duplicate in file: "@ + text::decimal(r.skipped_in_file as int),
        report_texts(r)[3] == "Malformed rows skipped: "@ + text::decimal(
            r.skipped_malformed as int,
        ),
        report_texts(r)[4] == "Categories created: "@ + text::decimal(r.categories_created as int),
        r.encoding@ == "windows-1252"@ ==> report_texts(r).len() == 6 && report_texts(r)[5]
            == "used windows-1252 encoding"@,
        r.encoding@ != "windows-1252"@ ==> report_texts(r).len() == 5,
{
}

/// A click on the status pill flips it and does nothing else; otherwise a double click opens the
/// form and a single click selects, with or without Ctrl.
pub proof fn law_pill_comes_before_the_row(double_clicked: bool, clicked: bool, ctrl: bool)
    ensures
        click_means(double_clicked, clicked, true, ctrl) == RowClick::Toggle,
        click_means(true, clicked, false, ctrl) == RowClick::OpenEdit,
        click_means(false, true, false, ctrl) == (RowClick::Select { ctrl }),
        click_means(false, false, false, ctrl) == RowClick::Nothing,
{
}

/// A plain click selects the row alone; with Ctrl the row changes sides and every other row stays
/// as it is, so that a second such click undoes the first. Nothing else changes.
pub proof fn law_ctrl_click_changes_one_row(s: TypesData, id: i64, other: i64, ctrl: bool)
    ensures
        s.with_selected(id, false).selection.contains(other) <==> other == id,
        s.with_selected(id, true).selection.contains(id) <==> !s.selection.contains(id),
        other != id ==> (s.with_selected(id, true).selection.contains(other)
            <==> s.selection.contains(other)),
        s.with_selected(id, true).with_selected(id, true).selection =~= s.selection,
        s.with_selected(id, ctrl).search == s.search,
        s.with_selected(id, ctrl).category_filter == s.category_filter,
        s.with_selected(id, ctrl).active_filter == s.active_filter,
        s.with_selected(id, ctrl).notice == s.notice,
        s.with_selected(id, ctrl).modal == s.modal,
        s.with_selected(id, ctrl).dirty == s.dirty,
        s.with_selected(id, ctrl).view == s.view,
        s.with_selected(id, ctrl).error == s.error,
        s.with_selected(id, ctrl).categories_changed == s.categories_changed,
{
}

/// The form for a type opens with the type's own name, description, category and active state;
/// from the table its row becomes the only selected one, and from elsewhere the selection stays.
pub proof fn law_form_opens_with_the_type(s: TypesData, i: int, id: i64, usage: Option<TypeUsage>)
    requires
        catalog::type_index(types_shown(s), id) == Some(i),
    ensures
        s.editing(id, usage, true).modal matches ModalData::Edit(f) && f.target_id == Some(
            types_shown(s)[i].id,
        ) && f.name == types_shown(s)[i].name@ && f.description == types_shown(s)[i].description@
            && f.is_active == types_shown(s)[i].is_active && f.category_id
            == types_shown(s)[i].category_id && f.usage == usage && f.error is None && f.delete is None,
        s.editing(id, usage, false).modal == s.editing(id, usage, true).modal,
        s.editing(id, usage, false).selection == s.selection,
        s.editing(id, usage, true).selection.contains(id),
        forall|other: i64|
            other != id ==> !#[trigger] s.editing(id, usage, true).selection.contains(other),
        s.editing(id, usage, true).dirty == s.dirty,
        s.editing(id, usage, true).view == s.view,
{
}

/// A flip that was written clears the notice and has the table loaded anew; a refusal is shown as
/// a notice and changes nothing else.
pub proof fn law_refused_flip_is_a_notice(s: TypesData, e: DbError)
    ensures
        s.after_toggle(Ok(())).notice is None,
        s.after_toggle(Ok(())).dirty,
        s.after_toggle(Ok(())).selection == s.selection,
        s.after_toggle(Ok(())).modal == s.modal,
        s.after_toggle(Err(e)).notice == Some(e.message@),
        s.after_toggle(Err(e)).dirty == s.dirty,
        s.after_toggle(Err(e)).error == s.error,
        s.after_toggle(Err(e)).selection == s.selection,
        s.after_toggle(Err(e)).modal == s.modal,
        s.after_toggle(Err(e)).view == s.view,
{
}

/// What was saved closes the form and has the table loaded anew. A refused save keeps the form
/// open with all that was entered and says why, in its own words for a name that is taken.
pub proof fn law_refused_save_keeps_the_form(s: TypesData, f: TypeFormData, e: DbError)
    requires
        s.modal == ModalData::Edit(f),
    ensures
        s.after_save(Ok(())).modal == ModalData::Closed,
        s.after_save(Ok(())).dirty,
        s.after_save(Ok(())).selection == s.selection,
        s.after_save(Err(e)).dirty == s.dirty,
        s.after_save(Err(e)).selection == s.selection,
        s.after_save(Err(e)).modal matches ModalData::Edit(g) && g.name == f.name && g.description
            == f.description && g.category_id == f.category_id && g.is_active == f.is_active
            && g.target_id == f.target_id && g.delete == f.delete && g.error == Some(
            if e.kind == crate::error::ErrorKind::Duplicate {
                "a type with that name already exists in this category"@
            } else {
                e.message@
            },
        ),
{
}

/// A deletion closes the form; a refused one keeps the form and its delete dialog open and shows
/// why in the delete dialog.
pub proof fn law_refused_deletion_keeps_the_dialog(
    s: TypesData,
    f: TypeFormData,
    d: DeleteData,
    e: DbError,
)
    requires
        s.modal == ModalData::Edit(f),
        f.delete == Some(d),
    ensures
        s.after_deletion(Ok(())).modal == ModalData::Closed,
        s.after_deletion(Ok(())).dirty,
        s.after_deletion(Err(e)).dirty == s.dirty,
        s.after_deletion(Err(e)).modal matches ModalData::Edit(g) && g.name == f.name
            && g.description == f.description && g.error == f.error && g.delete == Some(
            DeleteData { error: Some(e.message@), ..d },
        ),
{
}

/// Deactivating is offered as soon as one selected type is active; a selection of inactive types
/// alone offers activating.
pub proof fn law_one_active_type_is_enough(s: TypesData, id: i64)
    ensures
        s.selection.contains(id) && (catalog::type_index(types_shown(s), id) matches Some(i)
            && types_shown(s)[i].is_active) ==> any_active(s),
        (forall|k: int|
            0 <= k < types_shown(s).len() && s.selection.contains(
                (#[trigger] types_shown(s)[k]).id,
            ) ==> !types_shown(s)[k].is_active) ==> !any_active(s),
{
    if s.selection.contains(id) && (catalog::type_index(types_shown(s), id) matches Some(i)
        && types_shown(s)[i].is_active) {
        assert(is_active_id(types_shown(s), id));
    }
    if any_active(s) {
        let a = choose|a: i64|
            s.selection.contains(a) && #[trigger] is_active_id(types_shown(s), a);
        catalog::law_lookup_finds_the_first_type(types_shown(s), a);
        let i = catalog::type_index(types_shown(s), a)->0;
        assert(s.selection.contains(types_shown(s)[i].id) && types_shown(s)[i].is_active);
    }
}

/// Of the selected ids those that are types are changed, in their order; others are passed over.
pub proof fn law_only_known_types_are_changed(types: Seq<TaskType>, ids: Seq<i64>, id: i64)
    ensures
        known_ids(types, Seq::empty()).len() == 0,
        catalog::type_index(types, id) is Some ==> known_ids(types, ids.push(id)) == known_ids(
            types,
            ids,
        ).push(id),
        catalog::type_index(types, id) is None ==> known_ids(types, ids.push(id)) == known_ids(
            types,
            ids,
        ),
{
    assert(ids.push(id).drop_last() =~= ids);
}

/// Of several failures the first is shown, and none where everything went well.
pub proof fn law_first_failure_is_shown(answers: Seq<Result<(), DbError>>, e: DbError)
    ensures
        first_failure(Seq::empty()) is None,
        first_failure(seq![Err(e)] + answers) == Some(e.message@),
        first_failure(seq![Ok(())] + answers) == first_failure(answers),
{
    assert((seq![Ok::<(), DbError>(())] + answers).drop_first() =~= answers);
}

/// Closing the manage-categories dialog has the table loaded anew. While it stays open, a frame
/// that wrote something loads its rows anew and keeps the name that is being typed and the
/// failure that is shown; a frame that wrote nothing leaves the dialog alone.
pub proof fn law_categories_dialog_follows_what_was_written(
    s: TypesData,
    m: CategoriesData,
    today_dirty: bool,
    data_changed: bool,
    fresh: CategoriesModal,
)
    requires
        s.modal == ModalData::ManageCategories(m),
    ensures
        s.after_categories(Changes { data_changed, today_dirty }, true, Some(fresh)).modal
            == ModalData::Closed,
        s.after_categories(Changes { data_changed, today_dirty }, true, Some(fresh)).dirty,
        s.after_categories(
            Changes { data_changed: true, today_dirty },
            false,
            Some(fresh),
        ).modal matches ModalData::ManageCategories(n) && n.rows == fresh@.rows && n.new_name
            == m.new_name && n.error == m.error && n.drag == fresh@.drag && n.move_dialog
            == fresh@.move_dialog,
        s.after_categories(Changes { data_changed: true, today_dirty }, false, Some(fresh)).dirty,
        s.after_categories(Changes { data_changed: true, today_dirty }, false, None).modal
            == s.modal,
        s.after_categories(Changes { data_changed: false, today_dirty }, false, Some(fresh)).modal
            == s.modal,
        s.after_categories(Changes { data_changed: false, today_dirty }, false, Some(fresh)).dirty
            == s.dirty,
        s.after_categories(Changes { data_changed, today_dirty: true }, false, None).categories_changed,
        s.after_categories(Changes { data_changed, today_dirty: false }, false, None).categories_changed
            == s.categories_changed,
        s.after_categories(Changes { data_changed, today_dirty }, false, Some(fresh)).selection
            == s.selection,
{
}

} // verus!
