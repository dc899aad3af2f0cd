//! The dialogs for a new or changed task type, and for deleting one.
use vstd::prelude::*;

use crate::catalog::{self, Category, TaskType, TypeUsage, TypeWrite};
use crate::dates;
use crate::error::{DbError, ErrorKind};
use crate::text;
use crate::ui::types;

verus! {

/// How many categories get a pill before the rest move behind the "more" popup.
pub const PILL_TOP_N: usize = 5;

/// The draft of a new or changed type.
#[derive(Debug)]
pub struct TypeForm {
    /// `None` for a new type, `Some(id)` for a change to one.
    pub target_id: Option<i64>,
    pub category_id: i64,
    pub name: String,
    pub description: String,
    pub is_active: bool,
    /// A failure to save that is not the check of the name while it is typed.
    pub error: Option<String>,
    /// The filter text in the "more" popup.
    pub category_filter: String,
    /// The "more" popup is open.
    pub picker_open: bool,
    /// What stands in the field for a new category while it is open.
    pub new_category: Option<String>,
    pub new_category_error: Option<String>,
    /// What the type was used for so far; `None` for a new type or if the query failed.
    pub usage: Option<TypeUsage>,
    /// The delete dialog on top of this one.
    pub delete: Option<DeleteForm>,
}

/// The three ways to get rid of a type.
#[derive(Clone, Copy, Debug, PartialEq, Eq, Structural)]
pub enum DeleteChoice {
    Deactivate,
    Merge,
    Trash,
}

/// A type that tallies can be moved to.
#[derive(Debug)]
pub struct MergeTarget {
    pub id: i64,
    pub category: String,
    pub name: String,
}

/// The draft in the delete dialog.
#[derive(Debug)]
pub struct DeleteForm {
    pub type_id: i64,
    pub name: String,
    pub usage: TypeUsage,
    pub choice: DeleteChoice,
    /// The type the tallies go to, once one is picked.
    pub merge_target: Option<i64>,
    /// Every other active type.
    pub others: Vec<MergeTarget>,
    pub error: Option<String>,
}

/// The type dialog's draft as contracts speak of it.
#[verifier::ext_equal]
pub struct TypeFormData {
    pub target_id: Option<i64>,
    pub category_id: i64,
    pub name: Seq<char>,
    pub description: Seq<char>,
    pub is_active: bool,
    pub error: Option<Seq<char>>,
    pub category_filter: Seq<char>,
    pub picker_open: bool,
    pub new_category: Option<Seq<char>>,
    pub new_category_error: Option<Seq<char>>,
    pub usage: Option<TypeUsage>,
    pub delete: Option<DeleteData>,
}

/// The delete dialog's draft as contracts speak of it.
#[verifier::ext_equal]
pub struct DeleteData {
    pub type_id: i64,
    pub name: Seq<char>,
    pub usage: TypeUsage,
    pub choice: DeleteChoice,
    pub merge_target: Option<i64>,
    pub others: Seq<MergeTarget>,
    pub error: Option<Seq<char>>,
}

impl View for DeleteForm {
    type V = DeleteData;

    open spec fn view(&self) -> DeleteData {
        DeleteData {
            type_id: self.type_id,
            name: self.name@,
            usage: self.usage,
            choice: self.choice,
            merge_target: self.merge_target,
            others: self.others@,
            error: text::optional(self.error),
        }
    }
}

impl View for TypeForm {
    type V = TypeFormData;

    open spec fn view(&self) -> TypeFormData {
        TypeFormData {
            target_id: self.target_id,
            category_id: self.category_id,
            name: self.name@,
            description: self.description@,
            is_active: self.is_active,
            error: text::optional(self.error),
            category_filter: self.category_filter@,
            picker_open: self.picker_open,
            new_category: text::optional(self.new_category),
            new_category_error: text::optional(self.new_category_error),
            usage: self.usage,
            delete: match self.delete {
                Some(d) => Some(d@),
                None => None,
            },
        }
    }
}

/// A blank form.
pub open spec fn blank_form(category_id: i64) -> TypeFormData {
    TypeFormData {
        target_id: None,
        category_id,
        name: Seq::empty(),
        description: Seq::empty(),
        is_active: true,
        error: None,
        category_filter: Seq::empty(),
        picker_open: false,
        new_category: None,
        new_category_error: None,
        usage: None,
        delete: None,
    }
}

/// A blank form for a new type in the given category.
pub fn new_type_form(default_category_id: i64) -> (r: TypeForm)
    ensures
        r@ == blank_form(default_category_id),
{
    TypeForm {
        target_id: None,
        category_id: default_category_id,
        name: String::new(),
        description: String::new(),
        is_active: true,
        error: None,
        category_filter: String::new(),
        picker_open: false,
        new_category: None,
        new_category_error: None,
        usage: None,
        delete: None,
    }
}

/// The form for changing `t`. A failed usage query only leaves the usage line off.
pub fn edit_type_form(t: &TaskType, usage: Option<TypeUsage>) -> (r: TypeForm)
    ensures
        r@ == (TypeFormData {
            target_id: Some(t.id),
            name: t.name@,
            description: t.description@,
            is_active: t.is_active,
            usage,
            ..blank_form(t.category_id)
        }),
{
    TypeForm {
        target_id: Some(t.id),
        category_id: t.category_id,
        name: t.name.clone(),
        description: t.description.clone(),
        is_active: t.is_active,
        error: None,
        category_filter: String::new(),
        picker_open: false,
        new_category: None,
        new_category_error: None,
        usage,
        delete: None,
    }
}

/// `12 tallies · last used 3 Aug`.
pub open spec fn usage_text(usage: TypeUsage) -> Seq<char> {
    text::decimal(usage.total as int) + " tallies"@ + (match usage.last_used {
        Some(d) => " \u{b7} last used "@ + dates::day_month_text(d),
        None => Seq::empty(),
    })
}

/// The usage line in the title of the form.
pub fn usage_line(usage: &TypeUsage) -> (r: String)
    requires
        usage.last_used matches Some(d) ==> d.valid(),
    ensures
        r@ == usage_text(*usage),
{
    let mut s = String::new();
    text::push_decimal(&mut s, usage.total);
    text::push_text(&mut s, " tallies");
    if let Some(d) = usage.last_used {
        text::push_text(&mut s, " \u{b7} last used ");
        text::push_text(&mut s, dates::day_month(d).as_str());
    }
    assert(s@ =~= usage_text(*usage));
    s
}

/// What the "appears as" preview shows for a name: the name without surrounding white space,
/// or a placeholder.
pub fn preview_name(name: &str) -> (r: String)
    ensures
        r@ == (if text::trimmed(name@).len() == 0 {
            "Type name"@
        } else {
            text::trimmed(name@)
        }),
{
    let t = text::trim(name);
    if t.as_str().is_empty() {
        "Type name".to_owned()
    } else {
        t
    }
}

// --- the category row of the form ---

/// What happened in the category row during one frame.
#[derive(Debug)]
pub struct CategoryFrame {
    /// The pill of a category was clicked.
    pub pill: Option<i64>,
    /// The "more" pill was clicked.
    pub more: bool,
    /// What stands in the field for a new category.
    pub text: String,
    /// "Add" beside the field was clicked.
    pub add: bool,
    /// The cross beside the field was clicked.
    pub discard: bool,
    /// "+ New" was clicked.
    pub new_pill: bool,
}

impl TypeFormData {
    /// The form after one frame of the category row.
    pub open spec fn after_categories(self, f: CategoryFrame) -> TypeFormData {
        let opened = match self.new_category {
            Some(_) => if f.discard && !f.add {
                None
            } else {
                Some(f.text@)
            },
            None => if f.new_pill {
                Some(Seq::empty())
            } else {
                None
            },
        };
        let cleared = (self.new_category is Some && f.discard && !f.add) || (self.new_category
            is None && f.new_pill);
        TypeFormData {
            category_id: match f.pill {
                Some(id) => id,
                None => self.category_id,
            },
            picker_open: self.picker_open || f.more,
            category_filter: if f.more {
                Seq::empty()
            } else {
                self.category_filter
            },
            new_category: opened,
            new_category_error: if cleared {
                None
            } else {
                self.new_category_error
            },
            ..self
        }
    }

    /// The form after the database was asked for a new category.
    pub open spec fn after_new_category(self, answer: Result<i64, DbError>) -> TypeFormData {
        match answer {
            Ok(id) => TypeFormData {
                category_id: id,
                new_category: None,
                new_category_error: None,
                ..self
            },
            Err(e) => TypeFormData {
                new_category_error: Some(
                    if e.kind == ErrorKind::Duplicate {
                        "a category with that name already exists"@
                    } else {
                        e.message@
                    },
                ),
                ..self
            },
        }
    }
}

impl TypeForm {
    /// Applies one frame of the category row. The name of a category to create is returned
    /// when "Add" was clicked.
    pub fn category_frame(&mut self, f: CategoryFrame) -> (r: Option<String>)
        ensures
            final(self)@ == old(self)@.after_categories(f),
            text::optional(r) == (if old(self).new_category is Some && f.add {
                Some(f.text@)
            } else {
                None
            }),
    {
        if let Some(id) = f.pill {
            self.category_id = id;
        }
        if f.more {
            self.picker_open = true;
            self.category_filter = String::new();
        }
        if self.new_category.is_some() {
            if f.add {
                let name = f.text.clone();
                self.new_category = Some(f.text);
                return Some(name);
            }
            if f.discard {
                self.new_category = None;
                self.new_category_error = None;
            } else {
                self.new_category = Some(f.text);
            }
        } else if f.new_pill {
            self.new_category = Some(String::new());
            self.new_category_error = None;
        }
        None
    }

    /// Takes the database's answer to the request for a new category.
    pub fn new_category_reply(&mut self, answer: Result<i64, DbError>)
        ensures
            final(self)@ == old(self)@.after_new_category(answer),
    {
        match answer {
            Ok(id) => {
                self.category_id = id;
                self.new_category = None;
                self.new_category_error = None;
            },
            Err(e) => {
                self.new_category_error = Some(
                    if e.kind == ErrorKind::Duplicate {
                        "a category with that name already exists".to_owned()
                    } else {
                        e.message
                    },
                );
            },
        }
    }
}

// --- the rest of the form ---

/// What happened in the rest of the form during one frame.
#[derive(Debug)]
pub struct FormFrame {
    /// The cross in the title, "Cancel", Esc or a click outside.
    pub cancel: bool,
    pub name: String,
    pub description: String,
    pub toggle_active: bool,
    /// "Delete type" was clicked.
    pub delete: bool,
    /// "Save" was clicked.
    pub save: bool,
    pub enter: bool,
    /// What stands in the filter of the "more" popup.
    pub picker_filter: String,
    /// A category was picked in the popup.
    pub picked: Option<i64>,
    /// The popup was closed without a pick.
    pub picker_closed: bool,
}

/// What the form asks for.
#[derive(Debug)]
pub enum FormRequest {
    Nothing,
    /// Close the form without saving.
    Close,
    /// Load what the delete dialog shows about the type.
    LoadDelete { id: i64, name: String },
    Create { category_id: i64, name: String, description: String },
    Change(TypeWrite),
}

impl TypeFormData {
    /// Whether the name as typed in this frame can be saved.
    pub open spec fn name_ok(self, f: FormFrame, all: Seq<TaskType>) -> bool {
        text::trimmed(f.name@).len() > 0 && types::name_conflict(
            all,
            self.category_id,
            f.name@,
            self.target_id,
        ) is None
    }

    /// The form after one frame. While the popup is open, a pick sets the category.
    pub open spec fn after(self, f: FormFrame) -> TypeFormData {
        TypeFormData {
            name: f.name@,
            description: f.description@,
            is_active: self.is_active != f.toggle_active,
            category_filter: if self.picker_open {
                f.picker_filter@
            } else {
                self.category_filter
            },
            category_id: if self.picker_open && f.picked is Some {
                f.picked->0
            } else {
                self.category_id
            },
            picker_open: self.picker_open && f.picked is None && !f.picker_closed,
            ..self
        }
    }

    /// "Delete type" is offered only for a type that exists, and comes before everything else.
    pub open spec fn wants_delete(self, f: FormFrame) -> bool {
        f.delete && self.target_id is Some
    }

    /// Esc reaches the form only while the popup is closed.
    pub open spec fn wants_close(self, f: FormFrame) -> bool {
        !self.wants_delete(f) && f.cancel && !self.picker_open
    }

    /// Saving needs a name that can be saved; Enter saves unless the field for a new category
    /// is open.
    pub open spec fn wants_save(self, f: FormFrame, all: Seq<TaskType>) -> bool {
        &&& !self.wants_delete(f)
        &&& !self.wants_close(f)
        &&& self.name_ok(f, all)
        &&& f.save || (f.enter && self.new_category is None)
    }
}

/// Whether `r` asks for what the frame decided on `form`.
pub open spec fn is_form_request(
    r: FormRequest,
    form: TypeFormData,
    f: FormFrame,
    all: Seq<TaskType>,
) -> bool {
    let after = form.after(f);
    match r {
        FormRequest::Nothing => !form.wants_delete(f) && !form.wants_close(f) && !form.wants_save(
            f,
            all,
        ),
        FormRequest::Close => form.wants_close(f),
        FormRequest::LoadDelete { id, name } => form.wants_delete(f) && form.target_id == Some(id)
            && name@ == after.name,
        FormRequest::Create { category_id, name, description } => form.wants_save(f, all)
            && form.target_id is None && category_id == after.category_id && name@ == after.name
            && description@ == after.description,
        FormRequest::Change(w) => form.wants_save(f, all) && form.target_id == Some(w.id)
            && w.category_id == after.category_id && w.name@ == after.name && w.description@
            == after.description && w.is_active == after.is_active,
    }
}

impl TypeForm {
    /// Applies one frame of the rest of the form.
    pub fn form_frame(&mut self, f: FormFrame, all: &Vec<TaskType>) -> (r: FormRequest)
        ensures
            final(self)@ == old(self)@.after(f),
            is_form_request(r, old(self)@, f, all@),
    {
        let ghost before = self@;
        let name_ok = types::validate_type_name(
            all.as_slice(),
            self.category_id,
            f.name.as_str(),
            self.target_id,
        ).is_ok();
        let was_open = self.picker_open;
        self.name = f.name;
        self.description = f.description;
        if f.toggle_active {
            self.is_active = !self.is_active;
        }
        if was_open {
            self.category_filter = f.picker_filter;
            if let Some(id) = f.picked {
                self.category_id = id;
                self.picker_open = false;
            } else if f.picker_closed {
                self.picker_open = false;
            }
        }
        assert(self@ =~= before.after(f));
        if f.delete {
            if let Some(id) = self.target_id {
                return FormRequest::LoadDelete { id, name: self.name.clone() };
            }
        }
        if f.cancel && !was_open {
            return FormRequest::Close;
        }
        if !(name_ok && (f.save || (f.enter && self.new_category.is_none()))) {
            return FormRequest::Nothing;
        }
        match self.target_id {
            None => FormRequest::Create {
                category_id: self.category_id,
                name: self.name.clone(),
                description: self.description.clone(),
            },
            Some(id) => FormRequest::Change(
                TypeWrite {
                    id,
                    category_id: self.category_id,
                    name: self.name.clone(),
                    description: self.description.clone(),
                    is_active: self.is_active,
                },
            ),
        }
    }

    /// Shows that saving failed.
    pub fn save_failed(&mut self, e: DbError)
        ensures
            final(self)@ == (TypeFormData {
                error: Some(
                    if e.kind == ErrorKind::Duplicate {
                        "a type with that name already exists in this category"@
                    } else {
                        e.message@
                    },
                ),
                ..old(self)@
            }),
    {
        self.error = Some(
            if e.kind == ErrorKind::Duplicate {
                "a type with that name already exists in this category".to_owned()
            } else {
                e.message
            },
        );
    }

    /// Opens the delete dialog, or shows why it could not be loaded.
    pub fn open_delete(&mut self, loaded: Result<DeleteForm, DbError>)
        ensures
            final(self)@ == (match loaded {
                Ok(d) => TypeFormData { delete: Some(d@), ..old(self)@ },
                Err(e) => TypeFormData { error: Some(e.message@), ..old(self)@ },
            }),
    {
        match loaded {
            Ok(d) => {
                self.delete = Some(d);
            },
            Err(e) => {
                self.error = Some(e.message);
            },
        }
    }
}

// --- deleting ---

/// What the merge picker shows for a type.
pub open spec fn is_merge_target(m: MergeTarget, t: TaskType, categories: Seq<Category>) -> bool {
    m.id == t.id && m.category@ == catalog::category_name(categories, t.category_id) && m.name@
        == t.name@
}

/// The types other than `type_id`, in order.
pub open spec fn other_types(active: Seq<TaskType>, type_id: i64) -> Seq<TaskType> {
    active.filter(|t: TaskType| t.id != type_id)
}

/// The delete dialog for a type: deactivating is preselected, and every other active type can
/// take its tallies.
pub fn load_delete_form(
    type_id: i64,
    name: &str,
    usage: TypeUsage,
    active: &Vec<TaskType>,
    categories: &Vec<Category>,
) -> (r: DeleteForm)
    ensures
        r@ == (DeleteData {
            type_id,
            name: name@,
            usage,
            choice: DeleteChoice::Deactivate,
            merge_target: None,
            others: r.others@,
            error: None,
        }),
        r.others@.len() == other_types(active@, type_id).len(),
        forall|i: int|
            0 <= i < r.others@.len() ==> is_merge_target(
                #[trigger] r.others@[i],
                other_types(active@, type_id)[i],
                categories@,
            ),
{
    let mut others: Vec<MergeTarget> = Vec::new();
    let ghost keep = |t: TaskType| t.id != type_id;
    assert(active@.take(0).filter(keep).len() == 0) by {
        reveal(Seq::filter);
    }
    for i in 0..active.len()
        invariant
            keep == (|t: TaskType| t.id != type_id),
            others@.len() == active@.take(i as int).filter(keep).len(),
            forall|k: int|
                0 <= k < others@.len() ==> is_merge_target(
                    #[trigger] others@[k],
                    active@.take(i as int).filter(keep)[k],
                    categories@,
                ),
    {
        proof {
            reveal(Seq::filter);
            assert(active@.take(i + 1).drop_last() =~= active@.take(i as int));
        }
        let t = &active[i];
        if t.id != type_id {
            others.push(
                MergeTarget {
                    id: t.id,
                    category: catalog::name_of_category(categories, t.category_id),
                    name: t.name.clone(),
                },
            );
        }
    }
    assert(active@.take(active@.len() as int) =~= active@);
    DeleteForm {
        type_id,
        name: name.to_owned(),
        usage,
        choice: DeleteChoice::Deactivate,
        merge_target: None,
        others,
        error: None,
    }
}

/// What happened in the delete dialog during one frame.
#[derive(Debug)]
pub struct DeleteFrame {
    pub choose: Option<DeleteChoice>,
    pub target: Option<i64>,
    /// "Cancel", Esc or a click outside.
    pub close: bool,
    pub confirm: bool,
}

/// What the delete dialog asks for.
#[derive(Clone, Copy, Debug, PartialEq, Eq, Structural)]
pub enum DeleteRequest {
    Nothing,
    Close,
    Deactivate { id: i64 },
    Merge { id: i64, target: i64 },
    Trash { id: i64 },
}

impl DeleteData {
    /// The dialog after the choices of one frame. A type without tallies offers none, and the
    /// list of targets is shown only for moving tallies.
    pub open spec fn after(self, f: DeleteFrame) -> DeleteData {
        if self.usage.total == 0 {
            self
        } else {
            let choice = match f.choose {
                Some(c) => c,
                None => self.choice,
            };
            DeleteData {
                choice,
                merge_target: if choice == DeleteChoice::Merge && f.target is Some {
                    f.target
                } else {
                    self.merge_target
                },
                ..self
            }
        }
    }

    /// Whether the button that carries the choice out is enabled.
    pub open spec fn can_confirm(self) -> bool {
        self.usage.total == 0 || self.choice != DeleteChoice::Merge || self.merge_target is Some
    }

    /// What the choice asks for. A type without tallies goes to the trash without ceremony.
    pub open spec fn carried_out(self) -> DeleteRequest {
        if self.usage.total == 0 {
            DeleteRequest::Trash { id: self.type_id }
        } else {
            match self.choice {
                DeleteChoice::Deactivate => DeleteRequest::Deactivate { id: self.type_id },
                DeleteChoice::Merge => match self.merge_target {
                    Some(target) => DeleteRequest::Merge { id: self.type_id, target },
                    None => DeleteRequest::Nothing,
                },
                DeleteChoice::Trash => DeleteRequest::Trash { id: self.type_id },
            }
        }
    }
}

impl DeleteForm {
    /// Whether the button that carries the choice out is enabled.
    pub fn can_confirm(&self) -> (r: bool)
        ensures
            r == self@.can_confirm(),
    {
        self.usage.total == 0 || self.choice != DeleteChoice::Merge || self.merge_target.is_some()
    }

    /// The label of that button.
    pub fn confirm_label(&self) -> (r: &'static str)
        ensures
            r@ == (if self.usage.total == 0 {
                "Delete"@
            } else {
                match self.choice {
                    DeleteChoice::Deactivate => "Deactivate"@,
                    DeleteChoice::Merge => "Move and delete"@,
                    DeleteChoice::Trash => "Move to trash"@,
                }
            }),
    {
        if self.usage.total == 0 {
            "Delete"
        } else {
            match self.choice {
                DeleteChoice::Deactivate => "Deactivate",
                DeleteChoice::Merge => "Move and delete",
                DeleteChoice::Trash => "Move to trash",
            }
        }
    }

    /// Applies one frame of the delete dialog.
    pub fn delete_frame(&mut self, f: DeleteFrame) -> (r: DeleteRequest)
        ensures
            final(self)@ == old(self)@.after(f),
            r == (if f.close {
                DeleteRequest::Close
            } else if f.confirm && old(self)@.after(f).can_confirm() {
                old(self)@.after(f).carried_out()
            } else {
                DeleteRequest::Nothing
            }),
    {
        if self.usage.total != 0 {
            if let Some(c) = f.choose {
                self.choice = c;
            }
            if self.choice == DeleteChoice::Merge {
                if let Some(t) = f.target {
                    self.merge_target = Some(t);
                }
            }
        }
        if f.close {
            return DeleteRequest::Close;
        }
        if !f.confirm || !self.can_confirm() {
            return DeleteRequest::Nothing;
        }
        if self.usage.total == 0 {
            return DeleteRequest::Trash { id: self.type_id };
        }
        match self.choice {
            DeleteChoice::Deactivate => DeleteRequest::Deactivate { id: self.type_id },
            DeleteChoice::Merge => match self.merge_target {
                Some(target) => DeleteRequest::Merge { id: self.type_id, target },
                None => DeleteRequest::Nothing,
            },
            DeleteChoice::Trash => DeleteRequest::Trash { id: self.type_id },
        }
    }
}

/// The change that deactivates a type and keeps the rest of it, or the failure where there is
/// no such type.
pub fn deactivate_type(all: &Vec<TaskType>, id: i64) -> (r: Result<TypeWrite, DbError>)
    ensures
        match (catalog::type_index(all@, id), r) {
            (Some(i), Ok(w)) => w.repoints(all@[i], all@[i].category_id, false),
            (None, Err(e)) => e.kind == ErrorKind::NotFound && e.message@ == "task type "@
                + text::decimal(id as int),
            _ => false,
        },
{
    match catalog::find_type(all, id) {
        Some(i) => Ok(catalog::repoint(&all[i], all[i].category_id, false)),
        None => {
            let mut s = String::new();
            text::push_text(&mut s, "task type ");
            text::push_decimal(&mut s, id);
            assert(s@ =~= "task type "@ + text::decimal(id as int));
            Err(DbError { kind: ErrorKind::NotFound, message: s })
        },
    }
}

/// A frame asks the database to save a type only under a name that is not empty and that no
/// other type of its category has.
pub proof fn law_only_valid_names_are_saved(
    form: TypeFormData,
    f: FormFrame,
    all: Seq<TaskType>,
    r: FormRequest,
)
    requires
        is_form_request(r, form, f, all),
        r is Create || r is Change,
    ensures
        text::trimmed(f.name@).len() > 0,
        types::name_conflict(all, form.category_id, f.name@, form.target_id) is None,
{
}

/// Nothing is merged without a target, and a type that has tallies goes to the trash only when
/// that was chosen.
pub proof fn law_deleting_does_what_was_chosen(d: DeleteData)
    ensures
        d.carried_out() is Merge ==> d.merge_target is Some && d.choice == DeleteChoice::Merge,
        d.carried_out() is Trash && d.usage.total != 0 ==> d.choice == DeleteChoice::Trash,
{
}

/// The form takes what is entered: the name and the description are what stands in their
/// fields, the switch turns, and a pick in the open popup sets the category. Which type is being
/// changed never does.
pub proof fn law_form_takes_what_is_entered(form: TypeFormData, f: FormFrame)
    ensures
        form.after(f).name == f.name@,
        form.after(f).description == f.description@,
        f.toggle_active <==> form.after(f).is_active != form.is_active,
        form.picker_open && f.picked is Some ==> form.after(f).category_id == f.picked->0
            && !form.after(f).picker_open,
        !form.picker_open || f.picked is None ==> form.after(f).category_id == form.category_id,
        form.picker_open ==> form.after(f).category_filter == f.picker_filter@,
        form.picker_open && f.picked is None && !f.picker_closed ==> form.after(f).picker_open,
        f.picker_closed || !form.picker_open ==> !form.after(f).picker_open,
        form.after(f).target_id == form.target_id,
        form.after(f).new_category == form.new_category,
        form.after(f).usage == form.usage,
        form.after(f).delete == form.delete,
        form.after(f).error == form.error,
{
}

/// What is saved is what was entered: a new type or the one being changed, under the name and
/// with the description in the fields of this frame, in the category chosen in it or before;
/// a changed type also with the switch as it stands.
pub proof fn law_saved_type_is_what_was_entered(
    form: TypeFormData,
    f: FormFrame,
    all: Seq<TaskType>,
    r: FormRequest,
)
    requires
        is_form_request(r, form, f, all),
    ensures
        r matches FormRequest::Create { category_id, name, description } ==> {
            &&& form.target_id is None
            &&& name@ == f.name@
            &&& description@ == f.description@
            &&& form.picker_open && f.picked is Some ==> category_id == f.picked->0
            &&& !form.picker_open || f.picked is None ==> category_id == form.category_id
        },
        r matches FormRequest::Change(w) ==> {
            &&& form.target_id == Some(w.id)
            &&& w.name@ == f.name@
            &&& w.description@ == f.description@
            &&& form.picker_open && f.picked is Some ==> w.category_id == f.picked->0
            &&& !form.picker_open || f.picked is None ==> w.category_id == form.category_id
            &&& f.toggle_active <==> w.is_active != form.is_active
        },
        r matches FormRequest::LoadDelete { id, name } ==> form.target_id == Some(id) && name@
            == f.name@,
{
}

/// What a frame of the form asks for: "Delete type" comes first but needs a type that exists,
/// closing comes next unless the popup is open, and "Save" or Enter saves under a name that can
/// be saved; Enter does not while the field for a new category is open.
pub proof fn law_form_asks_for_what_was_clicked(
    form: TypeFormData,
    f: FormFrame,
    all: Seq<TaskType>,
    r: FormRequest,
)
    requires
        is_form_request(r, form, f, all),
    ensures
        r is LoadDelete <==> f.delete && form.target_id is Some,
        r is Close <==> f.cancel && !form.picker_open && !(f.delete && form.target_id is Some),
        r is Create ==> f.save || f.enter,
        r is Change ==> f.save || f.enter,
        (r is Create || r is Change) && form.new_category is Some ==> f.save,
        !(f.delete && form.target_id is Some) && (!f.cancel || form.picker_open)
            && text::trimmed(f.name@).len() > 0 && types::name_conflict(
            all,
            form.category_id,
            f.name@,
            form.target_id,
        ) is None && (f.save || (f.enter && form.new_category is None)) ==> (
        form.target_id is None ==> r is Create) && (form.target_id is Some ==> r is Change),
        text::trimmed(f.name@).len() == 0 ==> !(r is Create) && !(r is Change),
{
}

/// A new form is empty and active, for a type that does not exist yet.
pub proof fn law_new_form_is_blank(category_id: i64)
    ensures
        blank_form(category_id).target_id is None,
        blank_form(category_id).category_id == category_id,
        blank_form(category_id).name.len() == 0,
        blank_form(category_id).description.len() == 0,
        blank_form(category_id).is_active,
        !blank_form(category_id).picker_open,
        blank_form(category_id).new_category is None,
        blank_form(category_id).error is None,
        blank_form(category_id).delete is None,
{
}

/// The category row: a pill sets the category, "more" opens the popup with an empty filter,
/// "+ New" opens an empty field, what is typed there stays, and the cross closes it. Nothing in
/// that row touches the name, the description or the switch.
pub proof fn law_category_row_sets_the_category(form: TypeFormData, f: CategoryFrame)
    ensures
        f.pill matches Some(id) ==> form.after_categories(f).category_id == id,
        f.pill is None ==> form.after_categories(f).category_id == form.category_id,
        f.more ==> form.after_categories(f).picker_open && form.after_categories(
            f,
        ).category_filter.len() == 0,
        !f.more ==> form.after_categories(f).picker_open == form.picker_open
            && form.after_categories(f).category_filter == form.category_filter,
        form.new_category is None && f.new_pill ==> form.after_categories(f).new_category == Some(
            Seq::<char>::empty(),
        ),
        form.new_category is None && !f.new_pill ==> form.after_categories(f).new_category is None,
        form.new_category is Some && f.add ==> form.after_categories(f).new_category == Some(
            f.text@,
        ),
        form.new_category is Some && !f.discard ==> form.after_categories(f).new_category == Some(
            f.text@,
        ),
        form.new_category is Some && f.discard && !f.add ==> form.after_categories(
            f,
        ).new_category is None && form.after_categories(f).new_category_error is None,
        form.new_category is None && f.new_pill ==> form.after_categories(f).new_category_error is None,
        form.new_category is Some && (f.add || !f.discard) ==> form.after_categories(
            f,
        ).new_category_error == form.new_category_error,
        form.new_category is None && !f.new_pill ==> form.after_categories(f).new_category_error
            == form.new_category_error,
        form.after_categories(f).name == form.name,
        form.after_categories(f).description == form.description,
        form.after_categories(f).is_active == form.is_active,
        form.after_categories(f).target_id == form.target_id,
{
}

/// A category that was created is chosen, and the field for it closes; one that was refused
/// leaves the choice and the field as they are, and says why.
pub proof fn law_created_category_is_chosen(form: TypeFormData, id: i64, e: DbError)
    ensures
        form.after_new_category(Ok(id)).category_id == id,
        form.after_new_category(Ok(id)).new_category is None,
        form.after_new_category(Ok(id)).new_category_error is None,
        form.after_new_category(Ok(id)).name == form.name,
        form.after_new_category(Err(e)).category_id == form.category_id,
        form.after_new_category(Err(e)).new_category == form.new_category,
        e.kind != ErrorKind::Duplicate ==> form.after_new_category(Err(e)).new_category_error
            == Some(e.message@),
        e.kind == ErrorKind::Duplicate ==> form.after_new_category(Err(e)).new_category_error
            == Some("a category with that name already exists"@),
{
}

/// The delete dialog does to the type it was opened for what was chosen: a type that has
/// tallies is deactivated, merged into the chosen target or moved to the trash, one without
/// goes to the trash whatever stands in the dialog.
pub proof fn law_choice_is_carried_out(d: DeleteData)
    ensures
        d.usage.total == 0 ==> d.carried_out() == (DeleteRequest::Trash { id: d.type_id }),
        d.usage.total != 0 && d.choice == DeleteChoice::Deactivate ==> d.carried_out() == (
        DeleteRequest::Deactivate { id: d.type_id }),
        d.usage.total != 0 && d.choice == DeleteChoice::Trash ==> d.carried_out() == (
        DeleteRequest::Trash { id: d.type_id }),
        d.usage.total != 0 && d.choice == DeleteChoice::Merge ==> (d.merge_target matches Some(t)
            ==> d.carried_out() == (DeleteRequest::Merge { id: d.type_id, target: t })),
        d.can_confirm() <==> d.carried_out() != DeleteRequest::Nothing,
{
}

/// The delete dialog takes what is picked: the choice and, for a merge, the target. The type it
/// is about and what it offers never change.
pub proof fn law_dialog_takes_the_choice(d: DeleteData, f: DeleteFrame)
    ensures
        d.usage.total != 0 && f.choose is Some ==> d.after(f).choice == f.choose->0,
        f.choose is None ==> d.after(f).choice == d.choice,
        d.usage.total != 0 && d.after(f).choice == DeleteChoice::Merge && f.target is Some
            ==> d.after(f).merge_target == f.target,
        f.target is None || d.after(f).choice != DeleteChoice::Merge ==> d.after(f).merge_target
            == d.merge_target,
        d.after(f).type_id == d.type_id,
        d.after(f).name == d.name,
        d.after(f).usage == d.usage,
        d.after(f).others == d.others,
{
}

/// The tallies of a type can be moved to every other active type and to no other, least of all
/// to itself.
pub proof fn law_every_other_type_can_take_the_tallies(active: Seq<TaskType>, id: i64, i: int)
    requires
        0 <= i < active.len(),
    ensures
        active[i].id != id ==> other_types(active, id).contains(active[i]),
        forall|k: int| 0 <= k < other_types(active, id).len() ==> (#[trigger] other_types(
            active,
            id,
        )[k]).id != id,
        forall|k: int| 0 <= k < other_types(active, id).len() ==> active.contains(
            #[trigger] other_types(active, id)[k],
        ),
{
    broadcast use vstd::seq_lib::group_filter_ensures;

    let keep = |t: TaskType| t.id != id;
    assert forall|k: int| 0 <= k < other_types(active, id).len() implies active.contains(
        #[trigger] other_types(active, id)[k],
    ) by {
        catalog::lemma_kept_was_there(active, keep, k);
    }
}

/// The usage line says how many tallies a type has and, where it was used, when last.
pub proof fn law_usage_line_says_when(usage: TypeUsage)
    ensures
        usage.last_used is None ==> usage_text(usage) =~= text::decimal(usage.total as int)
            + " tallies"@,
        usage.last_used matches Some(d) ==> usage_text(usage) =~= text::decimal(usage.total as int)
            + " tallies"@ + " \u{b7} last used "@ + dates::day_month_text(d),
{
}

/// The merge picker shows a type with its id, its name and the name of its category.
pub proof fn law_merge_picker_shows_the_type(
    m: MergeTarget,
    t: TaskType,
    categories: Seq<Category>,
)
    requires
        is_merge_target(m, t, categories),
    ensures
        m.id == t.id,
        m.name@ == t.name@,
        catalog::category_index(categories, t.category_id) matches Some(i) ==> m.category@
            == categories[i].name@,
        catalog::category_index(categories, t.category_id) is None ==> m.category@.len() == 0,
{
}

} // verus!
