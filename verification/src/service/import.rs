//! Import of task types that were read from a file.
//!
//! The parser has already dropped duplicates within the file. Matching the rows against what
//! the database holds, and creating categories on demand, happens here, one database request
//! at a time: [`Import::request`] says what to ask the database for, [`Import::accept`] takes
//! its reply.
use vstd::prelude::*;

use crate::error::{DbError, ErrorKind};
use crate::text;

verus! {

/// One row of the file.
#[derive(Debug)]
pub struct TaskTypeImportRow {
    pub category: String,
    pub name: String,
    pub description: String,
    pub is_active: bool,
}

/// What the parser reports about the file.
#[derive(Debug)]
pub struct ImportReport {
    pub skipped_duplicate: usize,
    pub skipped_malformed: usize,
    pub encoding: String,
}

/// The report shown to the user: the parser's numbers and what happened in the database.
#[derive(Debug)]
pub struct CombinedReport {
    pub imported: usize,
    /// Rows that were fine but already existed, counted as skipped, not as a failure.
    pub skipped_existing: usize,
    /// Duplicates the parser found within the file.
    pub skipped_in_file: usize,
    pub skipped_malformed: usize,
    pub categories_created: usize,
    /// `"utf-8"` or `"windows-1252"`.
    pub encoding: String,
}

/// A category that a row can go into.
#[derive(Debug)]
pub struct KnownCategory {
    pub id: i64,
    pub name: String,
}

/// What the database is asked for.
#[derive(Debug)]
pub enum Request {
    ListCategories,
    CreateCategory { name: String },
    CreateType { category_id: i64, name: String, description: String },
    /// Make the type that was just created inactive.
    Deactivate { id: i64, category_id: i64, name: String, description: String },
    /// Nothing more: the import is over.
    Stop,
}

/// What the database answers.
#[derive(Debug)]
pub enum Reply {
    Categories(Vec<KnownCategory>),
    Created(i64),
    Done,
    Failed(DbError),
}

/// What the import waits for.
#[derive(Debug)]
pub enum Phase {
    Listing,
    CreatingCategory,
    CreatingType { category_id: i64 },
    Deactivating { id: i64, category_id: i64 },
    /// Every row has been dealt with.
    Complete,
    /// The database failed; rows already written stay written.
    Aborted(DbError),
}

/// An import under way.
#[derive(Debug)]
pub struct Import {
    pub rows: Vec<TaskTypeImportRow>,
    /// The row that is being dealt with.
    pub at: usize,
    pub categories: Vec<KnownCategory>,
    pub imported: usize,
    pub skipped_existing: usize,
    pub categories_created: usize,
    pub phase: Phase,
}

/// An import as its contracts speak of it.
#[verifier::ext_equal]
pub struct ImportState {
    pub rows: Seq<TaskTypeImportRow>,
    pub at: int,
    pub categories: Seq<KnownCategory>,
    pub imported: int,
    pub skipped_existing: int,
    pub categories_created: int,
    pub phase: Phase,
}

impl View for Import {
    type V = ImportState;

    open spec fn view(&self) -> ImportState {
        ImportState {
            rows: self.rows@,
            at: self.at as int,
            categories: self.categories@,
            imported: self.imported as int,
            skipped_existing: self.skipped_existing as int,
            categories_created: self.categories_created as int,
            phase: self.phase,
        }
    }
}

/// The first category whose name is `name` but for case.
pub open spec fn category_named(categories: Seq<KnownCategory>, name: Seq<char>) -> Option<i64>
    decreases categories.len(),
{
    if categories.len() == 0 {
        None
    } else if text::same_name(categories[0].name@, name) {
        Some(categories[0].id)
    } else {
        category_named(categories.drop_first(), name)
    }
}

fn find_category(categories: &Vec<KnownCategory>, name: &str) -> (r: Option<i64>)
    ensures
        r == category_named(categories@, name@),
{
    assert(categories@.skip(0) =~= categories@);
    for i in 0..categories.len()
        invariant
            category_named(categories@, name@) == category_named(categories@.skip(i as int), name@),
    {
        if text::is_same_name(categories[i].name.as_str(), name) {
            return Some(categories[i].id);
        }
        assert(categories@.skip(i as int).drop_first() =~= categories@.skip(i + 1));
    }
    None
}

impl ImportState {
    /// The numbers add up: every row before the current one was imported or skipped.
    pub open spec fn well_formed(self) -> bool {
        &&& 0 <= self.at <= self.rows.len()
        &&& 0 <= self.imported
        &&& 0 <= self.skipped_existing
        &&& 0 <= self.categories_created <= self.at + 1
        &&& match self.phase {
            Phase::Listing => self.at == 0 && self.imported == 0 && self.skipped_existing == 0
                && self.categories_created == 0,
            Phase::CreatingCategory => self.at < self.rows.len() && self.categories_created
                <= self.at && self.imported + self.skipped_existing == self.at && category_named(
                self.categories,
                self.rows[self.at].category@,
            ) is None,
            Phase::CreatingType { category_id } => self.at < self.rows.len() && self.imported
                + self.skipped_existing == self.at && category_named(
                self.categories,
                self.rows[self.at].category@,
            ) == Some(category_id),
            Phase::Deactivating { id, category_id } => self.at < self.rows.len()
                && self.imported + self.skipped_existing == self.at + 1
                && !self.rows[self.at].is_active,
            Phase::Complete => self.at == self.rows.len() && self.imported + self.skipped_existing
                == self.at && self.categories_created <= self.at,
            Phase::Aborted(_) => self.imported + self.skipped_existing <= self.at + 1,
        }
    }

    /// The import once it turns to row `at`.
    pub open spec fn turned_to(self, at: int) -> ImportState {
        ImportState {
            at,
            phase: if at >= self.rows.len() {
                Phase::Complete
            } else {
                match category_named(self.categories, self.rows[at].category@) {
                    Some(category_id) => Phase::CreatingType { category_id },
                    None => Phase::CreatingCategory,
                }
            },
            ..self
        }
    }

    /// The import after the database has given `reply`.
    pub open spec fn after(self, reply: Reply) -> ImportState {
        match (self.phase, reply) {
            (Phase::Listing, Reply::Categories(list)) => (ImportState {
                categories: list@,
                ..self
            }).turned_to(0),
            (Phase::CreatingCategory, Reply::Created(id)) => (ImportState {
                categories: self.categories.push(
                    KnownCategory { id, name: self.rows[self.at].category },
                ),
                categories_created: self.categories_created + 1,
                phase: Phase::CreatingType { category_id: id },
                ..self
            }),
            (Phase::CreatingType { category_id }, Reply::Created(id)) => {
                let counted = ImportState { imported: self.imported + 1, ..self };
                if self.rows[self.at].is_active {
                    counted.turned_to(self.at + 1)
                } else {
                    ImportState { phase: Phase::Deactivating { id, category_id }, ..counted }
                }
            },
            (Phase::Deactivating { id, category_id }, Reply::Done) => self.turned_to(self.at + 1),
            (Phase::CreatingType { category_id }, Reply::Failed(e)) => if e.kind
                == ErrorKind::Duplicate {
                (ImportState { skipped_existing: self.skipped_existing + 1, ..self }).turned_to(
                    self.at + 1,
                )
            } else {
                ImportState { phase: Phase::Aborted(e), ..self }
            },
            (_, Reply::Failed(e)) => ImportState { phase: Phase::Aborted(e), ..self },
            _ => self,
        }
    }

    /// What the import asks the database for.
    pub open spec fn requested(self) -> Request {
        match self.phase {
            Phase::Listing => Request::ListCategories,
            Phase::CreatingCategory => Request::CreateCategory { name: self.rows[self.at].category },
            Phase::CreatingType { category_id } => Request::CreateType {
                category_id,
                name: self.rows[self.at].name,
                description: self.rows[self.at].description,
            },
            Phase::Deactivating { id, category_id } => Request::Deactivate {
                id,
                category_id,
                name: self.rows[self.at].name,
                description: self.rows[self.at].description,
            },
            Phase::Complete | Phase::Aborted(_) => Request::Stop,
        }
    }
}

/// Whether `reply` answers `request`.
pub open spec fn answers(request: Request, reply: Reply) -> bool {
    match request {
        Request::ListCategories => reply is Categories || reply is Failed,
        Request::CreateCategory { name } => reply is Created || reply is Failed,
        Request::CreateType { category_id, name, description } => reply is Created
            || reply is Failed,
        Request::Deactivate { id, category_id, name, description } => reply is Done
            || reply is Failed,
        Request::Stop => false,
    }
}

proof fn lemma_pushed_category_is_found(
    categories: Seq<KnownCategory>,
    c: KnownCategory,
    name: Seq<char>,
)
    requires
        category_named(categories, name) is None,
        text::same_name(c.name@, name),
    ensures
        category_named(categories.push(c), name) == Some(c.id),
    decreases categories.len(),
{
    if categories.len() > 0 {
        lemma_pushed_category_is_found(categories.drop_first(), c, name);
        assert(categories.push(c).drop_first() =~= categories.drop_first().push(c));
    }
}

/// The import of `rows`, with nothing done yet.
pub fn import_rows(rows: Vec<TaskTypeImportRow>) -> (r: Import)
    ensures
        r@.well_formed(),
        r@ == (ImportState {
            rows: rows@,
            at: 0,
            categories: Seq::empty(),
            imported: 0,
            skipped_existing: 0,
            categories_created: 0,
            phase: Phase::Listing,
        }),
{
    Import {
        rows,
        at: 0,
        categories: Vec::new(),
        imported: 0,
        skipped_existing: 0,
        categories_created: 0,
        phase: Phase::Listing,
    }
}

impl Import {
    /// What the import asks the database for.
    pub fn request(&self) -> (r: Request)
        requires
            self@.well_formed(),
        ensures
            r == self@.requested(),
    {
        match &self.phase {
            Phase::Listing => Request::ListCategories,
            Phase::CreatingCategory => Request::CreateCategory {
                name: self.rows[self.at].category.clone(),
            },
            Phase::CreatingType { category_id } => Request::CreateType {
                category_id: *category_id,
                name: self.rows[self.at].name.clone(),
                description: self.rows[self.at].description.clone(),
            },
            Phase::Deactivating { id, category_id } => Request::Deactivate {
                id: *id,
                category_id: *category_id,
                name: self.rows[self.at].name.clone(),
                description: self.rows[self.at].description.clone(),
            },
            Phase::Complete | Phase::Aborted(_) => Request::Stop,
        }
    }

    fn turn_to(&mut self, at: usize)
        requires
            at <= old(self).rows@.len(),
        ensures
            final(self)@ == old(self)@.turned_to(at as int),
    {
        self.at = at;
        if at >= self.rows.len() {
            self.phase = Phase::Complete;
        } else {
            let found = find_category(&self.categories, self.rows[at].category.as_str());
            self.phase = match found {
                Some(category_id) => Phase::CreatingType { category_id },
                None => Phase::CreatingCategory,
            };
        }
    }

    /// Takes the database's reply to [`Import::request`].
    pub fn accept(&mut self, reply: Reply)
        requires
            old(self)@.well_formed(),
            answers(old(self)@.requested(), reply),
        ensures
            final(self)@ == old(self)@.after(reply),
            final(self)@.well_formed(),
    {
        let at: usize = self.at;
        let n: usize = self.rows.len();
        match reply {
            Reply::Categories(list) => {
                self.categories = list;
                self.turn_to(0);
            },
            Reply::Created(id) => {
                if let Phase::CreatingType { category_id } = self.phase {
                    self.imported = self.imported + 1;
                    if self.rows[at].is_active {
                        self.turn_to(at + 1);
                    } else {
                        self.phase = Phase::Deactivating { id, category_id };
                    }
                } else {
                    let name = self.rows[at].category.clone();
                    proof {
                        lemma_pushed_category_is_found(
                            self.categories@,
                            KnownCategory { id, name },
                            name@,
                        );
                    }
                    self.categories.push(KnownCategory { id, name });
                    self.categories_created = self.categories_created + 1;
                    self.phase = Phase::CreatingType { category_id: id };
                }
            },
            Reply::Done => {
                self.turn_to(at + 1);
            },
            Reply::Failed(e) => {
                if matches!(self.phase, Phase::CreatingType { .. }) && e.kind
                    == ErrorKind::Duplicate {
                    self.skipped_existing = self.skipped_existing + 1;
                    self.turn_to(at + 1);
                } else {
                    self.phase = Phase::Aborted(e);
                }
            },
        }
    }

    /// The outcome of an import that is over: the combined report, or the failure that ended it.
    pub fn report(self, core_report: &ImportReport) -> (r: Result<CombinedReport, DbError>)
        requires
            self@.well_formed(),
            self@.requested() == Request::Stop,
        ensures
            match (self.phase, r) {
                (Phase::Aborted(e), Err(f)) => f == e,
                (Phase::Complete, Ok(c)) => c == (CombinedReport {
                    imported: self.imported,
                    skipped_existing: self.skipped_existing,
                    skipped_in_file: core_report.skipped_duplicate,
                    skipped_malformed: core_report.skipped_malformed,
                    categories_created: self.categories_created,
                    encoding: core_report.encoding,
                }) && c.imported + c.skipped_existing == self.rows@.len(),
                _ => false,
            },
    {
        match self.phase {
            Phase::Aborted(e) => Err(e),
            _ => Ok(
                CombinedReport {
                    imported: self.imported,
                    skipped_existing: self.skipped_existing,
                    skipped_in_file: core_report.skipped_duplicate,
                    skipped_malformed: core_report.skipped_malformed,
                    categories_created: self.categories_created,
                    encoding: core_report.encoding.clone(),
                },
            ),
        }
    }
}

/// A category is asked for only where none has its name yet, and once the database has created
/// it, a later row whose category has the same name but for case finds it: no import creates a
/// category twice.
pub proof fn law_category_is_created_once(s: ImportState, id: i64, name: Seq<char>)
    requires
        s.well_formed(),
        s.phase == Phase::CreatingCategory,
        text::same_name(s.rows[s.at].category@, name),
    ensures
        category_named(s.categories, s.rows[s.at].category@) is None,
        category_named(s.after(Reply::Created(id)).categories, name) == Some(id),
{
    lemma_same_name_is_not_found_either(s.categories, s.rows[s.at].category@, name);
    lemma_pushed_category_is_found(
        s.categories,
        KnownCategory { id, name: s.rows[s.at].category },
        name,
    );
}

proof fn lemma_same_name_is_not_found_either(
    categories: Seq<KnownCategory>,
    a: Seq<char>,
    b: Seq<char>,
)
    requires
        category_named(categories, a) is None,
        text::same_name(a, b),
    ensures
        category_named(categories, b) is None,
    decreases categories.len(),
{
    if categories.len() > 0 {
        lemma_same_name_is_not_found_either(categories.drop_first(), a, b);
    }
}

// --- importing twice ---

/// A type as the database holds it.
#[verifier::ext_equal]
pub struct StoredType {
    pub id: i64,
    pub category_id: i64,
    pub name: Seq<char>,
    pub description: Seq<char>,
    pub is_active: bool,
}

/// The catalogue that the database holds: the categories in the order in which they are listed,
/// and the types.
#[verifier::ext_equal]
pub struct Catalogue {
    pub categories: Seq<KnownCategory>,
    pub types: Seq<StoredType>,
}

impl Catalogue {
    /// Whether the category holds a type with this name, where `same` says which names the
    /// database takes for one.
    pub open spec fn holds(
        self,
        category_id: i64,
        name: Seq<char>,
        same: spec_fn(Seq<char>, Seq<char>) -> bool,
    ) -> bool {
        exists|i: int|
            0 <= i < self.types.len() && (#[trigger] self.types[i]).category_id == category_id
                && same(self.types[i].name, text::trimmed(name))
    }

    /// Whether a type has this id.
    pub open spec fn knows(self, id: i64) -> bool {
        exists|i: int| 0 <= i < self.types.len() && (#[trigger] self.types[i]).id == id
    }

    /// The catalogue with the type of this id replaced.
    pub open spec fn with_type(self, t: StoredType) -> Catalogue {
        Catalogue {
            types: Seq::new(
                self.types.len(),
                |i: int|
                    if self.types[i].id == t.id {
                        t
                    } else {
                        self.types[i]
                    },
            ),
            ..self
        }
    }

    /// Whether the type of this row is there, in the category that the row names.
    pub open spec fn holds_row(
        self,
        row: TaskTypeImportRow,
        same: spec_fn(Seq<char>, Seq<char>) -> bool,
    ) -> bool {
        category_named(self.categories, row.category@) matches Some(id) && self.holds(
            id,
            row.name@,
            same,
        )
    }
}

/// Whether the database, holding `before`, may answer `request` with `reply` and hold `after`
/// then. Names are stored trimmed; a new category is listed last; a new type gets an id of its
/// own, what was asked for, and is active; a type is refused as a duplicate exactly where its
/// category holds one with its name; a type that is changed gets what was asked for and is
/// inactive; a failure changes nothing.
pub open spec fn database_answers(
    before: Catalogue,
    request: Request,
    reply: Reply,
    after: Catalogue,
    same: spec_fn(Seq<char>, Seq<char>) -> bool,
) -> bool {
    answers(request, reply) && match (request, reply) {
        (Request::ListCategories, Reply::Categories(list)) => list@ == before.categories && after
            == before,
        (Request::CreateCategory { name }, Reply::Created(id)) => {
            &&& after.types == before.types
            &&& after.categories.len() == before.categories.len() + 1
            &&& after.categories.drop_last() == before.categories
            &&& after.categories.last().id == id
            &&& after.categories.last().name@ == text::trimmed(name@)
        },
        (Request::CreateType { category_id, name, description }, Reply::Created(id)) => {
            &&& !before.holds(category_id, name@, same)
            &&& !before.knows(id)
            &&& after == (Catalogue {
                types: before.types.push(
                    StoredType {
                        id,
                        category_id,
                        name: text::trimmed(name@),
                        description: description@,
                        is_active: true,
                    },
                ),
                ..before
            })
        },
        (Request::CreateType { category_id, name, description }, Reply::Failed(e)) => {
            &&& e.kind == ErrorKind::Duplicate ==> before.holds(category_id, name@, same)
            &&& after == before
        },
        (Request::Deactivate { id, category_id, name, description }, Reply::Done) => after
            == before.with_type(
            StoredType {
                id,
                category_id,
                name: text::trimmed(name@),
                description: description@,
                is_active: false,
            },
        ),
        _ => after == before,
    }
}

/// An import of `rows` that begins while the database holds `dbs[0]`: what it has done and what
/// the database holds after every reply.
pub open spec fn import_run(
    states: Seq<ImportState>,
    dbs: Seq<Catalogue>,
    replies: Seq<Reply>,
    rows: Seq<TaskTypeImportRow>,
    same: spec_fn(Seq<char>, Seq<char>) -> bool,
) -> bool {
    &&& states.len() == replies.len() + 1
    &&& dbs.len() == states.len()
    &&& states[0].rows == rows
    &&& states[0].phase == Phase::Listing
    &&& states[0].well_formed()
    &&& forall|i: int|
        0 <= i < replies.len() ==> database_answers(
            dbs[i],
            states[i].requested(),
            #[trigger] replies[i],
            dbs[i + 1],
            same,
        ) && states[i + 1] == states[i].after(replies[i])
}

/// Whether two lists of categories have the same ids and names in the same order.
pub open spec fn same_list(a: Seq<KnownCategory>, b: Seq<KnownCategory>) -> bool {
    &&& a.len() == b.len()
    &&& forall|i: int|
        0 <= i < a.len() ==> (#[trigger] a[i]).id == (#[trigger] b[i]).id && a[i].name@ == b[i].name@
}

proof fn lemma_same_list_finds_the_same(
    a: Seq<KnownCategory>,
    b: Seq<KnownCategory>,
    name: Seq<char>,
)
    requires
        same_list(a, b),
    ensures
        category_named(a, name) == category_named(b, name),
    decreases a.len(),
{
    if a.len() > 0 {
        assert(a[0].name@ == b[0].name@);
        assert(same_list(a.drop_first(), b.drop_first())) by {
            assert forall|i: int| 0 <= i < a.len() - 1 implies (#[trigger] a.drop_first()[i]).id == (
            #[trigger] b.drop_first()[i]).id && a.drop_first()[i].name@
                == b.drop_first()[i].name@ by {
                assert(a[i + 1].id == b[i + 1].id);
            }
        }
        lemma_same_list_finds_the_same(a.drop_first(), b.drop_first(), name);
    }
}

proof fn lemma_listed_category_stays_found(
    categories: Seq<KnownCategory>,
    c: KnownCategory,
    name: Seq<char>,
)
    requires
        category_named(categories, name) is Some,
    ensures
        category_named(categories.push(c), name) == category_named(categories, name),
    decreases categories.len(),
{
    assert(categories.push(c).drop_first() =~= categories.drop_first().push(c));
    if !text::same_name(categories[0].name@, name) {
        lemma_listed_category_stays_found(categories.drop_first(), c, name);
    }
}

proof fn lemma_import_stays_well_formed(s: ImportState, reply: Reply)
    requires
        s.well_formed(),
        answers(s.requested(), reply),
    ensures
        s.after(reply).well_formed(),
        s.after(reply).rows == s.rows,
{
    if s.phase == Phase::CreatingCategory {
        if let Reply::Created(id) = reply {
            let c = KnownCategory { id, name: s.rows[s.at].category };
            lemma_pushed_category_is_found(s.categories, c, c.name@);
        }
    }
}

/// Whether the rows that an import has dealt with are in the database.
pub open spec fn kept_up(
    s: ImportState,
    db: Catalogue,
    same: spec_fn(Seq<char>, Seq<char>) -> bool,
) -> bool {
    &&& s.well_formed()
    &&& s.phase is Aborted || {
        &&& !(s.phase is Listing) ==> same_list(s.categories, db.categories)
        &&& forall|j: int| 0 <= j < s.at ==> db.holds_row(#[trigger] s.rows[j], same)
        &&& s.phase matches Phase::Deactivating { id, category_id } ==> db.holds_row(
            s.rows[s.at],
            same,
        ) && is_stored(db, id, category_id, s.rows[s.at])
    }
}

/// Whether the types of this id are the one of this row, in this category.
pub open spec fn is_stored(
    db: Catalogue,
    id: i64,
    category_id: i64,
    row: TaskTypeImportRow,
) -> bool {
    forall|i: int|
        0 <= i < db.types.len() && (#[trigger] db.types[i]).id == id ==> db.types[i].category_id
            == category_id && db.types[i].name == text::trimmed(row.name@)
}

/// Whether `after` holds every type of `before`, under its name and in its category.
pub open spec fn types_stay(before: Seq<StoredType>, after: Seq<StoredType>) -> bool {
    &&& before.len() <= after.len()
    &&& forall|i: int|
        0 <= i < before.len() ==> (#[trigger] before[i]).category_id == after[i].category_id
            && before[i].name == after[i].name
}

proof fn lemma_types_stay(
    before: Catalogue,
    after: Catalogue,
    row: TaskTypeImportRow,
    same: spec_fn(Seq<char>, Seq<char>) -> bool,
)
    requires
        before.holds_row(row, same),
        category_named(after.categories, row.category@) == category_named(
            before.categories,
            row.category@,
        ),
        types_stay(before.types, after.types),
    ensures
        after.holds_row(row, same),
{
    let id = category_named(before.categories, row.category@)->0;
    let i = choose|i: int|
        0 <= i < before.types.len() && (#[trigger] before.types[i]).category_id == id && same(
            before.types[i].name,
            text::trimmed(row.name@),
        );
    assert(after.types[i].name == before.types[i].name);
}

proof fn lemma_import_keeps_up(
    s: ImportState,
    before: Catalogue,
    reply: Reply,
    after: Catalogue,
    same: spec_fn(Seq<char>, Seq<char>) -> bool,
)
    requires
        kept_up(s, before, same),
        database_answers(before, s.requested(), reply, after, same),
        forall|a: Seq<char>| #[trigger] same(a, a),
        forall|j: int|
            0 <= j < s.rows.len() ==> text::trimmed((#[trigger] s.rows[j]).category@)
                == s.rows[j].category@,
    ensures
        kept_up(s.after(reply), after, same),
{
    let t = s.after(reply);
    lemma_import_stays_well_formed(s, reply);
    if s.phase is Aborted || t.phase is Aborted {
        return;
    }
    let row = s.rows[s.at];
    match s.phase {
        Phase::CreatingCategory => {
            assert(after.categories =~= before.categories.push(after.categories.last()));
            assert forall|j: int| 0 <= j < s.at implies after.holds_row(
                #[trigger] s.rows[j],
                same,
            ) by {
                lemma_listed_category_stays_found(
                    before.categories,
                    after.categories.last(),
                    s.rows[j].category@,
                );
                lemma_types_stay(before, after, s.rows[j], same);
            }
        },
        Phase::CreatingType { category_id } => {
            lemma_same_list_finds_the_same(s.categories, before.categories, row.category@);
            assert(after.categories == before.categories);
            if reply is Created {
                let n = before.types.len() as int;
                let id = reply->Created_0;
                assert(after.types[n].name == text::trimmed(row.name@));
                assert(after.holds(category_id, row.name@, same));
                assert(is_stored(after, id, category_id, row)) by {
                    assert forall|i: int|
                        0 <= i < after.types.len() && (#[trigger] after.types[i]).id
                            == id implies after.types[i].category_id == category_id
                        && after.types[i].name == text::trimmed(row.name@) by {
                        if i < n {
                            assert(before.types[i].id == id);
                        }
                    }
                }
            }
            assert(after.holds_row(row, same));
            assert forall|j: int| 0 <= j < s.at implies after.holds_row(
                #[trigger] s.rows[j],
                same,
            ) by {
                lemma_types_stay(before, after, s.rows[j], same);
            }
        },
        Phase::Deactivating { id, category_id } => {
            assert forall|i: int| 0 <= i < before.types.len() implies (#[trigger] before.types[i]).category_id
                == after.types[i].category_id && before.types[i].name == after.types[i].name by {}
            assert forall|j: int| 0 <= j <= s.at implies after.holds_row(
                #[trigger] s.rows[j],
                same,
            ) by {
                lemma_types_stay(before, after, s.rows[j], same);
            }
        },
        _ => {},
    }
}

proof fn lemma_import_run_keeps_up(
    states: Seq<ImportState>,
    dbs: Seq<Catalogue>,
    replies: Seq<Reply>,
    rows: Seq<TaskTypeImportRow>,
    same: spec_fn(Seq<char>, Seq<char>) -> bool,
    k: int,
)
    requires
        import_run(states, dbs, replies, rows, same),
        forall|a: Seq<char>| #[trigger] same(a, a),
        forall|j: int|
            0 <= j < rows.len() ==> text::trimmed((#[trigger] rows[j]).category@)
                == rows[j].category@,
        0 <= k < states.len(),
    ensures
        states[k].rows == rows,
        kept_up(states[k], dbs[k], same),
    decreases k,
{
    if k > 0 {
        lemma_import_run_keeps_up(states, dbs, replies, rows, same, k - 1);
        lemma_import_stays_well_formed(states[k - 1], replies[k - 1]);
        lemma_import_keeps_up(states[k - 1], dbs[k - 1], replies[k - 1], dbs[k], same);
    }
}

/// Whether an import has found every row it has dealt with in the database.
pub open spec fn finds_everything(s: ImportState, db: Catalogue) -> bool {
    &&& s.well_formed()
    &&& s.imported == 0
    &&& s.categories_created == 0
    &&& !(s.phase is CreatingCategory)
    &&& !(s.phase is Deactivating)
    &&& s.phase is Listing || s.phase is Aborted || s.categories == db.categories
}

proof fn lemma_second_run_finds_everything(
    states: Seq<ImportState>,
    dbs: Seq<Catalogue>,
    replies: Seq<Reply>,
    rows: Seq<TaskTypeImportRow>,
    same: spec_fn(Seq<char>, Seq<char>) -> bool,
    k: int,
)
    requires
        import_run(states, dbs, replies, rows, same),
        forall|j: int| 0 <= j < rows.len() ==> dbs[0].holds_row(#[trigger] rows[j], same),
        0 <= k < states.len(),
    ensures
        states[k].rows == rows,
        dbs[k] == dbs[0],
        finds_everything(states[k], dbs[0]),
        states[k].phase matches Phase::Aborted(e) ==> k == replies.len() && replies[k - 1]
            == Reply::Failed(e) && (k == 1 || e.kind != ErrorKind::Duplicate),
        k > 0 ==> !(states[k].phase is Listing),
    decreases k,
{
    if k > 0 {
        lemma_second_run_finds_everything(states, dbs, replies, rows, same, k - 1);
        let s = states[k - 1];
        let t = states[k];
        assert(replies[k - 1] == replies[k - 1]);
        lemma_import_stays_well_formed(s, replies[k - 1]);
        if s.at < rows.len() {
            assert(dbs[0].holds_row(rows[s.at], same));
        }
        if t.at < rows.len() {
            assert(dbs[0].holds_row(rows[t.at], same));
        }
        if t.phase is Aborted && k < replies.len() {
            assert(database_answers(dbs[k], t.requested(), replies[k], dbs[k + 1], same));
        }
    }
}

/// Importing the same rows a second time changes nothing: after an import that came to its end,
/// and with the database unchanged since, every row is skipped as existing, no type and no
/// category is created, and the catalogue stays as it is. Only a failure of the database other
/// than the refusal of a duplicate ends the second import early. The categories of the rows are
/// trimmed, as the database stores them.
pub proof fn law_second_import_changes_nothing(
    first: Seq<ImportState>,
    first_dbs: Seq<Catalogue>,
    first_replies: Seq<Reply>,
    second: Seq<ImportState>,
    second_dbs: Seq<Catalogue>,
    second_replies: Seq<Reply>,
    rows: Seq<TaskTypeImportRow>,
    same: spec_fn(Seq<char>, Seq<char>) -> bool,
)
    requires
        forall|a: Seq<char>| #[trigger] same(a, a),
        forall|j: int|
            0 <= j < rows.len() ==> text::trimmed((#[trigger] rows[j]).category@)
                == rows[j].category@,
        import_run(first, first_dbs, first_replies, rows, same),
        first.last().phase is Complete,
        import_run(second, second_dbs, second_replies, rows, same),
        second_dbs[0] == first_dbs.last(),
    ensures
        forall|k: int|
            0 <= k < second.len() ==> (#[trigger] second[k]).imported == 0
                && second[k].categories_created == 0,
        forall|k: int| 0 <= k < second.len() ==> #[trigger] second_dbs[k] == second_dbs[0],
        second.last().phase is Complete ==> second.last().skipped_existing == rows.len(),
        second.last().phase matches Phase::Aborted(e) ==> second_replies.last() == Reply::Failed(e)
            && (second_replies.len() == 1 || e.kind != ErrorKind::Duplicate),
{
    let last = first.len() - 1;
    lemma_import_run_keeps_up(first, first_dbs, first_replies, rows, same, last);
    assert forall|k: int| 0 <= k < second.len() implies (#[trigger] second[k]).imported == 0
        && second[k].categories_created == 0 by {
        lemma_second_run_finds_everything(second, second_dbs, second_replies, rows, same, k);
    }
    assert forall|k: int| 0 <= k < second.len() implies #[trigger] second_dbs[k]
        == second_dbs[0] by {
        lemma_second_run_finds_everything(second, second_dbs, second_replies, rows, same, k);
    }
    lemma_second_run_finds_everything(
        second,
        second_dbs,
        second_replies,
        rows,
        same,
        second.len() - 1,
    );
}

/// Whether the database has gained as many types and categories as the import counts, behind
/// those that it held at first.
pub open spec fn counts_the_gain(s: ImportState, first: Catalogue, db: Catalogue) -> bool {
    &&& first.types.is_prefix_of(db.types)
    &&& first.categories.is_prefix_of(db.categories)
    &&& db.types.len() == first.types.len() + s.imported
    &&& db.categories.len() == first.categories.len() + s.categories_created
}

/// Whether the newest type of the database, and no other, has this id.
pub open spec fn is_newest(db: Catalogue, id: i64) -> bool {
    &&& db.types.len() > 0
    &&& db.types.last().id == id
    &&& forall|i: int| 0 <= i < db.types.len() - 1 ==> (#[trigger] db.types[i]).id != id
}

proof fn lemma_run_counts(
    states: Seq<ImportState>,
    dbs: Seq<Catalogue>,
    replies: Seq<Reply>,
    rows: Seq<TaskTypeImportRow>,
    same: spec_fn(Seq<char>, Seq<char>) -> bool,
    k: int,
)
    requires
        import_run(states, dbs, replies, rows, same),
        0 <= k < states.len(),
    ensures
        states[k].well_formed(),
        states[k].rows == rows,
        counts_the_gain(states[k], dbs[0], dbs[k]),
        states[k].phase matches Phase::Deactivating { id, category_id } ==> is_newest(dbs[k], id)
            && states[k].imported > 0,
    decreases k,
{
    if k > 0 {
        lemma_run_counts(states, dbs, replies, rows, same, k - 1);
        let r = replies[k - 1];
        lemma_import_stays_well_formed(states[k - 1], r);
        if states[k - 1].phase is CreatingCategory && r is Created {
            assert(dbs[k].categories =~= dbs[k - 1].categories.push(dbs[k].categories.last()));
        }
        if states[k - 1].phase is Deactivating && r is Done {
            let n = dbs[k - 1].types.len() - 1;
            assert forall|i: int| 0 <= i < n implies #[trigger] dbs[k].types[i]
                == dbs[k - 1].types[i] by {}
            assert(dbs[0].types =~= dbs[k].types.subrange(0, dbs[0].types.len() as int));
        }
        if states[k - 1].phase is CreatingType && r is Created {
            let id = r->Created_0;
            assert forall|i: int| 0 <= i < dbs[k].types.len() - 1 implies (
            #[trigger] dbs[k].types[i]).id != id by {
                assert(dbs[k].types[i] == dbs[k - 1].types[i]);
            }
            assert(dbs[0].types =~= dbs[k].types.subrange(0, dbs[0].types.len() as int));
        }
    }
}

/// The numbers an import reports are what the database has gained, at every point of a run and
/// so also in the report: as many types more as were imported and as many categories more as
/// were created, with what was there before unchanged. Every row that was dealt with was
/// imported or skipped.
pub proof fn law_report_counts_what_was_gained(
    states: Seq<ImportState>,
    dbs: Seq<Catalogue>,
    replies: Seq<Reply>,
    rows: Seq<TaskTypeImportRow>,
    same: spec_fn(Seq<char>, Seq<char>) -> bool,
    k: int,
)
    requires
        import_run(states, dbs, replies, rows, same),
        0 <= k < states.len(),
    ensures
        states[k].well_formed(),
        states[k].rows == rows,
        counts_the_gain(states[k], dbs[0], dbs[k]),
        states[k].phase is Complete ==> states[k].imported + states[k].skipped_existing
            == rows.len(),
{
    lemma_run_counts(states, dbs, replies, rows, same, k);
}

// --- what an import writes ---

/// Whether a type of the database is the one that a row describes: the name, the description
/// and the category are the row's.
pub open spec fn comes_from(t: StoredType, row: TaskTypeImportRow, db: Catalogue) -> bool {
    &&& t.name == text::trimmed(row.name@)
    &&& t.description == row.description@
    &&& category_named(db.categories, row.category@) == Some(t.category_id)
}

/// Whether the types that `db` has gained over `first` are those of the rows `of`, in the order
/// of the file, each active exactly where its row is; the newest may still have to be made
/// inactive.
pub open spec fn gained_from(
    s: ImportState,
    first: Catalogue,
    db: Catalogue,
    of: Seq<int>,
) -> bool {
    let n = first.types.len();
    let unfinished = s.phase is Deactivating || s.phase is Aborted;
    &&& of.len() == s.imported
    &&& db.types.len() == n + of.len()
    &&& forall|a: int| 0 <= a < of.len() ==> 0 <= #[trigger] of[a] < s.rows.len() && of[a] <= s.at
    &&& forall|a: int, b: int| 0 <= a < b < of.len() ==> #[trigger] of[a] < #[trigger] of[b]
    &&& forall|a: int|
        0 <= a < of.len() ==> {
            &&& comes_from(db.types[n + a], s.rows[#[trigger] of[a]], db)
            &&& db.types[n + a].is_active == s.rows[of[a]].is_active || (unfinished && a == of.len()
                - 1)
        }
    &&& s.phase is Listing || s.phase is CreatingCategory || s.phase is CreatingType ==> forall|
        a: int,
    | 0 <= a < of.len() ==> #[trigger] of[a] < s.at
    &&& s.phase is Deactivating ==> of.len() > 0 && of.last() == s.at
}

proof fn lemma_gained_step(
    s: ImportState,
    first: Catalogue,
    before: Catalogue,
    reply: Reply,
    after: Catalogue,
    same: spec_fn(Seq<char>, Seq<char>) -> bool,
    of: Seq<int>,
) -> (next: Seq<int>)
    requires
        kept_up(s, before, same),
        gained_from(s, first, before, of),
        counts_the_gain(s, first, before),
        s.phase matches Phase::Deactivating { id, category_id } ==> is_newest(before, id) && (
        category_named(before.categories, s.rows[s.at].category@) == Some(category_id)),
        !(s.phase is Aborted),
        database_answers(before, s.requested(), reply, after, same),
    ensures
        gained_from(s.after(reply), first, after, next),
{
    let t = s.after(reply);
    let n = first.types.len();
    lemma_import_stays_well_formed(s, reply);
    match s.phase {
        Phase::CreatingCategory => {
            if reply is Created {
                assert(after.categories =~= before.categories.push(after.categories.last()));
                assert forall|a: int| 0 <= a < of.len() implies comes_from(
                    after.types[n + a],
                    s.rows[#[trigger] of[a]],
                    after,
                ) by {
                    lemma_listed_category_stays_found(
                        before.categories,
                        after.categories.last(),
                        s.rows[of[a]].category@,
                    );
                }
            }
            of
        },
        Phase::CreatingType { category_id } => {
            lemma_same_list_finds_the_same(
                s.categories,
                before.categories,
                s.rows[s.at].category@,
            );
            if reply is Created {
                let next = of.push(s.at);
                assert forall|a: int| 0 <= a < next.len() implies comes_from(
                    after.types[n + a],
                    s.rows[#[trigger] next[a]],
                    after,
                ) && (after.types[n + a].is_active == s.rows[next[a]].is_active || (
                t.phase is Deactivating && a == next.len() - 1)) by {
                    if a < of.len() {
                        assert(next[a] == of[a]);
                        assert(after.types[n + a] == before.types[n + a]);
                    }
                }
                next
            } else {
                of
            }
        },
        Phase::Deactivating { id, category_id } => {
            if reply is Done {
                assert forall|a: int| 0 <= a < of.len() implies comes_from(
                    after.types[n + a],
                    s.rows[#[trigger] of[a]],
                    after,
                ) && after.types[n + a].is_active == s.rows[of[a]].is_active by {
                    if a < of.len() - 1 {
                        assert(before.types[n + a].id != id);
                        assert(after.types[n + a] == before.types[n + a]);
                    }
                }
            }
            of
        },
        _ => of,
    }
}

/// After an import has come to its end, every type that the database has gained is the one of a
/// row of the file: it has the row's name, description and category, and it is active exactly
/// where the row is. The types stand in the order of the rows, and no row gave two. The result
/// names the rows.
pub proof fn law_imported_types_are_those_of_the_file(
    states: Seq<ImportState>,
    dbs: Seq<Catalogue>,
    replies: Seq<Reply>,
    rows: Seq<TaskTypeImportRow>,
    same: spec_fn(Seq<char>, Seq<char>) -> bool,
) -> (of: Seq<int>)
    requires
        forall|a: Seq<char>| #[trigger] same(a, a),
        forall|j: int|
            0 <= j < rows.len() ==> text::trimmed((#[trigger] rows[j]).category@)
                == rows[j].category@,
        import_run(states, dbs, replies, rows, same),
        states.last().phase is Complete,
    ensures
        dbs.last().types.len() == dbs[0].types.len() + of.len(),
        dbs[0].types.is_prefix_of(dbs.last().types),
        forall|a: int| 0 <= a < of.len() ==> 0 <= #[trigger] of[a] < rows.len(),
        forall|a: int, b: int| 0 <= a < b < of.len() ==> #[trigger] of[a] < #[trigger] of[b],
        forall|a: int|
            0 <= a < of.len() ==> {
                let t = dbs.last().types[dbs[0].types.len() + a];
                let row = rows[#[trigger] of[a]];
                &&& t.name == text::trimmed(row.name@)
                &&& t.description == row.description@
                &&& t.is_active == row.is_active
                &&& category_named(dbs.last().categories, row.category@) == Some(t.category_id)
            },
{
    lemma_run_counts(states, dbs, replies, rows, same, states.len() - 1);
    lemma_import_run_keeps_up(states, dbs, replies, rows, same, states.len() - 1);
    lemma_gained_run(states, dbs, replies, rows, same, states.len() - 1)
}

proof fn lemma_gained_run(
    states: Seq<ImportState>,
    dbs: Seq<Catalogue>,
    replies: Seq<Reply>,
    rows: Seq<TaskTypeImportRow>,
    same: spec_fn(Seq<char>, Seq<char>) -> bool,
    k: int,
) -> (of: Seq<int>)
    requires
        forall|a: Seq<char>| #[trigger] same(a, a),
        forall|j: int|
            0 <= j < rows.len() ==> text::trimmed((#[trigger] rows[j]).category@)
                == rows[j].category@,
        import_run(states, dbs, replies, rows, same),
        0 <= k < states.len(),
    ensures
        gained_from(states[k], dbs[0], dbs[k], of),
        states[k].phase matches Phase::Deactivating { id, category_id } ==> category_named(
            dbs[k].categories,
            rows[states[k].at].category@,
        ) == Some(category_id),
    decreases k,
{
    if k == 0 {
        Seq::empty()
    } else {
        let of = lemma_gained_run(states, dbs, replies, rows, same, k - 1);
        let r = replies[k - 1];
        lemma_run_counts(states, dbs, replies, rows, same, k - 1);
        lemma_import_run_keeps_up(states, dbs, replies, rows, same, k - 1);
        let s = states[k - 1];
        assert(database_answers(dbs[k - 1], s.requested(), r, dbs[k], same));
        if s.phase is CreatingType {
            lemma_same_list_finds_the_same(
                s.categories,
                dbs[k - 1].categories,
                rows[s.at].category@,
            );
        }
        lemma_gained_step(s, dbs[0], dbs[k - 1], r, dbs[k], same, of)
    }
}

} // verus!
