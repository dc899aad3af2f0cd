//! The dialog that backs the data up: what there is to lose, the names proposed for the files,
//! and the rows of the exported table.
use vstd::prelude::*;

use crate::catalog::{self, Category, TaskType, TypeLifetimeTotal};
use crate::dates::{self, DateTime};
use crate::error::DbError;
use crate::path::FilePath;
use crate::text;
use crate::ui::types_screen::{self, TypeRows};

verus! {

/// What the database holds.
#[derive(Clone, Copy, Debug, PartialEq, Eq, Structural)]
pub struct Counts {
    pub categories: usize,
    pub task_types: usize,
    /// Every tally ever made.
    pub tallies: i64,
}

/// What became of the last backup.
#[derive(Debug)]
pub enum Outcome {
    Wrote(FilePath),
    Failed(String),
}

/// The dialog's state.
#[derive(Debug)]
pub struct BackupState {
    pub visible: bool,
    pub counts: Option<Counts>,
    pub outcome: Option<Outcome>,
}

/// The sum of all lifetime totals.
pub open spec fn total_of(totals: Seq<TypeLifetimeTotal>) -> int
    decreases totals.len(),
{
    if totals.len() == 0 {
        0
    } else {
        total_of(totals.drop_last()) + totals.last().total
    }
}

/// The lifetime totals can be added up, one by one, without leaving the range of the numbers.
pub open spec fn total_fits(totals: Seq<TypeLifetimeTotal>) -> bool {
    forall|n: int|
        0 <= n <= totals.len() ==> i64::MIN <= #[trigger] total_of(totals.take(n)) <= i64::MAX
}

/// The sum of all lifetime totals, where it can be built.
pub fn sum_totals(totals: &Vec<TypeLifetimeTotal>) -> (r: Option<i64>)
    ensures
        r is Some <==> total_fits(totals@),
        r matches Some(n) ==> n == total_of(totals@),
{
    let mut sum: i64 = 0;
    for i in 0..totals.len()
        invariant
            sum == total_of(totals@.take(i as int)),
            forall|n: int|
                0 <= n <= i ==> i64::MIN <= #[trigger] total_of(totals@.take(n)) <= i64::MAX,
    {
        assert(totals@.take(i + 1).drop_last() =~= totals@.take(i as int));
        match sum.checked_add(totals[i].total) {
            Some(s) => {
                sum = s;
            },
            None => {
                assert(!(i64::MIN <= total_of(totals@.take(i + 1)) <= i64::MAX));
                return None;
            },
        }
    }
    assert(totals@.take(totals@.len() as int) =~= totals@);
    Some(sum)
}

impl BackupState {
    /// A closed dialog.
    pub fn new() -> (r: BackupState)
        ensures
            r == (BackupState { visible: false, counts: None, outcome: None }),
    {
        BackupState { visible: false, counts: None, outcome: None }
    }

    /// Opens the dialog over what the database holds now. Where it could not be asked, the
    /// numbers are left off: the backups work without them.
    pub fn open(&mut self, rows: Result<TypeRows, DbError>)
        requires
            rows matches Ok(t) ==> total_fits(t.totals@),
        ensures
            *final(self) == (BackupState {
                visible: true,
                counts: match rows {
                    Ok(t) => Some(
                        Counts {
                            categories: t.categories.len(),
                            task_types: t.types.len(),
                            tallies: total_of(t.totals@) as i64,
                        },
                    ),
                    Err(_) => None,
                },
                outcome: None,
            }),
    {
        self.counts = match rows {
            Ok(t) => match sum_totals(&t.totals) {
                Some(tallies) => Some(
                    Counts { categories: t.categories.len(), task_types: t.types.len(), tallies },
                ),
                None => None,
            },
            Err(_) => None,
        };
        self.outcome = None;
        self.visible = true;
    }

    /// Shows what became of a backup: the file that was written, or the failure.
    pub fn finished(&mut self, done: Result<FilePath, String>)
        ensures
            *final(self) == (BackupState {
                outcome: Some(
                    match done {
                        Ok(path) => Outcome::Wrote(path),
                        Err(e) => Outcome::Failed(e),
                    },
                ),
                ..*old(self)
            }),
    {
        self.outcome = Some(
            match done {
                Ok(path) => Outcome::Wrote(path),
                Err(e) => Outcome::Failed(e),
            },
        );
    }

    /// Closes the dialog.
    pub fn close(&mut self)
        ensures
            *final(self) == (BackupState { visible: false, ..*old(self) }),
    {
        self.visible = false;
    }
}

/// The name proposed for the table of task types.
pub open spec fn types_file_text(now: DateTime) -> Seq<char> {
    "simpletally-task-types-"@ + dates::day_stamp(now.date) + ".csv"@
}

/// The name proposed for a backup of everything.
pub open spec fn backup_file_text(now: DateTime) -> Seq<char> {
    "task_tally_backup_"@ + dates::time_stamp(now) + ".tally"@
}

/// The name proposed for the table of task types: `simpletally-task-types-20260825.csv`.
pub fn task_types_filename(now: DateTime) -> (r: String)
    requires
        now.valid(),
    ensures
        r@ == types_file_text(now),
        r@ == "simpletally-task-types-"@ + dates::day_stamp(now.date) + ".csv"@,
{
    let mut s = String::new();
    text::push_text(&mut s, "simpletally-task-types-");
    text::push_text(&mut s, dates::format_day_stamp(now.date).as_str());
    text::push_text(&mut s, ".csv");
    assert(s@ =~= "simpletally-task-types-"@ + dates::day_stamp(now.date) + ".csv"@);
    s
}

/// The name proposed for a backup of everything: `task_tally_backup_20260825_140509.tally`.
pub fn full_backup_filename(now: DateTime) -> (r: String)
    requires
        now.valid(),
    ensures
        r@ == backup_file_text(now),
        r@ == "task_tally_backup_"@ + dates::time_stamp(now) + ".tally"@,
{
    let mut s = String::new();
    text::push_text(&mut s, "task_tally_backup_");
    text::push_text(&mut s, dates::format_time_stamp(now).as_str());
    text::push_text(&mut s, ".tally");
    assert(s@ =~= "task_tally_backup_"@ + dates::time_stamp(now) + ".tally"@);
    s
}

/// A row of the table of task types.
#[derive(Debug)]
pub struct TaskTypeExportRow {
    pub category: String,
    pub name: String,
    pub description: String,
    pub usage_count: i64,
    pub is_active: bool,
}

impl TaskTypeExportRow {
    /// The row of type `t`.
    pub open spec fn is_of(
        self,
        t: TaskType,
        categories: Seq<Category>,
        totals: Seq<TypeLifetimeTotal>,
    ) -> bool {
        &&& self.category@ == catalog::category_name(categories, t.category_id)
        &&& self.name@ == t.name@
        &&& self.description@ == t.description@
        &&& self.usage_count == catalog::count_in(types_screen::lifetime_map(totals), t.id)
        &&& self.is_active == t.is_active
    }
}

/// The rows of the table of task types: every type, active or not, in the order of the database.
pub fn task_type_export_rows(rows: &TypeRows) -> (r: Vec<TaskTypeExportRow>)
    ensures
        r@.len() == rows.types@.len(),
        forall|i: int|
            0 <= i < r@.len() ==> (#[trigger] r@[i]).is_of(
                rows.types@[i],
                rows.categories@,
                rows.totals@,
            ),
{
    let lifetime = types_screen::lifetime_counts(&rows.totals);
    let mut r: Vec<TaskTypeExportRow> = Vec::new();
    for i in 0..rows.types.len()
        invariant
            lifetime@ == types_screen::lifetime_map(rows.totals@),
            r@.len() == i,
            forall|k: int|
                0 <= k < i ==> (#[trigger] r@[k]).is_of(
                    rows.types@[k],
                    rows.categories@,
                    rows.totals@,
                ),
    {
        let t = &rows.types[i];
        r.push(
            TaskTypeExportRow {
                category: catalog::name_of_category(&rows.categories, t.category_id),
                name: t.name.clone(),
                description: t.description.clone(),
                usage_count: catalog::count_of(&lifetime, t.id),
                is_active: t.is_active,
            },
        );
    }
    r
}

/// Every row adds its total to the sum.
pub proof fn law_every_total_is_added(totals: Seq<TypeLifetimeTotal>, r: TypeLifetimeTotal)
    ensures
        total_of(Seq::empty()) == 0,
        total_of(totals.push(r)) == total_of(totals) + r.total,
{
    assert(totals.push(r).drop_last() =~= totals);
}

/// A row of the table carries its type's name, description and active state, the name of its
/// category, and how often it was ever tallied.
pub proof fn law_exported_row_is_its_type(
    row: TaskTypeExportRow,
    t: TaskType,
    categories: Seq<Category>,
    totals: Seq<TypeLifetimeTotal>,
)
    requires
        row.is_of(t, categories, totals),
    ensures
        row.name@ == t.name@,
        row.description@ == t.description@,
        row.is_active == t.is_active,
        catalog::category_index(categories, t.category_id) matches Some(i) ==> row.category@
            == categories[i].name@,
        catalog::category_index(categories, t.category_id) is None ==> row.category@.len() == 0,
        row.usage_count == catalog::count_in(types_screen::lifetime_map(totals), t.id),
{
}

/// The proposed names carry the day, and that of a backup the time as well.
pub proof fn law_file_names_carry_the_time(now: DateTime)
    ensures
        types_file_text(now) == "simpletally-task-types-"@ + dates::day_stamp(now.date) + ".csv"@,
        backup_file_text(now) == "task_tally_backup_"@ + dates::time_stamp(now) + ".tally"@,
{
}

/// The totals fit where every sum on the way to the whole is a 64-bit number.
pub proof fn law_totals_fit_row_by_row(rows: Seq<TypeLifetimeTotal>, r: TypeLifetimeTotal)
    ensures
        total_fits(Seq::empty()),
        total_fits(rows.push(r)) <==> total_fits(rows) && -9223372036854775808 <= total_of(
            rows.push(r),
        ) <= 9223372036854775807,
{
    let all = rows.push(r);
    let whole = total_of(all.take(all.len() as int));
    assert(all.take(all.len() as int) =~= all);
    assert forall|n: int| 0 <= n <= rows.len() implies #[trigger] rows.take(n) == all.take(n) by {
        assert(rows.take(n) =~= all.take(n));
    }
    if total_fits(all) {
        assert forall|n: int| 0 <= n <= rows.len() implies i64::MIN <= #[trigger] total_of(
            rows.take(n),
        ) <= i64::MAX by {
            assert(rows.take(n) == all.take(n));
            let same = total_of(all.take(n));
        }
    }
    if total_fits(rows) && i64::MIN <= whole <= i64::MAX {
        assert forall|n: int| 0 <= n <= all.len() implies i64::MIN <= #[trigger] total_of(
            all.take(n),
        ) <= i64::MAX by {
            if n <= rows.len() {
                assert(rows.take(n) == all.take(n));
                let same = total_of(rows.take(n));
            }
        }
    }
    assert(total_fits(Seq::<TypeLifetimeTotal>::empty())) by {
        assert forall|n: int| 0 <= n <= 0 implies i64::MIN <= #[trigger] total_of(
            Seq::<TypeLifetimeTotal>::empty().take(n),
        ) <= i64::MAX by {
            assert(Seq::<TypeLifetimeTotal>::empty().take(n) =~= Seq::<TypeLifetimeTotal>::empty());
        }
    }
}

} // verus!
