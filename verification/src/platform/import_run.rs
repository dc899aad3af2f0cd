//! Replacing the live database by the one the user picked.
//!
//! The live file is swapped out on disk, which the system refuses while it is open here. So the
//! open database is given up first, and whatever becomes of the swap the file is opened again.
//! Each step says what to do, and takes how it went.
use vstd::prelude::*;

use crate::ui::migrate::Outcome;

verus! {

/// What has to be done next.
#[derive(Clone, Copy, Debug, PartialEq, Eq, Structural)]
pub enum ImportAction {
    /// Find out where the live database is.
    Locate,
    /// Put an empty database in memory in place of the open one, which is closed.
    Release,
    /// Swap the picked file in for the live one.
    Restore,
    /// Open the live database again.
    Reopen,
    /// Start every screen over, and count what there is now.
    Count,
    /// Show that the database cannot be opened again, and end the program.
    GiveUp,
    /// Nothing more: the import is over.
    Stop,
}

/// The outcome of an [`ImportAction`].
#[derive(Debug)]
pub enum ImportReply {
    Done,
    /// How many task types and tallies there are; `None` where it could not be found out.
    Counted { task_types: Option<usize>, total_tallies: Option<i64> },
    Failed(String),
}

/// Where an import stands.
#[derive(Debug)]
pub enum ImportStep {
    Locate,
    Release,
    Restore,
    /// The swap went like this.
    Reopen(Result<(), String>),
    Count,
    /// The database cannot be opened again.
    Lost(String),
    Over(Outcome),
}

/// Whether `reply` answers `action`.
pub open spec fn answers(action: ImportAction, reply: ImportReply) -> bool {
    match action {
        ImportAction::Count => reply is Counted,
        ImportAction::GiveUp => false,
        ImportAction::Stop => false,
        _ => reply is Done || reply is Failed,
    }
}

impl ImportStep {
    pub open spec fn requested(self) -> ImportAction {
        match self {
            ImportStep::Locate => ImportAction::Locate,
            ImportStep::Release => ImportAction::Release,
            ImportStep::Restore => ImportAction::Restore,
            ImportStep::Reopen(_) => ImportAction::Reopen,
            ImportStep::Count => ImportAction::Count,
            ImportStep::Lost(_) => ImportAction::GiveUp,
            ImportStep::Over(_) => ImportAction::Stop,
        }
    }

    pub open spec fn successor(self, reply: ImportReply) -> ImportStep {
        match (self, reply) {
            (ImportStep::Locate, ImportReply::Done) => ImportStep::Release,
            (ImportStep::Locate, ImportReply::Failed(e)) => ImportStep::Over(Outcome::Failed(e)),
            (ImportStep::Release, ImportReply::Done) => ImportStep::Restore,
            (ImportStep::Release, ImportReply::Failed(e)) => ImportStep::Over(Outcome::Failed(e)),
            (ImportStep::Restore, ImportReply::Done) => ImportStep::Reopen(Ok(())),
            (ImportStep::Restore, ImportReply::Failed(e)) => ImportStep::Reopen(Err(e)),
            (ImportStep::Reopen(_), ImportReply::Failed(e)) => ImportStep::Lost(e),
            (ImportStep::Reopen(Ok(_)), ImportReply::Done) => ImportStep::Count,
            (ImportStep::Reopen(Err(e)), ImportReply::Done) => ImportStep::Over(Outcome::Failed(e)),
            (
                ImportStep::Count,
                ImportReply::Counted { task_types, total_tallies },
            ) => ImportStep::Over(
                Outcome::Imported {
                    task_types: match task_types {
                        Some(n) => n,
                        None => 0,
                    },
                    total_tallies: match total_tallies {
                        Some(n) => n,
                        None => 0,
                    },
                },
            ),
            _ => self,
        }
    }

    /// The first step.
    pub fn first() -> (r: ImportStep)
        ensures
            r == ImportStep::Locate,
    {
        ImportStep::Locate
    }

    /// What the step asks for.
    pub fn action(&self) -> (r: ImportAction)
        ensures
            r == self.requested(),
    {
        match self {
            ImportStep::Locate => ImportAction::Locate,
            ImportStep::Release => ImportAction::Release,
            ImportStep::Restore => ImportAction::Restore,
            ImportStep::Reopen(_) => ImportAction::Reopen,
            ImportStep::Count => ImportAction::Count,
            ImportStep::Lost(_) => ImportAction::GiveUp,
            ImportStep::Over(_) => ImportAction::Stop,
        }
    }

    /// The step after this one, given how its action went.
    pub fn next(self, reply: ImportReply) -> (r: ImportStep)
        requires
            answers(self.requested(), reply),
        ensures
            r == self.successor(reply),
    {
        match (self, reply) {
            (ImportStep::Locate, ImportReply::Done) => ImportStep::Release,
            (ImportStep::Locate, ImportReply::Failed(e)) => ImportStep::Over(Outcome::Failed(e)),
            (ImportStep::Release, ImportReply::Done) => ImportStep::Restore,
            (ImportStep::Release, ImportReply::Failed(e)) => ImportStep::Over(Outcome::Failed(e)),
            (ImportStep::Restore, ImportReply::Done) => ImportStep::Reopen(Ok(())),
            (ImportStep::Restore, ImportReply::Failed(e)) => ImportStep::Reopen(Err(e)),
            (ImportStep::Reopen(_), ImportReply::Failed(e)) => ImportStep::Lost(e),
            (ImportStep::Reopen(Ok(_)), ImportReply::Done) => ImportStep::Count,
            (ImportStep::Reopen(Err(e)), ImportReply::Done) => ImportStep::Over(Outcome::Failed(e)),
            (
                ImportStep::Count,
                ImportReply::Counted { task_types, total_tallies },
            ) => ImportStep::Over(
                Outcome::Imported {
                    task_types: match task_types {
                        Some(n) => n,
                        None => 0,
                    },
                    total_tallies: match total_tallies {
                        Some(n) => n,
                        None => 0,
                    },
                },
            ),
            (s, _) => s,
        }
    }
}

/// Which database is open.
#[derive(Clone, Copy, PartialEq, Eq, Structural)]
pub enum Open {
    Live,
    /// The empty one in memory.
    Placeholder,
}

/// Which database is open when a step is reached, beginning with the live one.
pub open spec fn open_while(s: ImportStep) -> Open {
    match s {
        ImportStep::Restore => Open::Placeholder,
        ImportStep::Reopen(_) => Open::Placeholder,
        ImportStep::Lost(_) => Open::Placeholder,
        _ => Open::Live,
    }
}

/// Which database is open after an action.
pub open spec fn open_after(open: Open, action: ImportAction, reply: ImportReply) -> Open {
    match (action, reply) {
        (ImportAction::Release, ImportReply::Done) => Open::Placeholder,
        (ImportAction::Reopen, ImportReply::Done) => Open::Live,
        _ => open,
    }
}

/// The live database is closed while its file is swapped, and open again whenever an import is
/// over: an import that ends otherwise ends the program.
pub proof fn law_import_ends_on_the_live_database(s: ImportStep, reply: ImportReply)
    requires
        answers(s.requested(), reply),
    ensures
        open_while(ImportStep::Locate) == Open::Live,
        open_after(open_while(s), s.requested(), reply) == open_while(s.successor(reply)),
        s.requested() == ImportAction::Restore ==> open_while(s) == Open::Placeholder,
        s.successor(reply) is Over ==> open_while(s.successor(reply)) == Open::Live,
{
}

/// An import is reported as done only after the swap and the opening both went well, and a
/// failed swap is reported as such.
pub proof fn law_import_reports_the_swap(s: ImportStep, reply: ImportReply)
    requires
        answers(s.requested(), reply),
    ensures
        s.successor(reply) is Count ==> s == ImportStep::Reopen(Ok(())) && reply is Done,
        s.successor(reply) matches ImportStep::Over(Outcome::Imported { .. }) ==> s is Count,
        reply is Done ==> (s matches ImportStep::Reopen(Err(e)) ==> s.successor(reply)
            == ImportStep::Over(Outcome::Failed(e))),
{
    if let ImportStep::Reopen(Ok(u)) = s {
        assert(u == ());
    }
}

/// An import in which nothing fails goes through its steps in order: the file is located, the
/// open database given up, the picked file swapped in, the live database opened again and
/// counted. What was counted is what is reported.
pub proof fn law_import_goes_in_order(task_types: usize, total_tallies: i64)
    ensures
        ImportStep::Locate.requested() == ImportAction::Locate,
        ImportStep::Locate.successor(ImportReply::Done).requested() == ImportAction::Release,
        ImportStep::Release.successor(ImportReply::Done).requested() == ImportAction::Restore,
        ImportStep::Restore.successor(ImportReply::Done).requested() == ImportAction::Reopen,
        ImportStep::Restore.successor(ImportReply::Done).successor(ImportReply::Done).requested()
            == ImportAction::Count,
        ImportStep::Count.successor(
            ImportReply::Counted {
                task_types: Some(task_types),
                total_tallies: Some(total_tallies),
            },
        ) == ImportStep::Over(Outcome::Imported { task_types, total_tallies }),
        ImportStep::Count.successor(
            ImportReply::Counted { task_types: None, total_tallies: None },
        ) == ImportStep::Over(Outcome::Imported { task_types: 0, total_tallies: 0 }),
{
}

/// A failure is reported in its own words: before the swap at once, and a failed swap once the
/// live database is open again. A database that cannot be opened again ends the program with
/// its own words.
pub proof fn law_failures_keep_their_words(why: String, later: String)
    ensures
        ImportStep::Locate.successor(ImportReply::Failed(why)) == ImportStep::Over(
            Outcome::Failed(why),
        ),
        ImportStep::Release.successor(ImportReply::Failed(why)) == ImportStep::Over(
            Outcome::Failed(why),
        ),
        ImportStep::Restore.successor(ImportReply::Failed(why)).requested()
            == ImportAction::Reopen,
        ImportStep::Restore.successor(ImportReply::Failed(why)).successor(ImportReply::Done)
            == ImportStep::Over(Outcome::Failed(why)),
        ImportStep::Restore.successor(ImportReply::Failed(why)).successor(
            ImportReply::Failed(later),
        ) == ImportStep::Lost(later),
        ImportStep::Restore.successor(ImportReply::Done).successor(ImportReply::Failed(later))
            == ImportStep::Lost(later),
        ImportStep::Lost(why).requested() == ImportAction::GiveUp,
{
}

} // verus!
