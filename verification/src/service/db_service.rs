//! Opening the database: first the directory must be writable, then an interrupted restore is
//! finished, and only then is the file opened.
use vstd::prelude::*;

use crate::error::{DbError, ErrorKind};
use crate::path::{self, FilePath};
use crate::service::restore::{self, Action, Failure, OpenOutcome, RecoverStep, Reply};
use crate::text;

verus! {

/// The name of the database file.
pub const DB_FILENAME: &'static str = "task_tally.db";

/// The name of the settings file. It stands beside the executable with the database.
pub const SETTINGS_FILENAME: &'static str = "settings.toml";

/// The directory that the executable is in: the parent of its path.
pub fn exe_dir(parent: Option<FilePath>) -> (r: Result<FilePath, DbError>)
    ensures
        match (parent, r) {
            (Some(p), Ok(dir)) => dir == p,
            (None, Err(e)) => e.kind == ErrorKind::Invalid && e.message@
                == "executable path has no parent directory"@,
            _ => false,
        },
{
    match parent {
        Some(p) => Ok(p),
        None => Err(
            DbError {
                kind: ErrorKind::Invalid,
                message: "executable path has no parent directory".to_owned(),
            },
        ),
    }
}

/// The database beside the executable, where `separator` stands between the parts of a path.
pub fn database_path(exe_dir: &FilePath, separator: u16) -> (r: FilePath)
    ensures
        r@ == path::inside(exe_dir@, separator, DB_FILENAME@),
{
    proof {
        reveal_strlit("task_tally.db");
    }
    exe_dir.join(separator, DB_FILENAME)
}

/// The settings file beside the executable.
pub fn settings_path(exe_dir: &FilePath, separator: u16) -> (r: FilePath)
    ensures
        r@ == path::inside(exe_dir@, separator, SETTINGS_FILENAME@),
{
    proof {
        reveal_strlit("settings.toml");
    }
    exe_dir.join(separator, SETTINGS_FILENAME)
}

/// The failure to report for a directory that cannot be written to, naming it and the cause.
pub open spec fn not_writable_text(dir: Seq<char>, why: Seq<char>) -> Seq<char> {
    "database directory is not writable: "@ + dir + " ("@ + why + ")"@
}

/// What writing the probe file into `dir` says about the directory: `why` is the cause if it
/// failed.
pub fn ensure_writable(dir: &str, why: Option<String>) -> (r: Result<(), DbError>)
    ensures
        match (why, r) {
            (None, Ok(_)) => true,
            (Some(w), Err(e)) => e.kind == ErrorKind::Invalid && e.message@ == not_writable_text(
                dir@,
                w@,
            ),
            _ => false,
        },
{
    match why {
        None => Ok(()),
        Some(w) => {
            let mut s = String::new();
            text::push_text(&mut s, "database directory is not writable: ");
            text::push_text(&mut s, dir);
            text::push_text(&mut s, " (");
            text::push_text(&mut s, w.as_str());
            text::push_text(&mut s, ")");
            assert(s@ =~= not_writable_text(dir@, w@));
            Err(DbError { kind: ErrorKind::Invalid, message: s })
        },
    }
}

/// What has to be done next to open the database.
#[derive(Clone, Copy, Debug, PartialEq, Eq, Structural)]
pub enum OpenAction {
    /// Check that the containing directory is writable.
    CheckDirectory,
    /// Carry out one action of a recovery.
    Recover(Action),
    /// Open the database, creating it or bringing it up to date as needed.
    Open,
    Stop,
}

/// The outcome of an [`OpenAction`].
#[derive(Debug)]
pub enum OpenReply {
    Writable,
    NotWritable(DbError),
    Recovery(Reply),
    Opened(OpenOutcome),
    Failed(DbError),
}

/// Where opening the database stands.
#[derive(Debug)]
pub enum OpenStep {
    CheckDirectory,
    Recover(RecoverStep),
    Open,
    Over(Result<OpenOutcome, Failure>),
}

/// Whether `reply` answers `action`.
pub open spec fn answers(action: OpenAction, reply: OpenReply) -> bool {
    match action {
        OpenAction::CheckDirectory => reply is Writable || reply is NotWritable,
        OpenAction::Recover(a) => reply matches OpenReply::Recovery(r) && restore::answers(a, r),
        OpenAction::Open => reply is Opened || reply is Failed,
        OpenAction::Stop => false,
    }
}

/// Opening starts with the directory, where the path names one.
pub fn open_at(has_directory: bool) -> (r: OpenStep)
    ensures
        r == (if has_directory {
            OpenStep::CheckDirectory
        } else {
            OpenStep::Recover(RecoverStep::AskMarker)
        }),
{
    if has_directory {
        OpenStep::CheckDirectory
    } else {
        OpenStep::Recover(restore::recover_incomplete())
    }
}

impl OpenStep {
    pub open spec fn requested(self) -> OpenAction {
        match self {
            OpenStep::CheckDirectory => OpenAction::CheckDirectory,
            OpenStep::Recover(r) => OpenAction::Recover(r.requested()),
            OpenStep::Open => OpenAction::Open,
            OpenStep::Over(_) => OpenAction::Stop,
        }
    }

    pub open spec fn successor(self, reply: OpenReply) -> OpenStep {
        match (self, reply) {
            (OpenStep::CheckDirectory, OpenReply::Writable) => OpenStep::Recover(
                RecoverStep::AskMarker,
            ),
            (OpenStep::CheckDirectory, OpenReply::NotWritable(e)) => OpenStep::Over(
                Err(Failure::Reported(e)),
            ),
            (OpenStep::Recover(step), OpenReply::Recovery(r)) => match step.successor(r) {
                RecoverStep::Over(Ok(_)) => OpenStep::Open,
                RecoverStep::Over(Err(e)) => OpenStep::Over(Err(e)),
                n => OpenStep::Recover(n),
            },
            (OpenStep::Open, OpenReply::Opened(o)) => OpenStep::Over(Ok(o)),
            (OpenStep::Open, OpenReply::Failed(e)) => OpenStep::Over(Err(Failure::Reported(e))),
            _ => self,
        }
    }

    /// What the step asks for.
    pub fn action(&self) -> (r: OpenAction)
        ensures
            r == self.requested(),
    {
        match self {
            OpenStep::CheckDirectory => OpenAction::CheckDirectory,
            OpenStep::Recover(r) => OpenAction::Recover(r.action()),
            OpenStep::Open => OpenAction::Open,
            OpenStep::Over(_) => OpenAction::Stop,
        }
    }

    /// The step after this one, given how its action went.
    pub fn next(self, reply: OpenReply) -> (r: OpenStep)
        requires
            answers(self.requested(), reply),
        ensures
            r == self.successor(reply),
    {
        match (self, reply) {
            (OpenStep::CheckDirectory, OpenReply::Writable) => OpenStep::Recover(
                restore::recover_incomplete(),
            ),
            (OpenStep::CheckDirectory, OpenReply::NotWritable(e)) => OpenStep::Over(
                Err(Failure::Reported(e)),
            ),
            (OpenStep::Recover(step), OpenReply::Recovery(r)) => match step.next(r) {
                RecoverStep::Over(Ok(_)) => OpenStep::Open,
                RecoverStep::Over(Err(e)) => OpenStep::Over(Err(e)),
                n => OpenStep::Recover(n),
            },
            (OpenStep::Open, OpenReply::Opened(o)) => OpenStep::Over(Ok(o)),
            (OpenStep::Open, OpenReply::Failed(e)) => OpenStep::Over(Err(Failure::Reported(e))),
            (s, _) => s,
        }
    }
}

/// The database is opened only after a recovery has ended well, and where the directory is
/// asked about, a recovery is begun only if it is writable: no launch proceeds on a half-swapped
/// file.
pub proof fn law_open_comes_after_recovery(step: OpenStep, reply: OpenReply)
    requires
        answers(step.requested(), reply),
    ensures
        step.successor(reply) == OpenStep::Open ==> (step matches OpenStep::Recover(r)
            && reply matches OpenReply::Recovery(a) && r.successor(a) == RecoverStep::Over(Ok(()))),
        step == OpenStep::CheckDirectory && step.successor(reply) is Recover ==> reply
            == OpenReply::Writable,
{
    if let OpenStep::Recover(r) = step {
        if let OpenReply::Recovery(a) = reply {
            if let RecoverStep::Over(Ok(u)) = r.successor(a) {
                assert(u == ());
            }
        }
    }
}

/// How opening ends: with what became of opening the file, or with the failure that came before
/// it, in its own words. A directory that cannot be written to ends it before anything is
/// touched.
pub proof fn law_opening_reports_what_happened(o: OpenOutcome, e: DbError, f: Failure, r: Reply)
    ensures
        OpenStep::CheckDirectory.successor(OpenReply::NotWritable(e)) == OpenStep::Over(
            Err(Failure::Reported(e)),
        ),
        OpenStep::CheckDirectory.successor(OpenReply::Writable) == OpenStep::Recover(
            RecoverStep::AskMarker,
        ),
        OpenStep::Open.successor(OpenReply::Opened(o)) == OpenStep::Over(Ok(o)),
        OpenStep::Open.successor(OpenReply::Failed(e)) == OpenStep::Over(
            Err(Failure::Reported(e)),
        ),
        OpenStep::Recover(RecoverStep::Promote).successor(
            OpenReply::Recovery(Reply::Failed(e)),
        ) == OpenStep::Over(Err(Failure::Reported(e))),
        OpenStep::Open.requested() == OpenAction::Open,
        OpenStep::CheckDirectory.requested() == OpenAction::CheckDirectory,
{
}

/// A directory that cannot be written to is named with the cause.
pub proof fn law_unwritable_directory_is_named(dir: Seq<char>, why: Seq<char>)
    ensures
        not_writable_text(dir, why) == "database directory is not writable: "@ + dir + " ("@ + why
            + ")"@,
{
}

/// The check of the directory is answered by whether it can be written, opening by the database or
/// a failure, and each action of a recovery by what answers it.
pub proof fn law_every_action_has_its_answers(action: OpenAction, reply: OpenReply)
    ensures
        action is CheckDirectory ==> (answers(action, reply) <==> reply is Writable
            || reply is NotWritable),
        action is Open ==> (answers(action, reply) <==> reply is Opened || reply is Failed),
        action is Stop ==> !answers(action, reply),
        action matches OpenAction::Recover(a) ==> (answers(action, reply) <==> (
        reply matches OpenReply::Recovery(r) && restore::answers(a, r))),
{
}

} // verus!
