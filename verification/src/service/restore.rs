//! Staged restore and recovery of an interrupted swap.
//!
//! The candidate backup is proved before the live file is touched, a safety copy is kept, and
//! a marker guards the file swap, so that an interruption at any boundary can be finished or
//! reversed at the next start. Each procedure is a sequence of steps: [`RestoreStep::action`]
//! says what to do with the files, and [`RestoreStep::next`] takes the outcome.
//!
//! All files stand beside the live database `base`:
//! - `<base>.restore_staging`: the candidate, copied and validated before it goes live.
//! - `<base>.restore_safety`: a snapshot of the live database, the fallback.
//! - `<base>.restore_marker`: present only while the swap is under way.
use vstd::prelude::*;

use crate::error::DbError;
use crate::path::{self, FilePath};
use crate::text;

verus! {

/// The database files a restore works with.
#[derive(Clone, Copy, Debug, PartialEq, Eq, Structural)]
pub enum Slot {
    /// The live database.
    Base,
    /// The candidate that is about to become the live database.
    Staging,
    /// The snapshot of the live database.
    Safety,
}

/// The parts of a database on disk: the file itself and its two write-ahead companions.
#[derive(Clone, Copy, Debug, PartialEq, Eq, Structural)]
pub enum Part {
    Main,
    Wal,
    Shm,
}

/// One file.
#[derive(Clone, Copy, Debug, PartialEq, Eq, Structural)]
pub enum FileId {
    Database(Slot, Part),
    Marker,
}

/// How a database came to be open.
#[derive(Clone, Copy, Debug, PartialEq, Eq, Structural)]
pub enum OpenOutcome {
    /// The file held no tables and was set up anew.
    Created,
    Opened,
    /// An older layout was brought up to date.
    Migrated,
}

/// Why a restore stopped.
#[derive(Debug)]
pub enum Failure {
    /// An operation on a file or a database failed.
    Reported(DbError),
    /// The backup opened as an empty database, so it holds nothing to restore.
    NotABackup,
}

/// What has to be done next.
#[derive(Clone, Copy, Debug, PartialEq, Eq, Structural)]
pub enum Action {
    /// Find out whether a file exists.
    Ask(FileId),
    /// Remove a file; that it is not there counts as removed.
    Remove(FileId),
    /// Remove a file; the outcome does not matter.
    Discard(FileId),
    /// Copy the backup to the staging file.
    CopyBackup,
    /// Open the database in a slot, bringing an older layout up to date.
    Open(Slot),
    /// Check the open staging database for integrity and close it.
    CheckStaging,
    /// Write a snapshot of the open live database to the safety file and close it.
    SaveSafety,
    WriteMarker,
    /// Rename the database file of the first slot to that of the second.
    Rename(Slot, Slot),
    /// Nothing more: the procedure is over.
    Stop,
}

/// The outcome of an [`Action`].
#[derive(Debug)]
pub enum Reply {
    Done,
    Present(bool),
    Opened(OpenOutcome),
    Failed(DbError),
}

/// Where a recovery stands.
#[derive(Debug)]
pub enum RecoverStep {
    AskMarker,
    ClearStaging(Part),
    ClearSafety(Part),
    AskBase,
    AskStaging { base: bool },
    DropBase(Part),
    Promote,
    AskSafety,
    FallBack,
    DropMarker,
    DropSafety,
    TidyWal,
    TidyShm,
    Over(Result<(), Failure>),
}

/// Where a restore stands.
#[derive(Debug)]
pub enum RestoreStep {
    Recover(RecoverStep),
    ClearStaging(Part),
    Copy,
    OpenStaging,
    CheckStaging,
    Reject(Part, Failure),
    TidyStagingWal,
    TidyStagingShm,
    AskBase,
    ClearSafety(Part),
    OpenBase,
    SaveSafety,
    OpenSafety,
    TidySafetyWal,
    TidySafetyShm,
    Mark { had_base: bool },
    DropBase(Part),
    Promote,
    DropMarker,
    DropSafety,
    Over(Result<(), Failure>),
}

/// Whether `reply` is an answer to `action`.
pub open spec fn answers(action: Action, reply: Reply) -> bool {
    match action {
        Action::Ask(_) => reply is Present,
        Action::Remove(_) => reply is Done || reply is Failed,
        Action::Discard(_) => reply is Done || reply is Failed,
        Action::CopyBackup => reply is Done || reply is Failed,
        Action::Open(_) => reply is Opened || reply is Failed,
        Action::CheckStaging => reply is Done || reply is Failed,
        Action::SaveSafety => reply is Done || reply is Failed,
        Action::WriteMarker => reply is Done || reply is Failed,
        Action::Rename(_, _) => reply is Done || reply is Failed,
        Action::Stop => false,
    }
}

/// The part of a database that is removed after `part`.
pub open spec fn part_after(part: Part) -> Option<Part> {
    match part {
        Part::Main => Some(Part::Wal),
        Part::Wal => Some(Part::Shm),
        Part::Shm => None,
    }
}

fn following_part(part: Part) -> (r: Option<Part>)
    ensures
        r == part_after(part),
{
    match part {
        Part::Main => Some(Part::Wal),
        Part::Wal => Some(Part::Shm),
        Part::Shm => None,
    }
}

/// Removing a database must succeed for the file itself; its companions are removed as far as
/// possible.
pub open spec fn removal(slot: Slot, part: Part) -> Action {
    if part == Part::Main {
        Action::Remove(FileId::Database(slot, part))
    } else {
        Action::Discard(FileId::Database(slot, part))
    }
}

fn remove_part(slot: Slot, part: Part) -> (r: Action)
    ensures
        r == removal(slot, part),
{
    if part == Part::Main {
        Action::Remove(FileId::Database(slot, part))
    } else {
        Action::Discard(FileId::Database(slot, part))
    }
}

/// Whether the removal of a database goes on with its companions: it does, unless the file
/// itself could not be removed.
pub open spec fn removal_failed(part: Part, reply: Reply) -> bool {
    part == Part::Main && reply is Failed
}

impl RecoverStep {
    /// What the step asks for.
    pub open spec fn requested(self) -> Action {
        match self {
            RecoverStep::AskMarker => Action::Ask(FileId::Marker),
            RecoverStep::ClearStaging(part) => removal(Slot::Staging, part),
            RecoverStep::ClearSafety(part) => removal(Slot::Safety, part),
            RecoverStep::AskBase => Action::Ask(FileId::Database(Slot::Base, Part::Main)),
            RecoverStep::AskStaging { base } => Action::Ask(
                FileId::Database(Slot::Staging, Part::Main),
            ),
            RecoverStep::DropBase(part) => removal(Slot::Base, part),
            RecoverStep::Promote => Action::Rename(Slot::Staging, Slot::Base),
            RecoverStep::AskSafety => Action::Ask(FileId::Database(Slot::Safety, Part::Main)),
            RecoverStep::FallBack => Action::Rename(Slot::Safety, Slot::Base),
            RecoverStep::DropMarker => Action::Discard(FileId::Marker),
            RecoverStep::DropSafety => Action::Discard(FileId::Database(Slot::Safety, Part::Main)),
            RecoverStep::TidyWal => Action::Discard(FileId::Database(Slot::Base, Part::Wal)),
            RecoverStep::TidyShm => Action::Discard(FileId::Database(Slot::Base, Part::Shm)),
            RecoverStep::Over(_) => Action::Stop,
        }
    }

    /// The step after this one, given how its action went.
    pub open spec fn successor(self, reply: Reply) -> RecoverStep {
        match self {
            RecoverStep::AskMarker => if reply == Reply::Present(true) {
                RecoverStep::AskBase
            } else {
                RecoverStep::ClearStaging(Part::Main)
            },
            RecoverStep::ClearStaging(part) => match part_after(part) {
                Some(p) if !removal_failed(part, reply) => RecoverStep::ClearStaging(p),
                _ => RecoverStep::ClearSafety(Part::Main),
            },
            RecoverStep::ClearSafety(part) => match part_after(part) {
                Some(p) if !removal_failed(part, reply) => RecoverStep::ClearSafety(p),
                _ => RecoverStep::Over(Ok(())),
            },
            RecoverStep::AskBase => RecoverStep::AskStaging { base: reply == Reply::Present(true) },
            RecoverStep::AskStaging { base } => match (base, reply == Reply::Present(true)) {
                (true, false) => RecoverStep::DropMarker,
                (false, true) => RecoverStep::Promote,
                (true, true) => RecoverStep::DropBase(Part::Main),
                (false, false) => RecoverStep::AskSafety,
            },
            RecoverStep::DropBase(part) => match (part, reply) {
                (Part::Main, Reply::Failed(e)) => RecoverStep::Over(Err(Failure::Reported(e))),
                _ => match part_after(part) {
                    Some(p) => RecoverStep::DropBase(p),
                    None => RecoverStep::Promote,
                },
            },
            RecoverStep::Promote => match reply {
                Reply::Failed(e) => RecoverStep::Over(Err(Failure::Reported(e))),
                _ => RecoverStep::DropMarker,
            },
            RecoverStep::AskSafety => if reply == Reply::Present(true) {
                RecoverStep::FallBack
            } else {
                RecoverStep::DropMarker
            },
            RecoverStep::FallBack => match reply {
                Reply::Failed(e) => RecoverStep::Over(Err(Failure::Reported(e))),
                _ => RecoverStep::DropMarker,
            },
            RecoverStep::DropMarker => RecoverStep::DropSafety,
            RecoverStep::DropSafety => RecoverStep::TidyWal,
            RecoverStep::TidyWal => RecoverStep::TidyShm,
            RecoverStep::TidyShm => RecoverStep::Over(Ok(())),
            RecoverStep::Over(r) => RecoverStep::Over(r),
        }
    }

    /// What the step asks for.
    pub fn action(&self) -> (r: Action)
        ensures
            r == self.requested(),
    {
        match self {
            RecoverStep::AskMarker => Action::Ask(FileId::Marker),
            RecoverStep::ClearStaging(part) => remove_part(Slot::Staging, *part),
            RecoverStep::ClearSafety(part) => remove_part(Slot::Safety, *part),
            RecoverStep::AskBase => Action::Ask(FileId::Database(Slot::Base, Part::Main)),
            RecoverStep::AskStaging { .. } => Action::Ask(
                FileId::Database(Slot::Staging, Part::Main),
            ),
            RecoverStep::DropBase(part) => remove_part(Slot::Base, *part),
            RecoverStep::Promote => Action::Rename(Slot::Staging, Slot::Base),
            RecoverStep::AskSafety => Action::Ask(FileId::Database(Slot::Safety, Part::Main)),
            RecoverStep::FallBack => Action::Rename(Slot::Safety, Slot::Base),
            RecoverStep::DropMarker => Action::Discard(FileId::Marker),
            RecoverStep::DropSafety => Action::Discard(FileId::Database(Slot::Safety, Part::Main)),
            RecoverStep::TidyWal => Action::Discard(FileId::Database(Slot::Base, Part::Wal)),
            RecoverStep::TidyShm => Action::Discard(FileId::Database(Slot::Base, Part::Shm)),
            RecoverStep::Over(_) => Action::Stop,
        }
    }

    /// The step after this one, given how its action went.
    pub fn next(self, reply: Reply) -> (r: RecoverStep)
        requires
            answers(self.requested(), reply),
        ensures
            r == self.successor(reply),
    {
        let yes = matches!(reply, Reply::Present(true));
        let failed = matches!(reply, Reply::Failed(_));
        match self {
            RecoverStep::AskMarker => if yes {
                RecoverStep::AskBase
            } else {
                RecoverStep::ClearStaging(Part::Main)
            },
            RecoverStep::ClearStaging(part) => match following_part(part) {
                Some(p) => if part == Part::Main && failed {
                    RecoverStep::ClearSafety(Part::Main)
                } else {
                    RecoverStep::ClearStaging(p)
                },
                None => RecoverStep::ClearSafety(Part::Main),
            },
            RecoverStep::ClearSafety(part) => match following_part(part) {
                Some(p) => if part == Part::Main && failed {
                    RecoverStep::Over(Ok(()))
                } else {
                    RecoverStep::ClearSafety(p)
                },
                None => RecoverStep::Over(Ok(())),
            },
            RecoverStep::AskBase => RecoverStep::AskStaging { base: yes },
            RecoverStep::AskStaging { base } => if base {
                if yes {
                    RecoverStep::DropBase(Part::Main)
                } else {
                    RecoverStep::DropMarker
                }
            } else if yes {
                RecoverStep::Promote
            } else {
                RecoverStep::AskSafety
            },
            RecoverStep::DropBase(part) => match (part, reply) {
                (Part::Main, Reply::Failed(e)) => RecoverStep::Over(Err(Failure::Reported(e))),
                _ => match following_part(part) {
                    Some(p) => RecoverStep::DropBase(p),
                    None => RecoverStep::Promote,
                },
            },
            RecoverStep::Promote => match reply {
                Reply::Failed(e) => RecoverStep::Over(Err(Failure::Reported(e))),
                _ => RecoverStep::DropMarker,
            },
            RecoverStep::AskSafety => if yes {
                RecoverStep::FallBack
            } else {
                RecoverStep::DropMarker
            },
            RecoverStep::FallBack => match reply {
                Reply::Failed(e) => RecoverStep::Over(Err(Failure::Reported(e))),
                _ => RecoverStep::DropMarker,
            },
            RecoverStep::DropMarker => RecoverStep::DropSafety,
            RecoverStep::DropSafety => RecoverStep::TidyWal,
            RecoverStep::TidyWal => RecoverStep::TidyShm,
            RecoverStep::TidyShm => RecoverStep::Over(Ok(())),
            RecoverStep::Over(r) => RecoverStep::Over(r),
        }
    }
}

/// Where a restore starts.
pub fn restore() -> (r: RestoreStep)
    ensures
        r == RestoreStep::Recover(RecoverStep::AskMarker),
{
    RestoreStep::Recover(RecoverStep::AskMarker)
}

/// Where a recovery starts.
pub fn recover_incomplete() -> (r: RecoverStep)
    ensures
        r == RecoverStep::AskMarker,
{
    RecoverStep::AskMarker
}

impl RestoreStep {
    /// What the step asks for.
    pub open spec fn requested(self) -> Action {
        match self {
            RestoreStep::Recover(r) => r.requested(),
            RestoreStep::ClearStaging(part) => removal(Slot::Staging, part),
            RestoreStep::Copy => Action::CopyBackup,
            RestoreStep::OpenStaging => Action::Open(Slot::Staging),
            RestoreStep::CheckStaging => Action::CheckStaging,
            RestoreStep::Reject(part, _) => removal(Slot::Staging, part),
            RestoreStep::TidyStagingWal => Action::Discard(
                FileId::Database(Slot::Staging, Part::Wal),
            ),
            RestoreStep::TidyStagingShm => Action::Discard(
                FileId::Database(Slot::Staging, Part::Shm),
            ),
            RestoreStep::AskBase => Action::Ask(FileId::Database(Slot::Base, Part::Main)),
            RestoreStep::ClearSafety(part) => removal(Slot::Safety, part),
            RestoreStep::OpenBase => Action::Open(Slot::Base),
            RestoreStep::SaveSafety => Action::SaveSafety,
            RestoreStep::OpenSafety => Action::Open(Slot::Safety),
            RestoreStep::TidySafetyWal => Action::Discard(FileId::Database(Slot::Safety, Part::Wal)),
            RestoreStep::TidySafetyShm => Action::Discard(FileId::Database(Slot::Safety, Part::Shm)),
            RestoreStep::Mark { had_base } => Action::WriteMarker,
            RestoreStep::DropBase(part) => removal(Slot::Base, part),
            RestoreStep::Promote => Action::Rename(Slot::Staging, Slot::Base),
            RestoreStep::DropMarker => Action::Discard(FileId::Marker),
            RestoreStep::DropSafety => Action::Discard(FileId::Database(Slot::Safety, Part::Main)),
            RestoreStep::Over(_) => Action::Stop,
        }
    }

    /// The step after this one, given how its action went.
    pub open spec fn successor(self, reply: Reply) -> RestoreStep {
        match self {
            RestoreStep::Recover(r) => match r.successor(reply) {
                RecoverStep::Over(Ok(_)) => RestoreStep::ClearStaging(Part::Main),
                RecoverStep::Over(Err(e)) => RestoreStep::Over(Err(e)),
                n => RestoreStep::Recover(n),
            },
            RestoreStep::ClearStaging(part) => match (part, reply) {
                (Part::Main, Reply::Failed(e)) => RestoreStep::Over(Err(Failure::Reported(e))),
                _ => match part_after(part) {
                    Some(p) => RestoreStep::ClearStaging(p),
                    None => RestoreStep::Copy,
                },
            },
            RestoreStep::Copy => match reply {
                Reply::Failed(e) => RestoreStep::Over(Err(Failure::Reported(e))),
                _ => RestoreStep::OpenStaging,
            },
            RestoreStep::OpenStaging => match reply {
                Reply::Failed(e) => RestoreStep::Reject(Part::Main, Failure::Reported(e)),
                Reply::Opened(OpenOutcome::Created) => RestoreStep::Reject(
                    Part::Main,
                    Failure::NotABackup,
                ),
                _ => RestoreStep::CheckStaging,
            },
            RestoreStep::CheckStaging => match reply {
                Reply::Failed(e) => RestoreStep::Reject(Part::Main, Failure::Reported(e)),
                _ => RestoreStep::TidyStagingWal,
            },
            RestoreStep::Reject(part, why) => match part_after(part) {
                Some(p) if !removal_failed(part, reply) => RestoreStep::Reject(p, why),
                _ => RestoreStep::Over(Err(why)),
            },
            RestoreStep::TidyStagingWal => RestoreStep::TidyStagingShm,
            RestoreStep::TidyStagingShm => RestoreStep::AskBase,
            RestoreStep::AskBase => if reply == Reply::Present(true) {
                RestoreStep::ClearSafety(Part::Main)
            } else {
                RestoreStep::Mark { had_base: false }
            },
            RestoreStep::ClearSafety(part) => match (part, reply) {
                (Part::Main, Reply::Failed(e)) => RestoreStep::Over(Err(Failure::Reported(e))),
                _ => match part_after(part) {
                    Some(p) => RestoreStep::ClearSafety(p),
                    None => RestoreStep::OpenBase,
                },
            },
            RestoreStep::OpenBase => match reply {
                Reply::Failed(e) => RestoreStep::Over(Err(Failure::Reported(e))),
                _ => RestoreStep::SaveSafety,
            },
            RestoreStep::SaveSafety => match reply {
                Reply::Failed(e) => RestoreStep::Over(Err(Failure::Reported(e))),
                _ => RestoreStep::OpenSafety,
            },
            RestoreStep::OpenSafety => match reply {
                Reply::Failed(e) => RestoreStep::Over(Err(Failure::Reported(e))),
                _ => RestoreStep::TidySafetyWal,
            },
            RestoreStep::TidySafetyWal => RestoreStep::TidySafetyShm,
            RestoreStep::TidySafetyShm => RestoreStep::Mark { had_base: true },
            RestoreStep::Mark { had_base } => match reply {
                Reply::Failed(e) => RestoreStep::Over(Err(Failure::Reported(e))),
                _ => if had_base {
                    RestoreStep::DropBase(Part::Main)
                } else {
                    RestoreStep::Promote
                },
            },
            RestoreStep::DropBase(part) => match (part, reply) {
                (Part::Main, Reply::Failed(e)) => RestoreStep::Over(Err(Failure::Reported(e))),
                _ => match part_after(part) {
                    Some(p) => RestoreStep::DropBase(p),
                    None => RestoreStep::Promote,
                },
            },
            RestoreStep::Promote => match reply {
                Reply::Failed(e) => RestoreStep::Over(Err(Failure::Reported(e))),
                _ => RestoreStep::DropMarker,
            },
            RestoreStep::DropMarker => RestoreStep::DropSafety,
            RestoreStep::DropSafety => RestoreStep::Over(Ok(())),
            RestoreStep::Over(r) => RestoreStep::Over(r),
        }
    }

    /// What the step asks for.
    pub fn action(&self) -> (r: Action)
        ensures
            r == self.requested(),
    {
        match self {
            RestoreStep::Recover(r) => r.action(),
            RestoreStep::ClearStaging(part) => remove_part(Slot::Staging, *part),
            RestoreStep::Copy => Action::CopyBackup,
            RestoreStep::OpenStaging => Action::Open(Slot::Staging),
            RestoreStep::CheckStaging => Action::CheckStaging,
            RestoreStep::Reject(part, _) => remove_part(Slot::Staging, *part),
            RestoreStep::TidyStagingWal => Action::Discard(
                FileId::Database(Slot::Staging, Part::Wal),
            ),
            RestoreStep::TidyStagingShm => Action::Discard(
                FileId::Database(Slot::Staging, Part::Shm),
            ),
            RestoreStep::AskBase => Action::Ask(FileId::Database(Slot::Base, Part::Main)),
            RestoreStep::ClearSafety(part) => remove_part(Slot::Safety, *part),
            RestoreStep::OpenBase => Action::Open(Slot::Base),
            RestoreStep::SaveSafety => Action::SaveSafety,
            RestoreStep::OpenSafety => Action::Open(Slot::Safety),
            RestoreStep::TidySafetyWal => Action::Discard(FileId::Database(Slot::Safety, Part::Wal)),
            RestoreStep::TidySafetyShm => Action::Discard(FileId::Database(Slot::Safety, Part::Shm)),
            RestoreStep::Mark { .. } => Action::WriteMarker,
            RestoreStep::DropBase(part) => remove_part(Slot::Base, *part),
            RestoreStep::Promote => Action::Rename(Slot::Staging, Slot::Base),
            RestoreStep::DropMarker => Action::Discard(FileId::Marker),
            RestoreStep::DropSafety => Action::Discard(FileId::Database(Slot::Safety, Part::Main)),
            RestoreStep::Over(_) => Action::Stop,
        }
    }

    /// The step after this one, given how its action went.
    pub fn next(self, reply: Reply) -> (r: RestoreStep)
        requires
            answers(self.requested(), reply),
        ensures
            r == self.successor(reply),
    {
        match self {
            RestoreStep::Recover(r) => match r.next(reply) {
                RecoverStep::Over(Ok(_)) => RestoreStep::ClearStaging(Part::Main),
                RecoverStep::Over(Err(e)) => RestoreStep::Over(Err(e)),
                n => RestoreStep::Recover(n),
            },
            RestoreStep::ClearStaging(part) => match (part, reply) {
                (Part::Main, Reply::Failed(e)) => RestoreStep::Over(Err(Failure::Reported(e))),
                _ => match following_part(part) {
                    Some(p) => RestoreStep::ClearStaging(p),
                    None => RestoreStep::Copy,
                },
            },
            RestoreStep::Copy => match reply {
                Reply::Failed(e) => RestoreStep::Over(Err(Failure::Reported(e))),
                _ => RestoreStep::OpenStaging,
            },
            RestoreStep::OpenStaging => match reply {
                Reply::Failed(e) => RestoreStep::Reject(Part::Main, Failure::Reported(e)),
                Reply::Opened(OpenOutcome::Created) => RestoreStep::Reject(
                    Part::Main,
                    Failure::NotABackup,
                ),
                _ => RestoreStep::CheckStaging,
            },
            RestoreStep::CheckStaging => match reply {
                Reply::Failed(e) => RestoreStep::Reject(Part::Main, Failure::Reported(e)),
                _ => RestoreStep::TidyStagingWal,
            },
            RestoreStep::Reject(part, why) => {
                let failed = matches!(reply, Reply::Failed(_));
                match following_part(part) {
                    Some(p) => if part == Part::Main && failed {
                        RestoreStep::Over(Err(why))
                    } else {
                        RestoreStep::Reject(p, why)
                    },
                    None => RestoreStep::Over(Err(why)),
                }
            },
            RestoreStep::TidyStagingWal => RestoreStep::TidyStagingShm,
            RestoreStep::TidyStagingShm => RestoreStep::AskBase,
            RestoreStep::AskBase => if matches!(reply, Reply::Present(true)) {
                RestoreStep::ClearSafety(Part::Main)
            } else {
                RestoreStep::Mark { had_base: false }
            },
            RestoreStep::ClearSafety(part) => match (part, reply) {
                (Part::Main, Reply::Failed(e)) => RestoreStep::Over(Err(Failure::Reported(e))),
                _ => match following_part(part) {
                    Some(p) => RestoreStep::ClearSafety(p),
                    None => RestoreStep::OpenBase,
                },
            },
            RestoreStep::OpenBase => match reply {
                Reply::Failed(e) => RestoreStep::Over(Err(Failure::Reported(e))),
                _ => RestoreStep::SaveSafety,
            },
            RestoreStep::SaveSafety => match reply {
                Reply::Failed(e) => RestoreStep::Over(Err(Failure::Reported(e))),
                _ => RestoreStep::OpenSafety,
            },
            RestoreStep::OpenSafety => match reply {
                Reply::Failed(e) => RestoreStep::Over(Err(Failure::Reported(e))),
                _ => RestoreStep::TidySafetyWal,
            },
            RestoreStep::TidySafetyWal => RestoreStep::TidySafetyShm,
            RestoreStep::TidySafetyShm => RestoreStep::Mark { had_base: true },
            RestoreStep::Mark { had_base } => match reply {
                Reply::Failed(e) => RestoreStep::Over(Err(Failure::Reported(e))),
                _ => if had_base {
                    RestoreStep::DropBase(Part::Main)
                } else {
                    RestoreStep::Promote
                },
            },
            RestoreStep::DropBase(part) => match (part, reply) {
                (Part::Main, Reply::Failed(e)) => RestoreStep::Over(Err(Failure::Reported(e))),
                _ => match following_part(part) {
                    Some(p) => RestoreStep::DropBase(p),
                    None => RestoreStep::Promote,
                },
            },
            RestoreStep::Promote => match reply {
                Reply::Failed(e) => RestoreStep::Over(Err(Failure::Reported(e))),
                _ => RestoreStep::DropMarker,
            },
            RestoreStep::DropMarker => RestoreStep::DropSafety,
            RestoreStep::DropSafety => RestoreStep::Over(Ok(())),
            RestoreStep::Over(r) => RestoreStep::Over(r),
        }
    }
}

impl Failure {
    /// The text of the failure.
    pub open spec fn text(self) -> Seq<char> {
        match self {
            Failure::Reported(e) => e.message@,
            Failure::NotABackup => "backup file is not a recognizable SimpleTally database"@,
        }
    }

    /// The text of the failure, to show to the user.
    pub fn message(self) -> (r: String)
        ensures
            r@ == self.text(),
    {
        match self {
            Failure::Reported(e) => e.message,
            Failure::NotABackup => "backup file is not a recognizable SimpleTally database".to_owned(),
        }
    }
}

// --- where the files are ---

/// What is written behind the path of the live database to name `file`.
pub open spec fn suffix_of(file: FileId) -> Seq<u16> {
    match file {
        FileId::Marker => path::ascii_units(".restore_marker"@),
        FileId::Database(slot, part) => slot_suffix(slot) + part_suffix(part),
    }
}

pub open spec fn slot_suffix(slot: Slot) -> Seq<u16> {
    match slot {
        Slot::Base => Seq::empty(),
        Slot::Staging => path::ascii_units(".restore_staging"@),
        Slot::Safety => path::ascii_units(".restore_safety"@),
    }
}

pub open spec fn part_suffix(part: Part) -> Seq<u16> {
    match part {
        Part::Main => Seq::empty(),
        Part::Wal => path::ascii_units("-wal"@),
        Part::Shm => path::ascii_units("-shm"@),
    }
}

proof fn reveal_suffixes()
    ensures
        text::all_ascii(".restore_marker"@),
        text::all_ascii(".restore_staging"@),
        text::all_ascii(".restore_safety"@),
        text::all_ascii("-wal"@),
        text::all_ascii("-shm"@),
        ".restore_marker"@.len() == 15,
        ".restore_staging"@.len() == 16,
        ".restore_safety"@.len() == 15,
        "-wal"@.len() == 4,
        "-shm"@.len() == 4,
        path::ascii_units(".restore_marker"@)[9] == 109,
        path::ascii_units(".restore_safety"@)[9] == 115,
        path::ascii_units("-wal"@)[1] == 119,
        path::ascii_units("-shm"@)[1] == 115,
{
    reveal_strlit(".restore_marker");
    reveal_strlit(".restore_staging");
    reveal_strlit(".restore_safety");
    reveal_strlit("-wal");
    reveal_strlit("-shm");
}

/// The path of `file` when the live database is at `base`.
pub fn path_of(base: &FilePath, file: FileId) -> (r: FilePath)
    ensures
        r@ == base@ + suffix_of(file),
{
    proof {
        reveal_suffixes();
    }
    match file {
        FileId::Marker => base.with_suffix(".restore_marker"),
        FileId::Database(slot, part) => {
            let main = match slot {
                Slot::Base => base.copy(),
                Slot::Staging => base.with_suffix(".restore_staging"),
                Slot::Safety => base.with_suffix(".restore_safety"),
            };
            assert(main@ =~= base@ + slot_suffix(slot));
            let r = match part {
                Part::Main => main,
                Part::Wal => main.with_suffix("-wal"),
                Part::Shm => main.with_suffix("-shm"),
            };
            assert(r@ =~= base@ + (slot_suffix(slot) + part_suffix(part)));
            r
        },
    }
}

/// No two files of a restore share a path.
pub proof fn law_paths_are_distinct(base: Seq<u16>, a: FileId, b: FileId)
    requires
        a != b,
    ensures
        base + suffix_of(a) != base + suffix_of(b),
{
    reveal_suffixes();
    let x = suffix_of(a);
    let y = suffix_of(b);
    if base + x == base + y {
        assert(x =~= (base + x).skip(base.len() as int));
        assert(y =~= (base + y).skip(base.len() as int));
        assert(x == y);
        let tail = |f: FileId| match f {
            FileId::Database(s, p) => slot_suffix(s).len() as int,
            FileId::Marker => 0int,
        };
        assert(x.len() == y.len());
        assert(x[9] == y[9]);
        assert(x[tail(a) + 1] == y[tail(a) + 1]);
        assert(x[tail(b) + 1] == y[tail(b) + 1]);
        assert(false);
    }
}

/// Nothing is swapped in unless it was proved to be a backup: the staging file was copied,
/// opened as a database that already held something, and found whole. Each of these steps can
/// only be reached by way of the one before it, and only where that went well.
pub proof fn law_only_proved_backups_are_swapped_in(step: RestoreStep, reply: Reply)
    requires
        answers(step.requested(), reply),
    ensures
        step.successor(reply) is OpenStaging ==> step is Copy && reply is Done,
        step.successor(reply) is CheckStaging ==> step is OpenStaging && (
        reply matches Reply::Opened(o) && o != OpenOutcome::Created),
        step.successor(reply) is TidyStagingWal ==> step is CheckStaging && reply is Done,
        step.successor(reply) is TidyStagingShm ==> step is TidyStagingWal,
        step.successor(reply) is AskBase ==> step is TidyStagingShm,
        step.successor(reply) is ClearSafety ==> step is ClearSafety || step is AskBase,
        step.successor(reply) is OpenBase ==> step is ClearSafety,
        step.successor(reply) is Mark ==> step is AskBase || step is TidySafetyShm,
        step.successor(reply) is DropBase ==> step is DropBase || (step is Mark && reply is Done),
        step.successor(reply) is Promote ==> step is DropBase || (step is Mark && reply is Done),
        step.successor(reply) == RestoreStep::Over(Ok(())) ==> step is DropSafety,
{
}

/// The live database is not dropped before a snapshot of it was saved and opened: with a live
/// database the swap is reached only by way of the safety copy.
pub proof fn law_live_data_is_saved_before_the_swap(step: RestoreStep, reply: Reply)
    requires
        answers(step.requested(), reply),
    ensures
        step is AskBase && reply == Reply::Present(true) ==> step.successor(reply)
            == RestoreStep::ClearSafety(Part::Main),
        step.successor(reply) is SaveSafety ==> step is OpenBase && reply is Opened,
        step.successor(reply) is OpenSafety ==> step is SaveSafety && reply is Done,
        step.successor(reply) is TidySafetyWal ==> step is OpenSafety && reply is Opened,
        step.successor(reply) is TidySafetyShm ==> step is TidySafetyWal,
        step.successor(reply) == (RestoreStep::Mark { had_base: true }) ==> step is TidySafetyShm,
        step.successor(reply) == (RestoreStep::Mark { had_base: false }) ==> step is AskBase
            && reply == Reply::Present(false),
        step matches RestoreStep::Mark { had_base } ==> reply is Done ==> (had_base
            ==> step.successor(reply) is DropBase) && (!had_base ==> step.successor(
            reply,
        ) is Promote),
{
}

/// A failure is reported in the words it came with: of the file or database operation that
/// failed, or that the backup is none.
pub proof fn law_restore_failures_keep_their_words(step: RestoreStep, e: DbError)
    requires
        answers(step.requested(), Reply::Failed(e)),
    ensures
        step is Copy || step is OpenBase || step is SaveSafety || step is OpenSafety || step is Mark
            || step is Promote ==> step.successor(Reply::Failed(e)) == RestoreStep::Over(
            Err(Failure::Reported(e)),
        ),
        step is OpenStaging || step is CheckStaging ==> step.successor(Reply::Failed(e))
            == RestoreStep::Reject(Part::Main, Failure::Reported(e)),
        RestoreStep::OpenStaging.successor(Reply::Opened(OpenOutcome::Created))
            == RestoreStep::Reject(Part::Main, Failure::NotABackup),
        step matches RestoreStep::Reject(_, why) ==> (step.successor(
            Reply::Failed(e),
        ) matches RestoreStep::Over(r) ==> r == Err::<(), Failure>(why)),
        Failure::Reported(e).text() == e.message@,
        Failure::NotABackup.text() == "backup file is not a recognizable SimpleTally database"@,
{
}

/// What the steps ask for is about the files they are named for.
pub proof fn law_steps_ask_for_their_files(part: Part)
    ensures
        RestoreStep::Copy.requested() == Action::CopyBackup,
        RestoreStep::OpenStaging.requested() == Action::Open(Slot::Staging),
        RestoreStep::CheckStaging.requested() == Action::CheckStaging,
        RestoreStep::OpenBase.requested() == Action::Open(Slot::Base),
        RestoreStep::SaveSafety.requested() == Action::SaveSafety,
        RestoreStep::OpenSafety.requested() == Action::Open(Slot::Safety),
        (RestoreStep::Mark { had_base: true }).requested() == Action::WriteMarker,
        RestoreStep::Promote.requested() == Action::Rename(Slot::Staging, Slot::Base),
        RecoverStep::Promote.requested() == Action::Rename(Slot::Staging, Slot::Base),
        RecoverStep::FallBack.requested() == Action::Rename(Slot::Safety, Slot::Base),
        RestoreStep::DropBase(Part::Main).requested() == Action::Remove(
            FileId::Database(Slot::Base, Part::Main),
        ),
        removal(Slot::Staging, part) == Action::Remove(FileId::Database(Slot::Staging, part))
            || removal(Slot::Staging, part) == Action::Discard(
            FileId::Database(Slot::Staging, part),
        ),
        part_after(Part::Main) == Some(Part::Wal),
        part_after(Part::Wal) == Some(Part::Shm),
        part_after(Part::Shm) is None,
{
}

/// Only the failure to remove the database file itself ends a removal; its companions follow in
/// turn, and a companion that stays behind holds nothing up.
pub proof fn law_companions_do_not_hold_a_removal_up(part: Part, e: DbError, reply: Reply)
    ensures
        removal_failed(Part::Main, Reply::Failed(e)),
        !removal_failed(Part::Main, Reply::Done),
        !removal_failed(Part::Wal, reply),
        !removal_failed(Part::Shm, reply),
        part_after(Part::Main) == Some(Part::Wal),
        part_after(Part::Wal) == Some(Part::Shm),
        part_after(Part::Shm) is None,
{
}

/// A question is answered by whether the file is there, opening by what was opened or by a failure,
/// and everything else by its success or by a failure. Nothing answers a stop.
pub proof fn law_every_action_has_its_answers(action: Action, reply: Reply)
    ensures
        action is Ask ==> (answers(action, reply) <==> reply is Present),
        action is Open ==> (answers(action, reply) <==> reply is Opened || reply is Failed),
        action is Stop ==> !answers(action, reply),
        !(action is Ask) && !(action is Open) && !(action is Stop) ==> (answers(action, reply)
            <==> reply is Done || reply is Failed),
{
}

/// An interrupted swap is finished: the checked copy takes the place of what is there, the saved
/// data comes back where neither is left, and the marker goes last. Without a marker nothing of
/// the live database is touched, and only leftovers are cleared.
pub proof fn law_recovery_finishes_the_swap(e: DbError)
    ensures
        RecoverStep::AskMarker.successor(Reply::Present(true)) == RecoverStep::AskBase,
        RecoverStep::AskMarker.successor(Reply::Present(false)) == RecoverStep::ClearStaging(
            Part::Main,
        ),
        RecoverStep::AskBase.successor(Reply::Present(true)) == (RecoverStep::AskStaging {
            base: true,
        }),
        RecoverStep::AskBase.successor(Reply::Present(false)) == (RecoverStep::AskStaging {
            base: false,
        }),
        (RecoverStep::AskStaging { base: true }).successor(Reply::Present(true))
            == RecoverStep::DropBase(Part::Main),
        (RecoverStep::AskStaging { base: true }).successor(Reply::Present(false))
            == RecoverStep::DropMarker,
        (RecoverStep::AskStaging { base: false }).successor(Reply::Present(true))
            == RecoverStep::Promote,
        (RecoverStep::AskStaging { base: false }).successor(Reply::Present(false))
            == RecoverStep::AskSafety,
        RecoverStep::AskSafety.successor(Reply::Present(true)) == RecoverStep::FallBack,
        RecoverStep::AskSafety.successor(Reply::Present(false)) == RecoverStep::DropMarker,
        RecoverStep::Promote.successor(Reply::Done) == RecoverStep::DropMarker,
        RecoverStep::FallBack.successor(Reply::Done) == RecoverStep::DropMarker,
        RecoverStep::Promote.successor(Reply::Failed(e)) == RecoverStep::Over(
            Err(Failure::Reported(e)),
        ),
        RecoverStep::FallBack.successor(Reply::Failed(e)) == RecoverStep::Over(
            Err(Failure::Reported(e)),
        ),
        RecoverStep::DropBase(Part::Main).successor(Reply::Failed(e)) == RecoverStep::Over(
            Err(Failure::Reported(e)),
        ),
        RecoverStep::DropBase(Part::Main).successor(Reply::Done) == RecoverStep::DropBase(Part::Wal),
        RecoverStep::DropBase(Part::Shm).successor(Reply::Done) == RecoverStep::Promote,
        RecoverStep::ClearStaging(Part::Main).successor(Reply::Failed(e))
            == RecoverStep::ClearSafety(Part::Main),
        RecoverStep::ClearStaging(Part::Shm).successor(Reply::Done) == RecoverStep::ClearSafety(
            Part::Main,
        ),
        RecoverStep::ClearSafety(Part::Main).successor(Reply::Failed(e)) == RecoverStep::Over(
            Ok(()),
        ),
        RecoverStep::ClearSafety(Part::Shm).successor(Reply::Done) == RecoverStep::Over(Ok(())),
{
}

} // verus!
