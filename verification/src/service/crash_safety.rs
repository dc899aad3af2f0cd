//! What an interruption can do to the files of a restore.
//!
//! The disk is modelled as a map from files to the data they hold, and every action by the
//! changes it may make, failures included. The laws below say that the live data survives an
//! interruption at any point of a restore or of a recovery.
use vstd::prelude::*;

use crate::service::restore::{
    self, Action, FileId, Part, RecoverStep, Reply, RestoreStep, Slot,
};

verus! {

/// The files that exist, each with a number that stands for the data it holds.
pub type Disk = Map<FileId, int>;

/// The data in the database file of a slot, if there is one.
pub open spec fn data(disk: Disk, slot: Slot) -> Option<int> {
    if disk.contains_key(FileId::Database(slot, Part::Main)) {
        Some(disk[FileId::Database(slot, Part::Main)])
    } else {
        None
    }
}

pub open spec fn marked(disk: Disk) -> bool {
    disk.contains_key(FileId::Marker)
}

/// `after` differs from `before` at most in the write-ahead companions of `slot`.
pub open spec fn only_companions_differ(before: Disk, after: Disk, slot: Slot) -> bool {
    forall|f: FileId|
        #![trigger after.contains_key(f)]
        #![trigger before.contains_key(f)]
        f != FileId::Database(slot, Part::Wal) && f != FileId::Database(slot, Part::Shm) ==> (
        before.contains_key(f) == after.contains_key(f) && (before.contains_key(f) ==> before[f]
            == after[f]))
}

/// `after` is what `action` may leave of `before` when it is answered by `reply` and the
/// backup holds `backup`. An action that fails may have been carried out in part.
pub open spec fn effect(action: Action, reply: Reply, before: Disk, after: Disk, backup: int) -> bool {
    match action {
        Action::Ask(f) => after == before && reply == Reply::Present(before.contains_key(f)),
        Action::Remove(f) | Action::Discard(f) => after == (if reply is Done {
            before.remove(f)
        } else {
            before
        }),
        Action::CopyBackup => {
            let staging = FileId::Database(Slot::Staging, Part::Main);
            if reply is Done {
                after == before.insert(staging, backup)
            } else {
                after == before || exists|part: int| after == #[trigger] before.insert(staging, part)
            }
        },
        Action::Open(slot) => only_companions_differ(before, after, slot),
        Action::CheckStaging => only_companions_differ(before, after, Slot::Staging),
        Action::SaveSafety => {
            let safety = FileId::Database(Slot::Safety, Part::Main);
            exists|mid: Disk|
                {
                    &&& #[trigger] only_companions_differ(before, mid, Slot::Base)
                    &&& if reply is Done {
                        after == mid.insert(
                            safety,
                            before[FileId::Database(Slot::Base, Part::Main)],
                        )
                    } else {
                        after == mid || exists|part: int| after == #[trigger] mid.insert(safety, part)
                    }
                }
        },
        Action::WriteMarker => if reply is Done {
            after == before.insert(FileId::Marker, 0)
        } else {
            after == before || after == before.insert(FileId::Marker, 0)
        },
        Action::Rename(from, to) => {
            let old_name = FileId::Database(from, Part::Main);
            let new_name = FileId::Database(to, Part::Main);
            if reply is Done {
                before.contains_key(old_name) && after == before.remove(old_name).insert(
                    new_name,
                    before[old_name],
                )
            } else {
                after == before
            }
        },
        Action::Stop => false,
    }
}

/// The live data can still be had: it is `live` or the backup, or a recovery makes it so.
pub open spec fn recoverable(disk: Disk, live: Option<int>, backup: int) -> bool {
    let base = data(disk, Slot::Base);
    if !marked(disk) {
        base == live || base == Some(backup)
    } else {
        match data(disk, Slot::Staging) {
            Some(staged) => staged == backup && (base == live || base is None),
            None => base == Some(backup) || (live is Some && (base == live || (base is None && data(
                disk,
                Slot::Safety,
            ) == live))),
        }
    }
}

/// Nothing has happened to the live database.
pub open spec fn untouched(disk: Disk, live: Option<int>) -> bool {
    !marked(disk) && data(disk, Slot::Base) == live
}

/// The step comes before the swap of the files.
pub open spec fn before_swap(step: RestoreStep) -> bool {
    match step {
        RestoreStep::Recover(_) | RestoreStep::ClearStaging(_) | RestoreStep::Copy
        | RestoreStep::OpenStaging | RestoreStep::CheckStaging | RestoreStep::Reject(_, _) | RestoreStep::TidyStagingWal
        | RestoreStep::TidyStagingShm | RestoreStep::AskBase | RestoreStep::ClearSafety(_)
        | RestoreStep::OpenBase | RestoreStep::SaveSafety | RestoreStep::OpenSafety
        | RestoreStep::TidySafetyWal | RestoreStep::TidySafetyShm => true,
        _ => false,
    }
}

/// What holds of the disk when a restore of `backup` over `live` has come to `step`, where no
/// earlier swap was under way.
pub open spec fn reached(step: RestoreStep, disk: Disk, live: Option<int>, backup: int) -> bool {
    let base = data(disk, Slot::Base);
    let staging = data(disk, Slot::Staging);
    match step {
        RestoreStep::Recover(r) => untouched(disk, live) && (r is AskMarker || r is ClearStaging
            || r is ClearSafety),
        RestoreStep::ClearStaging(_) | RestoreStep::Copy | RestoreStep::Reject(_, _) => untouched(
            disk,
            live,
        ),
        RestoreStep::OpenStaging | RestoreStep::CheckStaging | RestoreStep::TidyStagingWal
        | RestoreStep::TidyStagingShm | RestoreStep::AskBase => untouched(disk, live) && staging
            == Some(backup),
        RestoreStep::ClearSafety(_) | RestoreStep::OpenBase | RestoreStep::SaveSafety => untouched(
            disk,
            live,
        ) && staging == Some(backup) && live is Some,
        RestoreStep::OpenSafety | RestoreStep::TidySafetyWal | RestoreStep::TidySafetyShm => {
            untouched(disk, live) && staging == Some(backup) && live is Some && data(
                disk,
                Slot::Safety,
            ) == live
        },
        RestoreStep::Mark { had_base } => untouched(disk, live) && staging == Some(backup)
            && had_base == (live is Some),
        RestoreStep::DropBase(part) => marked(disk) && staging == Some(backup) && base == (
        if part == Part::Main {
            live
        } else {
            None
        }),
        RestoreStep::Promote => marked(disk) && staging == Some(backup) && base is None,
        RestoreStep::DropMarker | RestoreStep::DropSafety => base == Some(backup)
            && staging is None,
        RestoreStep::Over(r) => match r {
            Ok(_) => base == Some(backup) && staging is None,
            Err(_) => recoverable(disk, live, backup),
        },
    }
}

/// One step of a restore leads to what holds at the next step.
proof fn lemma_restore_step(
    step: RestoreStep,
    reply: Reply,
    before: Disk,
    after: Disk,
    live: Option<int>,
    backup: int,
)
    requires
        reached(step, before, live, backup),
        restore::answers(step.requested(), reply),
        effect(step.requested(), reply, before, after, backup),
    ensures
        reached(step.successor(reply), after, live, backup),
        before_swap(step) ==> untouched(after, live),
{
}

/// A run of a restore: `steps[i]` is reached with the files as in `disks[i]`, and `replies[i]`
/// is how its action went.
pub open spec fn restore_run(
    steps: Seq<RestoreStep>,
    disks: Seq<Disk>,
    replies: Seq<Reply>,
    backup: int,
) -> bool {
    &&& steps.len() == replies.len() + 1
    &&& disks.len() == steps.len()
    &&& forall|i: int|
        #![trigger replies[i]]
        0 <= i < replies.len() ==> {
            &&& restore::answers(steps[i].requested(), replies[i])
            &&& steps[i + 1] == steps[i].successor(replies[i])
            &&& effect(steps[i].requested(), replies[i], disks[i], disks[i + 1], backup)
        }
}

proof fn lemma_restore_run(
    steps: Seq<RestoreStep>,
    disks: Seq<Disk>,
    replies: Seq<Reply>,
    backup: int,
    k: int,
)
    requires
        restore_run(steps, disks, replies, backup),
        steps[0] == RestoreStep::Recover(RecoverStep::AskMarker),
        !marked(disks[0]),
        0 <= k < steps.len(),
    ensures
        reached(steps[k], disks[k], data(disks[0], Slot::Base), backup),
    decreases k,
{
    if k > 0 {
        lemma_restore_run(steps, disks, replies, backup, k - 1);
        let r = replies[k - 1];
        lemma_restore_step(
            steps[k - 1],
            r,
            disks[k - 1],
            disks[k],
            data(disks[0], Slot::Base),
            backup,
        );
    }
}

/// However far a restore gets, and whatever fails on the way, the files it leaves at any
/// point are recoverable: an interruption costs neither the live data nor, once the swap has
/// begun, the backup.
pub proof fn law_restore_is_recoverable_at_every_point(
    steps: Seq<RestoreStep>,
    disks: Seq<Disk>,
    replies: Seq<Reply>,
    backup: int,
    k: int,
)
    requires
        restore_run(steps, disks, replies, backup),
        steps[0] == RestoreStep::Recover(RecoverStep::AskMarker),
        !marked(disks[0]),
        0 <= k < steps.len(),
    ensures
        recoverable(disks[k], data(disks[0], Slot::Base), backup),
{
    lemma_restore_run(steps, disks, replies, backup, k);
}

/// As long as the swap has not begun, the live database is untouched, also when the restore
/// fails there.
pub proof fn law_failure_before_the_swap_leaves_live_untouched(
    steps: Seq<RestoreStep>,
    disks: Seq<Disk>,
    replies: Seq<Reply>,
    backup: int,
    k: int,
)
    requires
        restore_run(steps, disks, replies, backup),
        steps[0] == RestoreStep::Recover(RecoverStep::AskMarker),
        !marked(disks[0]),
        0 <= k < replies.len(),
        before_swap(steps[k]),
    ensures
        untouched(disks[k], data(disks[0], Slot::Base)),
        untouched(disks[k + 1], data(disks[0], Slot::Base)),
{
    lemma_restore_run(steps, disks, replies, backup, k);
    let r = replies[k];
    lemma_restore_step(steps[k], r, disks[k], disks[k + 1], data(disks[0], Slot::Base), backup);
}

/// A restore that ends well leaves the data of the backup in the live database.
pub proof fn law_restore_puts_the_backup_live(
    steps: Seq<RestoreStep>,
    disks: Seq<Disk>,
    replies: Seq<Reply>,
    backup: int,
)
    requires
        restore_run(steps, disks, replies, backup),
        steps[0] == RestoreStep::Recover(RecoverStep::AskMarker),
        !marked(disks[0]),
        steps.last() == RestoreStep::Over(Ok(())),
    ensures
        data(disks.last(), Slot::Base) == Some(backup),
        data(disks.last(), Slot::Staging) is None,
{
    lemma_restore_run(steps, disks, replies, backup, steps.len() - 1);
}

// --- recovery ---

/// What holds of the disk when a recovery has come to `step`.
pub open spec fn recovery_reached(
    step: RecoverStep,
    disk: Disk,
    live: Option<int>,
    backup: int,
) -> bool {
    let base = data(disk, Slot::Base);
    let staging = data(disk, Slot::Staging);
    &&& recoverable(disk, live, backup)
    &&& match step {
        RecoverStep::AskMarker => true,
        RecoverStep::ClearStaging(_) | RecoverStep::ClearSafety(_) => !marked(disk),
        RecoverStep::AskBase => marked(disk),
        RecoverStep::AskStaging { base: b } => marked(disk) && b == (base is Some),
        RecoverStep::DropBase(part) => marked(disk) && staging == Some(backup) && (part
            != Part::Main ==> base is None),
        RecoverStep::Promote => marked(disk) && staging == Some(backup) && base is None,
        RecoverStep::AskSafety => marked(disk) && staging is None && base is None,
        RecoverStep::FallBack => marked(disk) && staging is None && base is None && data(
            disk,
            Slot::Safety,
        ) == live,
        RecoverStep::DropMarker | RecoverStep::DropSafety | RecoverStep::TidyWal
        | RecoverStep::TidyShm => base is Some && (base == live || base == Some(backup))
            && staging is None,
        RecoverStep::Over(r) => r is Ok ==> (base == live || base == Some(backup)),
    }
}

proof fn lemma_recovery_step(
    step: RecoverStep,
    reply: Reply,
    before: Disk,
    after: Disk,
    live: Option<int>,
    backup: int,
)
    requires
        recovery_reached(step, before, live, backup),
        restore::answers(step.requested(), reply),
        effect(step.requested(), reply, before, after, backup),
    ensures
        recovery_reached(step.successor(reply), after, live, backup),
{
}

/// A run of a recovery, as [`restore_run`] is one of a restore.
pub open spec fn recovery_run(
    steps: Seq<RecoverStep>,
    disks: Seq<Disk>,
    replies: Seq<Reply>,
) -> bool {
    &&& steps.len() == replies.len() + 1
    &&& disks.len() == steps.len()
    &&& steps[0] == RecoverStep::AskMarker
    &&& forall|i: int|
        #![trigger replies[i]]
        0 <= i < replies.len() ==> {
            &&& restore::answers(steps[i].requested(), replies[i])
            &&& steps[i + 1] == steps[i].successor(replies[i])
            &&& effect(steps[i].requested(), replies[i], disks[i], disks[i + 1], 0)
        }
}

/// No step of a recovery looks at a backup.
proof fn lemma_recovery_ignores_backup(
    step: RecoverStep,
    reply: Reply,
    before: Disk,
    after: Disk,
    a: int,
    b: int,
)
    requires
        effect(step.requested(), reply, before, after, a),
    ensures
        effect(step.requested(), reply, before, after, b),
{
}

proof fn lemma_recovery_run(
    steps: Seq<RecoverStep>,
    disks: Seq<Disk>,
    replies: Seq<Reply>,
    live: Option<int>,
    backup: int,
    k: int,
)
    requires
        recovery_run(steps, disks, replies),
        recoverable(disks[0], live, backup),
        0 <= k < steps.len(),
    ensures
        recovery_reached(steps[k], disks[k], live, backup),
    decreases k,
{
    if k > 0 {
        lemma_recovery_run(steps, disks, replies, live, backup, k - 1);
        let r = replies[k - 1];
        lemma_recovery_ignores_backup(steps[k - 1], r, disks[k - 1], disks[k], 0, backup);
        lemma_recovery_step(steps[k - 1], r, disks[k - 1], disks[k], live, backup);
    }
}

/// A recovery can itself be interrupted anywhere: the files stay recoverable, and once it
/// ends well the live database holds the old data or the backup, whole.
pub proof fn law_recovery_restores_the_live_database(
    steps: Seq<RecoverStep>,
    disks: Seq<Disk>,
    replies: Seq<Reply>,
    live: Option<int>,
    backup: int,
    k: int,
)
    requires
        recovery_run(steps, disks, replies),
        recoverable(disks[0], live, backup),
        0 <= k < steps.len(),
    ensures
        recoverable(disks[k], live, backup),
        steps[k] == RecoverStep::Over(Ok(())) ==> data(disks[k], Slot::Base) == live || data(
            disks[k],
            Slot::Base,
        ) == Some(backup),
{
    lemma_recovery_run(steps, disks, replies, live, backup, k);
}

// --- a restore over an interrupted swap ---

/// The data that was live or about to go live can still be had: a swap of `earlier` over `live`
/// is recoverable, or it is over and a restore of `backup` over what it left is.
pub open spec fn survives(disk: Disk, live: Option<int>, earlier: int, backup: int) -> bool {
    recoverable(disk, live, earlier) || exists|left: Option<int>|
        (left == live || left == Some(earlier)) && #[trigger] recoverable(disk, left, backup)
}

/// What holds of the disk when a restore that found a swap of `earlier` over `live` under way
/// has come to `step`, as long as the marker goes when it is to be removed.
spec fn reached_over(
    step: RestoreStep,
    disk: Disk,
    live: Option<int>,
    earlier: int,
    backup: int,
) -> bool {
    match step {
        RestoreStep::Recover(r) => {
            &&& recovery_reached(r, disk, live, earlier)
            &&& (r is DropSafety || r is TidyWal || r is TidyShm) ==> !marked(disk)
            &&& !(r is Over)
        },
        _ => {
            ||| step is Over && step->Over_0 is Err && recoverable(disk, live, earlier)
            ||| exists|left: Option<int>|
                (left == live || left == Some(earlier)) && #[trigger] reached(
                    step,
                    disk,
                    left,
                    backup,
                )
        },
    }
}

proof fn lemma_step_over(
    step: RestoreStep,
    reply: Reply,
    before: Disk,
    after: Disk,
    live: Option<int>,
    earlier: int,
    backup: int,
)
    requires
        reached_over(step, before, live, earlier, backup),
        restore::answers(step.requested(), reply),
        effect(step.requested(), reply, before, after, backup),
        step == RestoreStep::Recover(RecoverStep::DropMarker) ==> reply is Done,
    ensures
        reached_over(step.successor(reply), after, live, earlier, backup),
{
    match step {
        RestoreStep::Recover(r) => {
            lemma_recovery_ignores_backup(r, reply, before, after, backup, earlier);
            lemma_recovery_step(r, reply, before, after, live, earlier);
            let left = data(after, Slot::Base);
            if r.successor(reply) == RecoverStep::Over(Ok(())) {
                assert(reached(step.successor(reply), after, left, backup));
            }
        },
        _ => {
            let left = choose|left: Option<int>|
                (left == live || left == Some(earlier)) && #[trigger] reached(
                    step,
                    before,
                    left,
                    backup,
                );
            lemma_restore_step(step, reply, before, after, left, backup);
            assert(reached(step.successor(reply), after, left, backup));
        },
    }
}

proof fn lemma_run_over(
    steps: Seq<RestoreStep>,
    disks: Seq<Disk>,
    replies: Seq<Reply>,
    live: Option<int>,
    earlier: int,
    backup: int,
    k: int,
)
    requires
        restore_run(steps, disks, replies, backup),
        steps[0] == RestoreStep::Recover(RecoverStep::AskMarker),
        recoverable(disks[0], live, earlier),
        forall|i: int|
            0 <= i < replies.len() && steps[i] == RestoreStep::Recover(RecoverStep::DropMarker)
                ==> #[trigger] replies[i] is Done,
        0 <= k < steps.len(),
    ensures
        reached_over(steps[k], disks[k], live, earlier, backup),
    decreases k,
{
    if k > 0 {
        lemma_run_over(steps, disks, replies, live, earlier, backup, k - 1);
        let r = replies[k - 1];
        lemma_step_over(steps[k - 1], r, disks[k - 1], disks[k], live, earlier, backup);
    }
}

/// A restore that finds an earlier swap under way finishes or reverses it first, and costs no
/// data at any point either, as long as the marker goes when it is to be removed.
pub proof fn law_restore_over_an_interrupted_swap(
    steps: Seq<RestoreStep>,
    disks: Seq<Disk>,
    replies: Seq<Reply>,
    live: Option<int>,
    earlier: int,
    backup: int,
    k: int,
)
    requires
        restore_run(steps, disks, replies, backup),
        steps[0] == RestoreStep::Recover(RecoverStep::AskMarker),
        recoverable(disks[0], live, earlier),
        forall|i: int|
            0 <= i < replies.len() && steps[i] == RestoreStep::Recover(RecoverStep::DropMarker)
                ==> #[trigger] replies[i] is Done,
        0 <= k < steps.len(),
    ensures
        survives(disks[k], live, earlier, backup),
        steps[k] == RestoreStep::Over(Ok(())) ==> data(disks[k], Slot::Base) == Some(backup),
{
    lemma_run_over(steps, disks, replies, live, earlier, backup, k);
    match steps[k] {
        RestoreStep::Recover(_) => {},
        _ => {
            if !recoverable(disks[k], live, earlier) || steps[k] == RestoreStep::Over(Ok(())) {
                let left = choose|left: Option<int>|
                    (left == live || left == Some(earlier)) && #[trigger] reached(
                        steps[k],
                        disks[k],
                        left,
                        backup,
                    );
                assert(recoverable(disks[k], left, backup));
            }
        },
    }
}

// --- what a recovery clears away ---

/// None of the three files of a database is on disk.
pub open spec fn family_gone(disk: Disk, slot: Slot) -> bool {
    &&& !disk.contains_key(FileId::Database(slot, Part::Main))
    &&& !disk.contains_key(FileId::Database(slot, Part::Wal))
    &&& !disk.contains_key(FileId::Database(slot, Part::Shm))
}

/// Neither companion of a database is on disk.
pub open spec fn companions_gone(disk: Disk, slot: Slot) -> bool {
    &&& !disk.contains_key(FileId::Database(slot, Part::Wal))
    &&& !disk.contains_key(FileId::Database(slot, Part::Shm))
}

/// The files of a database that are removed before `part` are not on disk.
pub open spec fn gone_before(disk: Disk, slot: Slot, part: Part) -> bool {
    match part {
        Part::Main => true,
        Part::Wal => data(disk, slot) is None,
        Part::Shm => data(disk, slot) is None && !disk.contains_key(
            FileId::Database(slot, Part::Wal),
        ),
    }
}

/// What a recovery in which nothing fails has cleared away when it comes to `step`.
pub open spec fn cleared(step: RecoverStep, disk: Disk, marked_at_first: bool) -> bool {
    match step {
        RecoverStep::AskMarker => marked(disk) == marked_at_first,
        RecoverStep::ClearStaging(part) => !marked_at_first && !marked(disk) && gone_before(
            disk,
            Slot::Staging,
            part,
        ),
        RecoverStep::ClearSafety(part) => !marked_at_first && !marked(disk) && family_gone(
            disk,
            Slot::Staging,
        ) && gone_before(disk, Slot::Safety, part),
        RecoverStep::DropMarker => marked_at_first && data(disk, Slot::Staging) is None,
        RecoverStep::DropSafety => marked_at_first && data(disk, Slot::Staging) is None && !marked(
            disk,
        ),
        RecoverStep::TidyWal | RecoverStep::TidyShm => marked_at_first && !marked(disk) && data(
            disk,
            Slot::Staging,
        ) is None && data(disk, Slot::Safety) is None && (step is TidyShm ==> !disk.contains_key(
            FileId::Database(Slot::Base, Part::Wal),
        )),
        RecoverStep::AskSafety | RecoverStep::FallBack => marked_at_first && data(
            disk,
            Slot::Staging,
        ) is None,
        RecoverStep::Over(_) => {
            &&& !marked(disk)
            &&& data(disk, Slot::Staging) is None
            &&& data(disk, Slot::Safety) is None
            &&& if marked_at_first {
                companions_gone(disk, Slot::Base)
            } else {
                family_gone(disk, Slot::Staging) && family_gone(disk, Slot::Safety)
            }
        },
        _ => marked_at_first,
    }
}

proof fn lemma_clearing_step(
    step: RecoverStep,
    reply: Reply,
    before: Disk,
    after: Disk,
    marked_at_first: bool,
)
    requires
        cleared(step, before, marked_at_first),
        restore::answers(step.requested(), reply),
        !(reply is Failed),
        effect(step.requested(), reply, before, after, 0),
    ensures
        cleared(step.successor(reply), after, marked_at_first),
{
}

proof fn lemma_clearing_run(
    steps: Seq<RecoverStep>,
    disks: Seq<Disk>,
    replies: Seq<Reply>,
    k: int,
)
    requires
        recovery_run(steps, disks, replies),
        forall|i: int| 0 <= i < replies.len() ==> !(#[trigger] replies[i] is Failed),
        0 <= k < steps.len(),
    ensures
        cleared(steps[k], disks[k], marked(disks[0])),
    decreases k,
{
    if k > 0 {
        lemma_clearing_run(steps, disks, replies, k - 1);
        let r = replies[k - 1];
        lemma_clearing_step(steps[k - 1], r, disks[k - 1], disks[k], marked(disks[0]));
    }
}

/// A recovery in which nothing fails leaves no marker, no staging file and no safety copy;
/// where no swap was under way it clears their companions too. Where one was, the companions of
/// the live database belong to the file that was replaced, and they are gone.
pub proof fn law_recovery_leaves_no_sidecars(
    steps: Seq<RecoverStep>,
    disks: Seq<Disk>,
    replies: Seq<Reply>,
)
    requires
        recovery_run(steps, disks, replies),
        forall|i: int| 0 <= i < replies.len() ==> !(#[trigger] replies[i] is Failed),
        steps.last() == RecoverStep::Over(Ok(())),
    ensures
        !marked(disks.last()),
        data(disks.last(), Slot::Staging) is None,
        data(disks.last(), Slot::Safety) is None,
        !marked(disks[0]) ==> family_gone(disks.last(), Slot::Staging) && family_gone(
            disks.last(),
            Slot::Safety,
        ),
        marked(disks[0]) ==> companions_gone(disks.last(), Slot::Base),
{
    lemma_clearing_run(steps, disks, replies, steps.len() - 1);
}

// --- the result of a recovery ---

/// The data that a recovery makes live: with a swap under way the staged backup where it is
/// still there, else the live data where it still is, else the safety copy; without one the
/// live data as it is.
pub open spec fn recovered(disk: Disk) -> Option<int> {
    let base = data(disk, Slot::Base);
    if !marked(disk) {
        base
    } else {
        match (data(disk, Slot::Staging), base) {
            (Some(staged), _) => Some(staged),
            (None, Some(live)) => Some(live),
            (None, None) => data(disk, Slot::Safety),
        }
    }
}

/// What a recovery that makes `result` live has come to at `step`.
spec fn on_course(step: RecoverStep, disk: Disk, result: Option<int>) -> bool {
    let base = data(disk, Slot::Base);
    let staging = data(disk, Slot::Staging);
    &&& recovered(disk) == result
    &&& match step {
        RecoverStep::AskMarker => true,
        RecoverStep::ClearStaging(_) | RecoverStep::ClearSafety(_) => !marked(disk),
        RecoverStep::AskBase => marked(disk),
        RecoverStep::AskStaging { base: b } => marked(disk) && b == (base is Some),
        RecoverStep::DropBase(part) => marked(disk) && staging is Some && (part != Part::Main
            ==> base is None),
        RecoverStep::Promote => marked(disk) && staging is Some && base is None,
        RecoverStep::AskSafety => marked(disk) && staging is None && base is None,
        RecoverStep::FallBack => marked(disk) && staging is None && base is None && data(
            disk,
            Slot::Safety,
        ) is Some,
        RecoverStep::DropMarker | RecoverStep::DropSafety | RecoverStep::TidyWal
        | RecoverStep::TidyShm => staging is None && base == result && (base is None ==> data(
            disk,
            Slot::Safety,
        ) is None),
        RecoverStep::Over(r) => r is Ok ==> base == result,
    }
}

proof fn lemma_course_step(
    step: RecoverStep,
    reply: Reply,
    before: Disk,
    after: Disk,
    result: Option<int>,
)
    requires
        on_course(step, before, result),
        restore::answers(step.requested(), reply),
        effect(step.requested(), reply, before, after, 0),
    ensures
        on_course(step.successor(reply), after, result),
{
}

proof fn lemma_course_run(steps: Seq<RecoverStep>, disks: Seq<Disk>, replies: Seq<Reply>, k: int)
    requires
        recovery_run(steps, disks, replies),
        0 <= k < steps.len(),
    ensures
        on_course(steps[k], disks[k], recovered(disks[0])),
    decreases k,
{
    if k > 0 {
        lemma_course_run(steps, disks, replies, k - 1);
        let r = replies[k - 1];
        lemma_course_step(steps[k - 1], r, disks[k - 1], disks[k], recovered(disks[0]));
    }
}

/// What a recovery makes live depends only on the files it finds, and an interruption at any
/// point does not change it: started over from there it makes the same data live.
pub proof fn law_recovery_result_is_exact(
    steps: Seq<RecoverStep>,
    disks: Seq<Disk>,
    replies: Seq<Reply>,
    k: int,
)
    requires
        recovery_run(steps, disks, replies),
        0 <= k < steps.len(),
    ensures
        recovered(disks[k]) == recovered(disks[0]),
        steps[k] == RecoverStep::Over(Ok(())) ==> data(disks[k], Slot::Base) == recovered(disks[0]),
        !marked(disks[0]) ==> data(disks[k], Slot::Base) == data(disks[0], Slot::Base),
{
    lemma_course_run(steps, disks, replies, k);
    if !marked(disks[0]) {
        lemma_unmarked_run(steps, disks, replies, k);
    }
}

proof fn lemma_unmarked_run(
    steps: Seq<RecoverStep>,
    disks: Seq<Disk>,
    replies: Seq<Reply>,
    k: int,
)
    requires
        recovery_run(steps, disks, replies),
        !marked(disks[0]),
        0 <= k < steps.len(),
    ensures
        untouched(disks[k], data(disks[0], Slot::Base)),
        steps[k] is AskMarker || steps[k] is ClearStaging || steps[k] is ClearSafety || steps[k]
            == RecoverStep::Over(Ok(())),
        family_gone(disks[0], Slot::Staging) && family_gone(disks[0], Slot::Safety) ==> disks[k]
            == disks[0],
    decreases k,
{
    if k > 0 {
        lemma_unmarked_run(steps, disks, replies, k - 1);
        let r = replies[k - 1];
        assert(effect(steps[k - 1].requested(), r, disks[k - 1], disks[k], 0));
        if family_gone(disks[0], Slot::Staging) && family_gone(disks[0], Slot::Safety) {
            assert(disks[k] =~= disks[0]);
        }
    }
}

/// A second recovery changes nothing: the live database stays what the first has made it, even
/// where removals fail. After a first one in which nothing fails, it finds no swap under way
/// and, where no companion of the staging file or the safety copy is left, leaves every file
/// as it is.
pub proof fn law_second_recovery_changes_nothing(
    first: Seq<RecoverStep>,
    first_disks: Seq<Disk>,
    first_replies: Seq<Reply>,
    second: Seq<RecoverStep>,
    second_disks: Seq<Disk>,
    second_replies: Seq<Reply>,
    k: int,
)
    requires
        recovery_run(first, first_disks, first_replies),
        first.last() == RecoverStep::Over(Ok(())),
        recovery_run(second, second_disks, second_replies),
        second_disks[0] == first_disks.last(),
        0 <= k < second.len(),
    ensures
        second[k] == RecoverStep::Over(Ok(())) ==> data(second_disks[k], Slot::Base) == data(
            first_disks.last(),
            Slot::Base,
        ),
        (forall|i: int| 0 <= i < first_replies.len() ==> !(#[trigger] first_replies[i] is Failed))
            ==> {
            &&& untouched(second_disks[k], data(first_disks.last(), Slot::Base))
            &&& family_gone(first_disks.last(), Slot::Staging) && family_gone(
                first_disks.last(),
                Slot::Safety,
            ) ==> second_disks[k] == first_disks.last()
        },
{
    let last = first.len() - 1;
    lemma_course_run(first, first_disks, first_replies, last);
    lemma_course_run(second, second_disks, second_replies, k);
    if forall|i: int| 0 <= i < first_replies.len() ==> !(#[trigger] first_replies[i] is Failed) {
        lemma_clearing_run(first, first_disks, first_replies, last);
        lemma_unmarked_run(second, second_disks, second_replies, k);
    }
}

// --- what a restore leaves ---

/// No swap is under way and there is no safety copy, nor a companion of it unless a swap was
/// under way at first.
pub open spec fn nothing_saved(disk: Disk, marked_at_first: bool) -> bool {
    &&& !marked(disk)
    &&& data(disk, Slot::Safety) is None
    &&& !marked_at_first ==> companions_gone(disk, Slot::Safety)
}

/// What a restore in which no removal fails has left when it comes to `step`.
spec fn left_by(step: RestoreStep, disk: Disk, marked_at_first: bool) -> bool {
    let swept = companions_gone(disk, Slot::Staging) && (!marked_at_first ==> companions_gone(
        disk,
        Slot::Safety,
    ));
    match step {
        RestoreStep::Recover(r) => cleared(r, disk, marked_at_first) && !(r is Over),
        RestoreStep::ClearStaging(part) | RestoreStep::Reject(part, _) => nothing_saved(
            disk,
            marked_at_first,
        ) && gone_before(disk, Slot::Staging, part),
        RestoreStep::Copy => nothing_saved(disk, marked_at_first) && family_gone(
            disk,
            Slot::Staging,
        ),
        RestoreStep::OpenStaging | RestoreStep::CheckStaging | RestoreStep::TidyStagingWal => {
            nothing_saved(disk, marked_at_first)
        },
        RestoreStep::TidyStagingShm => nothing_saved(disk, marked_at_first) && !disk.contains_key(
            FileId::Database(Slot::Staging, Part::Wal),
        ),
        RestoreStep::AskBase => nothing_saved(disk, marked_at_first) && companions_gone(
            disk,
            Slot::Staging,
        ),
        RestoreStep::ClearSafety(part) => !marked(disk) && companions_gone(disk, Slot::Staging)
            && gone_before(disk, Slot::Safety, part),
        RestoreStep::OpenBase | RestoreStep::SaveSafety => !marked(disk) && companions_gone(
            disk,
            Slot::Staging,
        ) && family_gone(disk, Slot::Safety),
        RestoreStep::OpenSafety | RestoreStep::TidySafetyWal => !marked(disk) && companions_gone(
            disk,
            Slot::Staging,
        ),
        RestoreStep::TidySafetyShm => !marked(disk) && companions_gone(disk, Slot::Staging)
            && !disk.contains_key(FileId::Database(Slot::Safety, Part::Wal)),
        RestoreStep::Mark { had_base } => !marked(disk) && swept,
        RestoreStep::DropBase(_) | RestoreStep::Promote => swept,
        RestoreStep::DropMarker => swept && data(disk, Slot::Staging) is None,
        RestoreStep::DropSafety => swept && data(disk, Slot::Staging) is None && !marked(disk),
        RestoreStep::Over(r) => r is Ok ==> swept && data(disk, Slot::Staging) is None
            && nothing_saved(disk, marked_at_first),
    }
}

proof fn lemma_leaving_step(
    step: RestoreStep,
    reply: Reply,
    before: Disk,
    after: Disk,
    backup: int,
    marked_at_first: bool,
)
    requires
        left_by(step, before, marked_at_first),
        restore::answers(step.requested(), reply),
        step.requested() is Remove || step.requested() is Discard ==> reply is Done,
        effect(step.requested(), reply, before, after, backup),
    ensures
        left_by(step.successor(reply), after, marked_at_first),
        step is Reject && step.successor(reply) is Over ==> nothing_saved(after, marked_at_first)
            && family_gone(after, Slot::Staging),
{
    if let RestoreStep::Recover(r) = step {
        if !(reply is Failed) {
            lemma_recovery_ignores_backup(r, reply, before, after, backup, 0);
            lemma_clearing_step(r, reply, before, after, marked_at_first);
        }
    }
}

proof fn lemma_leaving_run(
    steps: Seq<RestoreStep>,
    disks: Seq<Disk>,
    replies: Seq<Reply>,
    backup: int,
    k: int,
)
    requires
        restore_run(steps, disks, replies, backup),
        steps[0] == RestoreStep::Recover(RecoverStep::AskMarker),
        no_removal_fails(steps, replies),
        0 <= k < steps.len(),
    ensures
        left_by(steps[k], disks[k], marked(disks[0])),
    decreases k,
{
    if k > 0 {
        lemma_leaving_run(steps, disks, replies, backup, k - 1);
        let r = replies[k - 1];
        lemma_leaving_step(steps[k - 1], r, disks[k - 1], disks[k], backup, marked(disks[0]));
    }
}

/// Every removal in a run succeeds.
pub open spec fn no_removal_fails(steps: Seq<RestoreStep>, replies: Seq<Reply>) -> bool {
    forall|i: int|
        0 <= i < replies.len() && (steps[i].requested() is Remove || steps[i].requested()
            is Discard) ==> #[trigger] replies[i] is Done
}

/// A restore in which no removal fails leaves only the live database where it ends well, and
/// also where the backup is refused: no marker, no staging file with its companions and no
/// safety copy; nor are there companions of a safety copy, unless an earlier swap left them.
pub proof fn law_restore_leaves_no_sidecars(
    steps: Seq<RestoreStep>,
    disks: Seq<Disk>,
    replies: Seq<Reply>,
    backup: int,
)
    requires
        restore_run(steps, disks, replies, backup),
        steps[0] == RestoreStep::Recover(RecoverStep::AskMarker),
        no_removal_fails(steps, replies),
        steps.last() == RestoreStep::Over(Ok(())) || (steps.last() is Over && steps[steps.len() - 2]
            is Reject),
    ensures
        !marked(disks.last()),
        family_gone(disks.last(), Slot::Staging),
        data(disks.last(), Slot::Safety) is None,
        !marked(disks[0]) ==> family_gone(disks.last(), Slot::Safety),
{
    let last = steps.len() - 1;
    lemma_leaving_run(steps, disks, replies, backup, last);
    if steps.last() != RestoreStep::Over(Ok(())) {
        assert(last >= 1) by {
            assert(steps[0] is Recover);
        }
        lemma_leaving_run(steps, disks, replies, backup, last - 1);
        let r = replies[last - 1];
        lemma_leaving_step(
            steps[last - 1],
            r,
            disks[last - 1],
            disks[last],
            backup,
            marked(disks[0]),
        );
    }
}

} // verus!
