//! Looking for databases left behind by earlier versions.
//!
//! The search only says which files are there. It never collapses several candidates into one:
//! starting afresh beside a database the user thought was loaded is the worst outcome, so every
//! candidate is reported and the user is asked.
use vstd::prelude::*;

use crate::path::FilePath;

verus! {

/// A database file that was found in one of the searched directories.
#[derive(Debug)]
pub struct Probe {
    /// The file's path as it was searched for.
    pub path: FilePath,
    /// The path with its components spelled in one way, for comparing.
    pub spelled: FilePath,
    /// The canonical path, unless the file system could not give one.
    pub canonical: Option<FilePath>,
}

/// The result of scanning for databases at startup.
#[derive(Debug)]
pub struct DiscoveryResult {
    /// The database beside the executable, if it exists (the normal case).
    pub beside_exe: Option<FilePath>,
    /// Other databases that were found, without the one beside the executable. If `beside_exe`
    /// is `None` and this is not empty, the user has to be asked which one to load.
    pub other_candidates: Vec<FilePath>,
}

impl Probe {
    /// What tells two files apart: the canonical path, or the spelled one without it.
    pub open spec fn key(self) -> Seq<u16> {
        match self.canonical {
            Some(c) => c@,
            None => self.spelled@,
        }
    }

    fn has_key_of(&self, other: &Probe) -> (r: bool)
        ensures
            r == (self.key() == other.key()),
    {
        match (&self.canonical, &other.canonical) {
            (Some(a), Some(b)) => a.same_as(b),
            (Some(a), None) => a.same_as(&other.spelled),
            (None, Some(b)) => self.spelled.same_as(b),
            (None, None) => self.spelled.same_as(&other.spelled),
        }
    }
}

/// Whether `p` is the database beside the executable, reached by another way.
pub open spec fn is_beside(beside: Option<Probe>, p: Probe) -> bool {
    beside matches Some(b) && b.canonical matches Some(c) && c@ == p.key()
}

/// Whether the `i`-th directory gives a candidate: it holds a database that is not the one
/// beside the executable and that no earlier directory gave.
pub open spec fn is_candidate(beside: Option<Probe>, found: Seq<Option<Probe>>, i: int) -> bool {
    &&& 0 <= i < found.len()
    &&& found[i] matches Some(p)
    &&& !is_beside(beside, p)
    &&& forall|j: int| 0 <= j < i && #[trigger] found[j] is Some ==> found[j]->0.key() != p.key()
}

/// The paths of the candidates among the first `n` directories, in order.
pub open spec fn candidate_paths(
    beside: Option<Probe>,
    found: Seq<Option<Probe>>,
    n: int,
) -> Seq<Seq<u16>>
    decreases n,
{
    if n <= 0 {
        Seq::empty()
    } else if is_candidate(beside, found, n - 1) {
        candidate_paths(beside, found, n - 1).push(found[n - 1]->0.path@)
    } else {
        candidate_paths(beside, found, n - 1)
    }
}

/// The paths a list of file paths spells.
pub open spec fn spelled_paths(paths: Seq<FilePath>) -> Seq<Seq<u16>> {
    Seq::new(paths.len(), |i: int| paths[i]@)
}

fn beside_is(beside: &Option<Probe>, p: &Probe) -> (r: bool)
    ensures
        r == is_beside(*beside, *p),
{
    match beside {
        Some(b) => match &b.canonical {
            Some(c) => match &p.canonical {
                Some(d) => c.same_as(d),
                None => c.same_as(&p.spelled),
            },
            None => false,
        },
        None => false,
    }
}

/// Sorts out what was found beside the executable and, in order, in each further directory
/// (`None` where a directory does not exist or holds no database).
pub fn discover(beside: Option<Probe>, found: &[Option<Probe>]) -> (r: DiscoveryResult)
    ensures
        match (r.beside_exe, beside) {
            (Some(a), Some(b)) => a@ == b.path@,
            (None, None) => true,
            _ => false,
        },
        spelled_paths(r.other_candidates@) == candidate_paths(beside, found@, found@.len() as int),
{
    let mut other_candidates: Vec<FilePath> = Vec::new();
    for i in 0..found.len()
        invariant
            spelled_paths(other_candidates@) == candidate_paths(beside, found@, i as int),
    {
        if let Some(p) = &found[i] {
            let mut fresh = !beside_is(&beside, p);
            for j in 0..i
                invariant
                    0 <= i < found@.len(),
                    found@[i as int] == Some(*p),
                    fresh == (!is_beside(beside, *p) && forall|k: int|
                        0 <= k < j && #[trigger] found@[k] is Some ==> found@[k]->0.key()
                            != p.key()),
            {
                if let Some(q) = &found[j] {
                    if q.has_key_of(p) {
                        fresh = false;
                    }
                }
            }
            if fresh {
                other_candidates.push(p.path.copy());
                assert(spelled_paths(other_candidates@) =~= candidate_paths(
                    beside,
                    found@,
                    i as int,
                ).push(p.path@));
            }
        }
    }
    let beside_exe = match &beside {
        Some(b) => Some(b.path.copy()),
        None => None,
    };
    DiscoveryResult { beside_exe, other_candidates }
}

/// Every database that was found is accounted for: it is the one beside the executable, or a
/// candidate is the same file.
pub proof fn law_no_database_is_lost(beside: Option<Probe>, found: Seq<Option<Probe>>, i: int)
    requires
        0 <= i < found.len(),
        found[i] is Some,
    ensures
        is_beside(beside, found[i]->0) || exists|j: int|
            0 <= j <= i && #[trigger] is_candidate(beside, found, j) && found[j]->0.key()
                == found[i]->0.key(),
    decreases i,
{
    if !is_candidate(beside, found, i) && !is_beside(beside, found[i]->0) {
        let j = choose|j: int|
            0 <= j < i && #[trigger] found[j] is Some && found[j]->0.key() == found[i]->0.key();
        law_no_database_is_lost(beside, found, j);
    }
}

/// No file is offered twice, and the one beside the executable is not offered again.
pub proof fn law_candidates_are_different_files(
    beside: Option<Probe>,
    found: Seq<Option<Probe>>,
    i: int,
    j: int,
)
    requires
        is_candidate(beside, found, i),
        is_candidate(beside, found, j),
        i != j,
    ensures
        found[i]->0.key() != found[j]->0.key(),
        !is_beside(beside, found[i]->0),
{
}

/// Databases that are all different files are all listed, none picked over another.
pub proof fn law_different_databases_are_all_listed(
    beside: Option<Probe>,
    found: Seq<Option<Probe>>,
    n: int,
)
    requires
        0 <= n <= found.len(),
        forall|i: int| 0 <= i < found.len() ==> #[trigger] found[i] is Some,
        forall|i: int| 0 <= i < found.len() ==> !is_beside(beside, (#[trigger] found[i])->0),
        forall|i: int, j: int|
            0 <= i < j < found.len() ==> (#[trigger] found[i])->0.key() != (
            #[trigger] found[j])->0.key(),
    ensures
        candidate_paths(beside, found, n) == Seq::new(n as nat, |i: int| found[i]->0.path@),
    decreases n,
{
    if n > 0 {
        law_different_databases_are_all_listed(beside, found, n - 1);
        assert(is_candidate(beside, found, n - 1)) by {
            assert(found[n - 1] is Some);
        }
        assert(candidate_paths(beside, found, n) =~= Seq::new(
            n as nat,
            |i: int| found[i]->0.path@,
        ));
    }
}

/// A file is known by where it really is, and by how its path is spelled only where that cannot
/// be found out: two ways to the same place are the same file.
pub proof fn law_files_are_known_by_their_place(a: Probe, b: Probe)
    ensures
        a.canonical is Some && b.canonical is Some ==> (a.key() == b.key() <==> a.canonical->0@
            == b.canonical->0@),
        a.canonical is None && b.canonical is None ==> (a.key() == b.key() <==> a.spelled@
            == b.spelled@),
        is_beside(Some(a), b) && b.canonical is Some ==> a.canonical is Some && a.canonical->0@
            == b.canonical->0@,
        a.canonical is Some && b.canonical is Some && a.canonical->0@ == b.canonical->0@
            ==> is_beside(Some(a), b),
        !is_beside(None, b),
{
}

/// Candidates are listed in the order of the directories, each under the path it was found by,
/// and nothing else is listed.
pub proof fn law_candidates_are_listed_in_order(
    beside: Option<Probe>,
    found: Seq<Option<Probe>>,
    n: int,
)
    requires
        0 <= n < found.len(),
    ensures
        is_candidate(beside, found, n) ==> candidate_paths(beside, found, n + 1)
            == candidate_paths(beside, found, n).push(found[n]->0.path@),
        !is_candidate(beside, found, n) ==> candidate_paths(beside, found, n + 1)
            == candidate_paths(beside, found, n),
        candidate_paths(beside, found, 0).len() == 0,
        found[n] is None ==> !is_candidate(beside, found, n),
        is_candidate(beside, found, n) ==> !is_beside(beside, found[n]->0),
{
}

} // verus!
