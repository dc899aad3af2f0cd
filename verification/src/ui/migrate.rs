//! Bringing the data of an earlier version across: the picker of databases that were found, and
//! what became of the import.
use vstd::prelude::*;

use crate::dates::{self, DateTime};
use crate::path::FilePath;
use crate::service::discovery::Probe;
use crate::text;

verus! {

/// Whether the picker opens by itself. Only a database that was just created empty asks for it:
/// a user who already has data is never bothered, whatever else was found.
pub fn should_auto_open(created_empty: bool) -> (r: bool)
    ensures
        r == created_empty,
{
    created_empty
}

/// Whether two paths name the same file: by their canonical paths, or as they are spelled where
/// either has none.
pub open spec fn same_file(a: Probe, b: Probe) -> bool {
    match (a.canonical, b.canonical) {
        (Some(x), Some(y)) => x@ == y@,
        _ => a.spelled@ == b.spelled@,
    }
}

/// Whether `chosen` is the live database, also where it is spelled in another way.
pub fn is_live_database(chosen: &Probe, live: &Probe) -> (r: bool)
    ensures
        r == same_file(*chosen, *live),
{
    match (&chosen.canonical, &live.canonical) {
        (Some(a), Some(b)) => a.same_as(b),
        _ => chosen.spelled.same_as(&live.spelled),
    }
}

/// A database that was found, with what the file system tells of it.
#[derive(Debug)]
pub struct FoundFile {
    pub path: FilePath,
    pub size: Option<u64>,
    /// When the file was last written, in local time.
    pub modified: Option<DateTime>,
}

/// A database as the picker lists it. What the file system could not tell is left out.
#[derive(Debug)]
pub struct Candidate {
    pub path: FilePath,
    pub size: Option<u64>,
    pub modified: Option<String>,
}

impl FoundFile {
    /// The time is one that exists.
    pub open spec fn valid(self) -> bool {
        self.modified matches Some(t) ==> t.valid()
    }
}

impl Candidate {
    /// The candidate lists the found file.
    pub open spec fn lists(self, f: FoundFile) -> bool {
        &&& self.path@ == f.path@
        &&& self.size == f.size
        &&& text::optional(self.modified) == (match f.modified {
            Some(t) => Some(dates::minute_text(t)),
            None => None,
        })
    }
}

/// The candidates list the found files, in order.
pub open spec fn list_files(candidates: Seq<Candidate>, found: Seq<FoundFile>) -> bool {
    &&& candidates.len() == found.len()
    &&& forall|i: int| 0 <= i < found.len() ==> (#[trigger] candidates[i]).lists(found[i])
}

fn describe(f: &FoundFile) -> (r: Candidate)
    requires
        f.valid(),
    ensures
        r.lists(*f),
{
    Candidate {
        path: f.path.copy(),
        size: f.size,
        modified: match f.modified {
            Some(t) => Some(dates::format_minute(t)),
            None => None,
        },
    }
}

fn describe_all(found: &Vec<FoundFile>) -> (r: Vec<Candidate>)
    requires
        forall|i: int| 0 <= i < found@.len() ==> (#[trigger] found@[i]).valid(),
    ensures
        list_files(r@, found@),
{
    let mut r: Vec<Candidate> = Vec::new();
    for i in 0..found.len()
        invariant
            forall|k: int| 0 <= k < found@.len() ==> (#[trigger] found@[k]).valid(),
            list_files(r@, found@.take(i as int)),
    {
        r.push(describe(&found[i]));
    }
    assert(found@.take(found@.len() as int) =~= found@);
    r
}

// --- sizes ---

/// `n / d`, rounded to the nearest whole number; a half goes to the even neighbour.
pub open spec fn nearest(n: int, d: int) -> int {
    if 2 * (n % d) > d || (2 * (n % d) == d && (n / d) % 2 == 1) {
        n / d + 1
    } else {
        n / d
    }
}

/// The distance of neighbouring double-precision numbers at a whole number `n`: 1 as long as 53
/// bits hold it, and twice as much for each bit more.
pub open spec fn double_spacing(n: int) -> int
    decreases n,
{
    if n < 0x20_0000_0000_0000 {
        1
    } else {
        2 * double_spacing(n / 2)
    }
}

/// The double-precision number nearest to a whole number.
pub open spec fn as_double(n: int) -> int {
    nearest(n, double_spacing(n)) * double_spacing(n)
}

/// A file size for reading: whole kilobytes below a megabyte, else megabytes with one decimal,
/// reckoned in double precision.
pub open spec fn size_text(bytes: int) -> Seq<char> {
    if bytes < 0x10_0000 {
        text::decimal(nearest(bytes, 1024)) + " KB"@
    } else {
        let tenths = nearest(10 * as_double(bytes), 0x10_0000);
        text::decimal(tenths / 10) + "."@ + text::decimal(tenths % 10) + " MB"@
    }
}

fn rounded(n: u128, d: u128) -> (r: u128)
    requires
        0 < d <= 0x1000_0000_0000,
        n <= 0x1000_0000_0000_0000_0000,
    ensures
        r == nearest(n as int, d as int),
{
    let q: u128 = n / d;
    let rest: u128 = n % d;
    assert(q <= n) by (nonlinear_arith)
        requires
            q == n / d,
            0 < d,
    ;
    if 2 * rest > d || (2 * rest == d && q % 2 == 1) {
        q + 1
    } else {
        q
    }
}

fn spacing(n: u64) -> (r: u64)
    ensures
        r == double_spacing(n as int),
        1 <= r <= 4096,
{
    let mut m: u64 = n;
    let mut unit: u64 = 1;
    while m >= 0x20_0000_0000_0000
        invariant
            double_spacing(n as int) == unit * double_spacing(m as int),
            m * unit <= n,
            1 <= unit <= 4096,
        decreases m,
    {
        proof {
            let rest = double_spacing(m as int / 2);
            assert(unit < 2048) by (nonlinear_arith)
                requires
                    m * unit <= n,
                    n <= u64::MAX,
                    m >= 0x20_0000_0000_0000,
            ;
            assert((m / 2) * (2 * unit) <= m * unit) by (nonlinear_arith);
            assert(unit * (2 * rest) == (2 * unit) * rest) by (nonlinear_arith);
        }
        m = m / 2;
        unit = 2 * unit;
    }
    assert(unit * 1 == unit);
    unit
}

fn to_double(n: u64) -> (r: u128)
    ensures
        r == as_double(n as int),
        r <= 0x1_0000_0000_0000_0fff,
{
    let unit: u64 = spacing(n);
    let count: u128 = rounded(n as u128, unit as u128);
    proof {
        let q = n as int / unit as int;
        assert(q * unit <= n) by (nonlinear_arith)
            requires
                q == n as int / unit as int,
                unit >= 1,
        ;
        assert(count * unit <= n + unit) by (nonlinear_arith)
            requires
                count <= q + 1,
                q * unit <= n,
                unit >= 1,
        ;
    }
    count * unit as u128
}

/// A file size for reading.
pub fn human_size(bytes: u64) -> (r: String)
    ensures
        r@ == size_text(bytes as int),
{
    let mut s = String::new();
    if bytes < 0x10_0000 {
        let kb: u128 = rounded(bytes as u128, 1024);
        text::push_decimal(&mut s, kb as i64);
        text::push_text(&mut s, " KB");
    } else {
        let tenths: u128 = rounded(10 * to_double(bytes), 0x10_0000);
        text::push_decimal(&mut s, (tenths / 10) as i64);
        text::push_text(&mut s, ".");
        text::push_decimal(&mut s, (tenths % 10) as i64);
        text::push_text(&mut s, " MB");
    }
    assert(s@ =~= size_text(bytes as int));
    s
}

/// The line under a candidate's path: its size and when it was written, as far as known.
pub open spec fn detail_text(c: Candidate) -> Seq<char> {
    match (c.size, c.modified) {
        (Some(n), Some(m)) => size_text(n as int) + " \u{b7} "@ + m@,
        (Some(n), None) => size_text(n as int),
        (None, Some(m)) => m@,
        (None, None) => Seq::empty(),
    }
}

impl Candidate {
    /// The line under the candidate's path; empty where nothing is known.
    pub fn detail(&self) -> (r: String)
        ensures
            r@ == detail_text(*self),
    {
        let mut s = String::new();
        if let Some(n) = self.size {
            text::push_text(&mut s, human_size(n).as_str());
        }
        if let Some(m) = &self.modified {
            if self.size.is_some() {
                text::push_text(&mut s, " \u{b7} ");
            }
            text::push_text(&mut s, m.as_str());
        }
        assert(s@ =~= detail_text(*self));
        s
    }
}

// --- the picker ---

/// What became of the last attempt to import.
#[derive(Debug)]
pub enum Outcome {
    /// Nothing was tried yet.
    Untried,
    /// A pick was refused with a message, and no file was touched.
    Refused(String),
    /// The import failed; the live database is untouched.
    Failed(String),
    /// The live database holds the imported data.
    Imported { task_types: usize, total_tallies: i64 },
    /// The import runs with the next frame. The window does not respond meanwhile, so this is
    /// shown for one frame before the work starts.
    Importing,
}

/// The picker's state.
#[derive(Debug)]
pub struct MigrateState {
    pub visible: bool,
    pub candidates: Vec<Candidate>,
    pub outcome: Outcome,
}

/// What the user asked the picker for in one frame.
#[derive(Debug)]
pub enum Action {
    Nothing,
    /// Import this file, which is not the live database.
    Import(FilePath),
}

/// Why the live database cannot be picked.
pub open spec fn live_database_text() -> Seq<char> {
    "that's already this app's live database"@
}

impl MigrateState {
    /// A closed picker over the files that were found.
    pub fn new(found: Vec<FoundFile>) -> (r: MigrateState)
        requires
            forall|i: int| 0 <= i < found@.len() ==> (#[trigger] found@[i]).valid(),
        ensures
            !r.visible,
            list_files(r.candidates@, found@),
            r.outcome is Untried,
    {
        MigrateState { visible: false, candidates: describe_all(&found), outcome: Outcome::Untried }
    }

    /// Opens the picker over the files that are found now.
    pub fn reopen(&mut self, found: Vec<FoundFile>)
        requires
            forall|i: int| 0 <= i < found@.len() ==> (#[trigger] found@[i]).valid(),
        ensures
            final(self).visible,
            list_files(final(self).candidates@, found@),
            final(self).outcome is Untried,
    {
        self.candidates = describe_all(&found);
        self.outcome = Outcome::Untried;
        self.visible = true;
    }

    /// Opens the picker over the files it already lists.
    pub fn open_for_first_run(&mut self)
        ensures
            final(self).visible,
            final(self).candidates == old(self).candidates,
            final(self).outcome is Untried,
    {
        self.outcome = Outcome::Untried;
        self.visible = true;
    }

    /// Whether the list to pick from is shown, rather than a running or finished import.
    pub open spec fn picking(self) -> bool {
        self.visible && !(self.outcome is Importing) && !(self.outcome is Imported)
    }

    /// One frame of the picker: what was picked, from the list or from a file dialog, and
    /// whether the user closed it. Picking the live database is refused with a message.
    pub fn frame(&mut self, picked: Option<Probe>, live: &Probe, close: bool) -> (r: Action)
        ensures
            is_frame(*old(self), *final(self), picked, *live, close, r),
            final(self).candidates == old(self).candidates,
            final(self).visible == (old(self).visible && !close),
            match picked {
                Some(p) if old(self).picking() && same_file(p, *live) => {
                    &&& r is Nothing
                    &&& final(self).outcome matches Outcome::Refused(m) && m@ == live_database_text()
                },
                Some(p) if old(self).picking() => {
                    &&& r matches Action::Import(path) && path@ == p.path@
                    &&& final(self).outcome == old(self).outcome
                },
                _ => r is Nothing && final(self).outcome == old(self).outcome,
            },
    {
        let picking = self.visible && match &self.outcome {
            Outcome::Importing => false,
            Outcome::Imported { .. } => false,
            _ => true,
        };
        if close {
            self.visible = false;
        }
        match picked {
            Some(p) => {
                if !picking {
                    Action::Nothing
                } else if is_live_database(&p, live) {
                    self.outcome = Outcome::Refused(
                        "that's already this app's live database".to_owned(),
                    );
                    Action::Nothing
                } else {
                    Action::Import(p.path)
                }
            },
            None => Action::Nothing,
        }
    }
}

/// What was imported, in words.
pub open spec fn imported_text(task_types: int, total_tallies: int) -> Seq<char> {
    "Imported "@ + text::decimal(task_types) + " task type"@ + (if task_types == 1 {
        Seq::empty()
    } else {
        "s"@
    }) + " and "@ + text::decimal(total_tallies) + " tally"@ + (if total_tallies == 1 {
        Seq::empty()
    } else {
        "s"@
    }) + " total."@
}

/// What was imported, in words.
pub fn imported_line(task_types: usize, total_tallies: i64) -> (r: String)
    ensures
        r@ == imported_text(task_types as int, total_tallies as int),
{
    let mut s = String::new();
    text::push_text(&mut s, "Imported ");
    text::push_digits(&mut s, task_types as u64);
    text::push_text(&mut s, " task type");
    if task_types != 1 {
        text::push_text(&mut s, "s");
    }
    text::push_text(&mut s, " and ");
    text::push_decimal(&mut s, total_tallies);
    text::push_text(&mut s, " tally");
    if total_tallies != 1 {
        text::push_text(&mut s, "s");
    }
    text::push_text(&mut s, " total.");
    assert(s@ =~= imported_text(task_types as int, total_tallies as int));
    s
}

// --- laws ---

/// Two spellings of one file are told to be the same by their canonical paths; only where one of
/// them has none do the spellings decide.
pub proof fn law_canonical_paths_decide(a: Probe, b: Probe)
    ensures
        a.canonical is Some && b.canonical is Some ==> (same_file(a, b) <==> a.canonical->0@
            == b.canonical->0@),
        a.canonical is None || b.canonical is None ==> (same_file(a, b) <==> a.spelled@
            == b.spelled@),
        same_file(a, b) == same_file(b, a),
        same_file(a, a),
{
}

/// The picker lists every file that was found, in order, with its size and, to the minute, when
/// it was written.
pub proof fn law_picker_lists_what_was_found(
    candidates: Seq<Candidate>,
    found: Seq<FoundFile>,
    i: int,
)
    requires
        list_files(candidates, found),
    ensures
        candidates.len() == found.len(),
        0 <= i < found.len() ==> candidates[i].path@ == found[i].path@ && candidates[i].size
            == found[i].size,
        0 <= i < found.len() && found[i].modified is Some ==> (candidates[i].modified matches Some(
            m,
        ) && m@ == dates::minute_text(found[i].modified->0)),
        0 <= i < found.len() && found[i].modified is None ==> candidates[i].modified is None,
{
    if 0 <= i < found.len() {
        assert(candidates[i].lists(found[i]));
    }
}

/// Rounding to the nearest goes no further than half a step, and from the middle to the even
/// neighbour.
pub proof fn law_rounding_goes_to_the_nearest(n: int, d: int)
    requires
        n >= 0,
        d > 0,
    ensures
        -d <= 2 * (nearest(n, d) * d - n) <= d,
        2 * (nearest(n, d) * d - n) == d || 2 * (nearest(n, d) * d - n) == -d ==> nearest(n, d) % 2
            == 0,
{
    let q = n / d;
    let rest = n % d;
    vstd::arithmetic::div_mod::lemma_fundamental_div_mod(n, d);
    vstd::arithmetic::mul::lemma_mul_is_commutative(d, q);
    assert((q + 1) * d == q * d + d) by (nonlinear_arith);
    assert(0 <= rest < d) by {
        vstd::arithmetic::div_mod::lemma_mod_bound(n, d);
    }
}

/// Double precision holds every whole number of up to 53 bits; beyond that its numbers stand
/// twice as far apart for each bit more, and the nearest one is taken.
pub proof fn law_doubles_are_near(n: int)
    requires
        n >= 0,
    ensures
        n < 0x20_0000_0000_0000 ==> as_double(n) == n,
        n >= 0x20_0000_0000_0000 ==> double_spacing(n) == 2 * double_spacing(n / 2),
        double_spacing(n) >= 1,
        -double_spacing(n) <= 2 * (as_double(n) - n) <= double_spacing(n),
    decreases n,
{
    if n >= 0x20_0000_0000_0000 {
        law_doubles_are_near(n / 2);
    }
    law_rounding_goes_to_the_nearest(n, double_spacing(n));
}

/// Below a megabyte a size reads in whole kilobytes of 1024 bytes, from there on in megabytes of
/// 1024 kilobytes with one decimal.
pub proof fn law_sizes_read_in_kilobytes_and_megabytes(bytes: int, tenths: int)
    requires
        bytes >= 0,
    ensures
        bytes < 1024 * 1024 ==> size_text(bytes) == text::decimal(nearest(bytes, 1024)) + " KB"@,
        1024 * 1024 <= bytes < 0x20_0000_0000_0000 && tenths == nearest(10 * bytes, 1048576)
            ==> size_text(bytes) == text::decimal(tenths / 10) + "."@ + text::decimal(tenths % 10)
            + " MB"@,
        1024 * 1024 <= bytes && tenths == nearest(10 * as_double(bytes), 1048576) ==> size_text(
            bytes,
        ) == text::decimal(tenths / 10) + "."@ + text::decimal(tenths % 10) + " MB"@,
{
    law_doubles_are_near(bytes);
}

/// The line under a candidate gives what is known of it: the size, then the time, parted by a dot
/// only where both are known.
pub proof fn law_details_are_what_is_known(path: FilePath, n: u64, m: String)
    ensures
        detail_text(Candidate { path, size: Some(n), modified: Some(m) }) == size_text(n as int)
            + " \u{b7} "@ + m@,
        detail_text(Candidate { path, size: Some(n), modified: None }) == size_text(n as int),
        detail_text(Candidate { path, size: None, modified: Some(m) }) == m@,
        detail_text(Candidate { path, size: None, modified: None }).len() == 0,
{
}

/// There is something to pick while the picker is open, unless an import runs or is done; after a
/// refusal or a failure another file can be picked.
pub proof fn law_one_can_pick_until_the_import(s: MigrateState)
    ensures
        !s.visible ==> !s.picking(),
        s.outcome is Importing || s.outcome is Imported ==> !s.picking(),
        s.visible && (s.outcome is Untried || s.outcome is Refused || s.outcome is Failed)
            ==> s.picking(),
{
}

/// The line about an import counts types and tallies, and puts one of either in the singular.
pub proof fn law_imports_are_counted(types: int, tallies: int)
    ensures
        types != 1 && tallies != 1 ==> imported_text(types, tallies) =~= "Imported "@
            + text::decimal(types) + " task type"@ + "s"@ + " and "@ + text::decimal(tallies)
            + " tally"@ + "s"@ + " total."@,
        imported_text(1, 1) =~= "Imported "@ + text::decimal(1) + " task type"@ + " and "@
            + text::decimal(1) + " tally"@ + " total."@,
        types != 1 ==> imported_text(types, 1) =~= "Imported "@ + text::decimal(types)
            + " task type"@ + "s"@ + " and "@ + text::decimal(1) + " tally"@ + " total."@,
        tallies != 1 ==> imported_text(1, tallies) =~= "Imported "@ + text::decimal(1)
            + " task type"@ + " and "@ + text::decimal(tallies) + " tally"@ + "s"@ + " total."@,
        live_database_text() == "that's already this app's live database"@,
{
}

/// Whether a frame of the picker leads from `s` to `t` and asks for `r`.
pub open spec fn is_frame(
    s: MigrateState,
    t: MigrateState,
    picked: Option<Probe>,
    live: Probe,
    close: bool,
    r: Action,
) -> bool {
    &&& t.candidates == s.candidates
    &&& t.visible == (s.visible && !close)
    &&& match picked {
        Some(p) => if s.picking() && same_file(p, live) {
            r is Nothing && (t.outcome matches Outcome::Refused(m) && m@ == live_database_text())
        } else if s.picking() {
            (r matches Action::Import(path) && path@ == p.path@) && t.outcome == s.outcome
        } else {
            r is Nothing && t.outcome == s.outcome
        },
        None => r is Nothing && t.outcome == s.outcome,
    }
}

/// The live database is never imported into itself: picking it is refused and nothing is asked
/// for. Any other file that is picked is asked for as it is, and without a pick nothing is.
pub proof fn law_live_database_is_not_imported(
    s: MigrateState,
    t: MigrateState,
    picked: Option<Probe>,
    live: Probe,
    close: bool,
    r: Action,
)
    requires
        is_frame(s, t, picked, live, close, r),
    ensures
        r matches Action::Import(path) ==> (picked matches Some(p) && path@ == p.path@
            && !same_file(p, live) && s.picking()),
        picked matches Some(p) && s.picking() && !same_file(p, live) ==> r is Import,
        picked matches Some(p) && s.picking() && same_file(p, live) ==> t.outcome is Refused,
        picked is None ==> r is Nothing && t.outcome == s.outcome,
        !s.picking() ==> r is Nothing && t.outcome == s.outcome,
        close ==> !t.visible,
        !close ==> t.visible == s.visible,
        t.candidates == s.candidates,
{
}

} // verus!
