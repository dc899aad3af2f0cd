//! The rows the database hands out, as plain values.
use vstd::prelude::*;

use crate::dates::Date;
use crate::text;
use std::collections::{BTreeMap, BTreeSet};

verus! {

/// A group of task types.
#[derive(Debug)]
pub struct Category {
    pub id: i64,
    pub name: String,
}

/// Something that can be tallied.
#[derive(Debug)]
pub struct TaskType {
    pub id: i64,
    pub category_id: i64,
    pub name: String,
    pub description: String,
    pub is_active: bool,
    pub created_at: String,
}

/// How often a task type was ever tallied.
#[derive(Clone, Copy, Debug, PartialEq, Eq, Structural)]
pub struct TypeLifetimeTotal {
    pub task_type_id: i64,
    pub total: i64,
}

/// What a task type was used for so far.
#[derive(Clone, Copy, Debug, PartialEq, Eq, Structural)]
pub struct TypeUsage {
    pub total: i64,
    pub active_days: i64,
    pub last_used: Option<Date>,
}

/// A change to a task type, all fields given.
#[derive(Debug)]
pub struct TypeWrite {
    pub id: i64,
    pub category_id: i64,
    pub name: String,
    pub description: String,
    pub is_active: bool,
}

/// How often a task type was tallied on one day.
#[derive(Clone, Copy, Debug, PartialEq, Eq, Structural)]
pub struct DayTypeTotal {
    pub task_type_id: i64,
    pub category_id: i64,
    pub count: i64,
}

/// One entry of a day's log.
#[derive(Debug)]
pub struct DayLogRow {
    pub entry_id: i64,
    pub task_type_id: i64,
    pub created_at: String,
    pub category_name: String,
    pub task_name: String,
    pub count: i64,
    pub notes: String,
}

/// The numbers of a span of days.
#[derive(Clone, Copy, Debug)]
pub struct RangeSummary {
    pub total: i64,
    pub previous_total: i64,
    pub active_days: i64,
    pub distinct_types: i64,
    /// The day with the most tallies, and how many.
    pub busiest_day: Option<(Date, i64)>,
}

/// How often a task type was tallied in a span of days.
#[derive(Debug)]
pub struct TypeRangeTotal {
    pub category_name: String,
    pub task_name: String,
    pub total: i64,
}

impl Category {
    /// The same category once more.
    pub fn copy(&self) -> (r: Category)
        ensures
            r == *self,
    {
        Category { id: self.id, name: self.name.clone() }
    }
}

impl TaskType {
    /// The same task type once more.
    pub fn copy(&self) -> (r: TaskType)
        ensures
            r == *self,
    {
        TaskType {
            id: self.id,
            category_id: self.category_id,
            name: self.name.clone(),
            description: self.description.clone(),
            is_active: self.is_active,
            created_at: self.created_at.clone(),
        }
    }
}

impl TypeWrite {
    /// Whether the change keeps `t` as it is but for the category and whether it is active.
    pub open spec fn repoints(self, t: TaskType, category_id: i64, is_active: bool) -> bool {
        self == (TypeWrite {
            id: t.id,
            category_id,
            name: t.name,
            description: t.description,
            is_active,
        })
    }
}

/// The change that gives `t` a category and an active state and keeps the rest.
pub fn repoint(t: &TaskType, category_id: i64, is_active: bool) -> (r: TypeWrite)
    ensures
        r.repoints(*t, category_id, is_active),
{
    TypeWrite {
        id: t.id,
        category_id,
        name: t.name.clone(),
        description: t.description.clone(),
        is_active,
    }
}

/// The place of the first task type with this id.
pub open spec fn type_index(types: Seq<TaskType>, id: i64) -> Option<int>
    decreases types.len(),
{
    if types.len() == 0 {
        None
    } else if types[0].id == id {
        Some(0)
    } else {
        match type_index(types.drop_first(), id) {
            Some(i) => Some(i + 1),
            None => None,
        }
    }
}

pub fn find_type(types: &Vec<TaskType>, id: i64) -> (r: Option<usize>)
    ensures
        match (r, type_index(types@, id)) {
            (Some(a), Some(b)) => a == b && a < types@.len() && types@[b].id == id,
            (None, None) => true,
            _ => false,
        },
{
    assert(types@.skip(0) =~= types@);
    for i in 0..types.len()
        invariant
            match (type_index(types@, id), type_index(types@.skip(i as int), id)) {
                (Some(a), Some(b)) => a == b + i,
                (None, None) => true,
                _ => false,
            },
    {
        if types[i].id == id {
            return Some(i);
        }
        assert(types@.skip(i as int).drop_first() =~= types@.skip(i + 1));
    }
    None
}

/// The place of the first category with this id.
pub open spec fn category_index(categories: Seq<Category>, id: i64) -> Option<int>
    decreases categories.len(),
{
    if categories.len() == 0 {
        None
    } else if categories[0].id == id {
        Some(0)
    } else {
        match category_index(categories.drop_first(), id) {
            Some(i) => Some(i + 1),
            None => None,
        }
    }
}

/// The name of the first category with this id, or nothing where there is none.
pub open spec fn category_name(categories: Seq<Category>, id: i64) -> Seq<char> {
    match category_index(categories, id) {
        Some(i) => categories[i].name@,
        None => Seq::empty(),
    }
}

pub fn find_category(categories: &Vec<Category>, id: i64) -> (r: Option<usize>)
    ensures
        match (r, category_index(categories@, id)) {
            (Some(a), Some(b)) => a == b && a < categories@.len(),
            (None, None) => true,
            _ => false,
        },
{
    assert(categories@.skip(0) =~= categories@);
    for i in 0..categories.len()
        invariant
            match (
                category_index(categories@, id),
                category_index(categories@.skip(i as int), id),
            ) {
                (Some(a), Some(b)) => a == b + i,
                (None, None) => true,
                _ => false,
            },
    {
        if categories[i].id == id {
            return Some(i);
        }
        assert(categories@.skip(i as int).drop_first() =~= categories@.skip(i + 1));
    }
    None
}

/// The name of the first category with this id, or nothing where there is none.
pub fn name_of_category(categories: &Vec<Category>, id: i64) -> (r: String)
    ensures
        r@ == category_name(categories@, id),
{
    match find_category(categories, id) {
        Some(i) => categories[i].name.clone(),
        None => String::new(),
    }
}

/// The number a map has for an id, or 0.
pub open spec fn count_in(counts: Map<i64, i64>, id: i64) -> i64 {
    if counts.contains_key(id) {
        counts[id]
    } else {
        0
    }
}

/// The number a map has for an id, or 0.
pub fn count_of(counts: &BTreeMap<i64, i64>, id: i64) -> (r: i64)
    ensures
        r == count_in(counts@, id),
{
    broadcast use vstd::std_specs::btree::group_btree_axioms;
    broadcast use vstd::laws_cmp::group_laws_cmp;

    match counts.get(&id) {
        Some(n) => *n,
        None => 0,
    }
}

/// A map without entries.
pub fn no_counts() -> (r: BTreeMap<i64, i64>)
    ensures
        r@ == Map::<i64, i64>::empty(),
{
    BTreeMap::new()
}

/// Sets the number a map has for an id.
pub fn set_count(counts: &mut BTreeMap<i64, i64>, id: i64, n: i64)
    ensures
        final(counts)@ == old(counts)@.insert(id, n),
{
    broadcast use vstd::std_specs::btree::group_btree_axioms;
    broadcast use vstd::laws_cmp::group_laws_cmp;

    counts.insert(id, n);
}

// --- sets of ids ---

/// Whether an id is in a set.
pub fn has_id(ids: &BTreeSet<i64>, id: i64) -> (r: bool)
    ensures
        r == ids@.contains(id),
{
    broadcast use vstd::std_specs::btree::group_btree_axioms;
    broadcast use vstd::laws_cmp::group_laws_cmp;

    ids.contains(&id)
}

/// Puts an id into a set.
pub fn add_id(ids: &mut BTreeSet<i64>, id: i64)
    ensures
        final(ids)@ == old(ids)@.insert(id),
{
    broadcast use vstd::std_specs::btree::group_btree_axioms;
    broadcast use vstd::laws_cmp::group_laws_cmp;

    ids.insert(id);
}

/// Takes an id out of a set; whether it was in it.
pub fn drop_id(ids: &mut BTreeSet<i64>, id: i64) -> (r: bool)
    ensures
        r == old(ids)@.contains(id),
        final(ids)@ == old(ids)@.remove(id),
{
    broadcast use vstd::std_specs::btree::group_btree_axioms;
    broadcast use vstd::laws_cmp::group_laws_cmp;

    ids.remove(&id)
}

/// The ids `v` lists are those of the set, in increasing order.
pub open spec fn lists_ids(v: Seq<i64>, ids: Set<i64>) -> bool {
    &&& v.to_set() == ids
    &&& forall|i: int, j: int| 0 <= i < j < v.len() ==> v[i] < v[j]
}

/// The ids of a set in increasing order.
pub fn ids_in_order(ids: &BTreeSet<i64>) -> (r: Vec<i64>)
    ensures
        lists_ids(r@, ids@),
{
    broadcast use vstd::std_specs::btree::group_btree_axioms;
    broadcast use vstd::laws_cmp::group_laws_cmp;

    let mut r: Vec<i64> = Vec::new();
    let ghost done = vstd::std_specs::iter::IteratorSpec::remaining(
        &vstd::std_specs::btree::spec_btree_keys_iter(ids),
    );
    for id in it: ids.iter()
        invariant
            forall|i: int, j: int| 0 <= i < j < r@.len() ==> r@[i] < r@[j],
            forall|k: i64|
                r@.contains(k) <==> exists|i: int| 0 <= i < it.index() && *(#[trigger] it.seq()[i]) == k,
            it.seq().unref().to_set() == ids@,
            it.seq() == done,
    {
        insert_in_order(&mut r, *id);
    }
    proof {
        assert forall|k: i64| r@.contains(k) <==> ids@.contains(k) by {
            if ids@.contains(k) {
                assert(done.unref().to_set().contains(k));
                let i = choose|i: int| 0 <= i < done.unref().len() && done.unref()[i] == k;
                assert(*done[i] == k);
            }
            if r@.contains(k) {
                let i = choose|i: int| 0 <= i < done.len() && *(#[trigger] done[i]) == k;
                assert(done.unref()[i] == k);
            }
        }
        assert(r@.to_set() =~= ids@);
    }
    r
}

/// Puts `id` at its place in an increasing list.
fn insert_in_order(v: &mut Vec<i64>, id: i64)
    requires
        forall|i: int, j: int| 0 <= i < j < old(v)@.len() ==> old(v)@[i] < old(v)@[j],
    ensures
        forall|i: int, j: int| 0 <= i < j < final(v)@.len() ==> final(v)@[i] < final(v)@[j],
        forall|k: i64| #[trigger] final(v)@.contains(k) <==> old(v)@.contains(k) || k == id,
{
    let ghost before = v@;
    let mut at: usize = 0;
    while at < v.len() && v[at] < id
        invariant
            at <= v@.len(),
            v@ == before,
            forall|i: int| 0 <= i < at ==> v@[i] < id,
        decreases v@.len() - at,
    {
        at = at + 1;
    }
    if at < v.len() && v[at] == id {
        assert(before[at as int] == id);
        return;
    }
    v.insert(at, id);
    assert forall|k: i64| #[trigger] v@.contains(k) <==> before.contains(k) || k == id by {
        if before.contains(k) {
            let i = choose|i: int| 0 <= i < before.len() && before[i] == k;
            if i < at {
                assert(v@[i] == k);
            } else {
                assert(v@[i + 1] == k);
            }
        }
        if k == id {
            assert(v@[at as int] == k);
        }
        if v@.contains(k) && k != id {
            let i = choose|i: int| 0 <= i < v@.len() && v@[i] == k;
            if i < at {
                assert(before[i] == k);
            } else {
                assert(before[i - 1] == k);
            }
        }
    }
}

/// What a filter keeps was there before.
pub proof fn lemma_kept_was_there<T>(s: Seq<T>, keep: spec_fn(T) -> bool, k: int)
    requires
        0 <= k < s.filter(keep).len(),
    ensures
        s.contains(s.filter(keep)[k]),
    decreases s.len(),
{
    reveal(Seq::filter);
    if s.len() > 0 {
        let rest = s.drop_last().filter(keep);
        if k < rest.len() {
            lemma_kept_was_there(s.drop_last(), keep, k);
            let i = choose|i: int| 0 <= i < s.len() - 1 && s.drop_last()[i] == rest[k];
            assert(s[i] == s.filter(keep)[k]);
        } else {
            assert(s[s.len() - 1] == s.filter(keep)[k]);
        }
    }
}

// --- laws ---

/// Looking a type up by its id finds the first one that has it, and finds one wherever there is
/// one.
pub proof fn law_lookup_finds_the_first_type(types: Seq<TaskType>, id: i64)
    ensures
        type_index(types, id) matches Some(i) ==> 0 <= i < types.len() && types[i].id == id && (
        forall|k: int| 0 <= k < i ==> (#[trigger] types[k]).id != id),
        type_index(types, id) is None ==> forall|k: int|
            0 <= k < types.len() ==> (#[trigger] types[k]).id != id,
    decreases types.len(),
{
    if types.len() > 0 && types[0].id != id {
        let rest = types.drop_first();
        law_lookup_finds_the_first_type(rest, id);
        match type_index(rest, id) {
            Some(i) => {
                assert forall|k: int| 0 <= k < i + 1 implies (#[trigger] types[k]).id != id by {
                    if k > 0 {
                        assert(rest[k - 1].id != id);
                    }
                }
            },
            None => {
                assert forall|k: int| 0 <= k < types.len() implies (#[trigger] types[k]).id
                    != id by {
                    if k > 0 {
                        assert(rest[k - 1].id != id);
                    }
                }
            },
        }
    }
}

/// Looking a category up by its id finds the first one that has it, and finds one wherever there
/// is one; its name is that one's, and empty where there is none.
pub proof fn law_lookup_finds_the_first_category(categories: Seq<Category>, id: i64)
    ensures
        category_index(categories, id) matches Some(i) ==> 0 <= i < categories.len()
            && categories[i].id == id && category_name(categories, id) == categories[i].name@ && (
        forall|k: int| 0 <= k < i ==> (#[trigger] categories[k]).id != id),
        category_index(categories, id) is None ==> category_name(categories, id).len() == 0 && (
        forall|k: int| 0 <= k < categories.len() ==> (#[trigger] categories[k]).id != id),
    decreases categories.len(),
{
    if categories.len() > 0 && categories[0].id != id {
        let rest = categories.drop_first();
        law_lookup_finds_the_first_category(rest, id);
        match category_index(rest, id) {
            Some(i) => {
                assert forall|k: int| 0 <= k < i + 1 implies (#[trigger] categories[k]).id
                    != id by {
                    if k > 0 {
                        assert(rest[k - 1].id != id);
                    }
                }
            },
            None => {
                assert forall|k: int| 0 <= k < categories.len() implies (
                #[trigger] categories[k]).id != id by {
                    if k > 0 {
                        assert(rest[k - 1].id != id);
                    }
                }
            },
        }
    }
}

/// A change of category or of the active state keeps everything else about a type.
pub proof fn law_repointing_keeps_the_rest(
    w: TypeWrite,
    t: TaskType,
    category_id: i64,
    is_active: bool,
)
    requires
        w.repoints(t, category_id, is_active),
    ensures
        w.id == t.id,
        w.name@ == t.name@,
        w.description@ == t.description@,
        w.category_id == category_id,
        w.is_active == is_active,
{
}

/// A count is what the map has, and 0 for an id it does not have.
pub proof fn law_missing_counts_are_zero(counts: Map<i64, i64>, id: i64, n: i64)
    ensures
        count_in(Map::<i64, i64>::empty(), id) == 0,
        count_in(counts.insert(id, n), id) == n,
        !counts.contains_key(id) ==> count_in(counts, id) == 0,
        forall|other: i64|
            other != id ==> #[trigger] count_in(counts.insert(id, n), other) == count_in(
                counts,
                other,
            ),
{
}

/// The listed ids are those of the set, each once, and a smaller one stands before a larger.
pub proof fn law_ids_are_listed_in_order(v: Seq<i64>, ids: Set<i64>, i: int, j: int)
    requires
        lists_ids(v, ids),
    ensures
        0 <= i < j < v.len() ==> v[i] < v[j],
        0 <= i < v.len() ==> ids.contains(v[i]),
        forall|id: i64| ids.contains(id) ==> #[trigger] v.contains(id),
{
    if 0 <= i < v.len() {
        assert(v.to_set().contains(v[i]));
    }
    assert forall|id: i64| ids.contains(id) implies #[trigger] v.contains(id) by {
        assert(v.to_set().contains(id));
    }
}

} // verus!
