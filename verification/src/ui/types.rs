//! The Task types screen: filtering, ordering and checking the master list of task types.
use vstd::prelude::*;

use crate::catalog::{self, Category, TaskType, TypeLifetimeTotal};
use crate::text;

verus! {

/// Which category the table is filtered to.
#[derive(Clone, Copy, Debug, PartialEq, Eq, Structural)]
pub enum CategoryFilter {
    All,
    One(i64),
}

/// Whether the table shows only active types or everything.
#[derive(Clone, Copy, Debug, PartialEq, Eq, Structural)]
pub enum ActiveFilter {
    ActiveOnly,
    All,
}

// --- filtering ---

/// Whether `needle` stands in the name or the description, without regard to case.
pub open spec fn mentions(t: TaskType, needle: Seq<char>) -> bool {
    ||| needle.len() == 0
    ||| text::has_part(text::lowered(t.name@), needle)
    ||| text::has_part(text::lowered(t.description@), needle)
}

/// Whether the table shows a type.
pub open spec fn passes(
    t: TaskType,
    search: Seq<char>,
    category_filter: CategoryFilter,
    active_filter: ActiveFilter,
) -> bool {
    &&& category_filter matches CategoryFilter::One(id) ==> t.category_id == id
    &&& active_filter == ActiveFilter::ActiveOnly ==> t.is_active
    &&& mentions(t, text::lowered(text::trimmed(search)))
}

fn is_mentioned(t: &TaskType, needle: &str) -> (r: bool)
    ensures
        r == mentions(*t, needle@),
{
    if needle.is_empty() {
        return true;
    }
    text::contains(text::lower(t.name.as_str()).as_str(), needle) || text::contains(
        text::lower(t.description.as_str()).as_str(),
        needle,
    )
}

/// The types the table shows, in order: the search text is looked for in name and description
/// without regard to case, and the category and the active filter apply.
pub fn filter_types<'a>(
    types: &'a [TaskType],
    search: &str,
    category_filter: CategoryFilter,
    active_filter: ActiveFilter,
) -> (r: Vec<&'a TaskType>)
    ensures
        r@.unref() == types@.filter(
            |t: TaskType| passes(t, search@, category_filter, active_filter),
        ),
{
    let needle = text::lower(text::trim(search).as_str());
    let ghost keep = |t: TaskType| passes(t, search@, category_filter, active_filter);
    let mut r: Vec<&'a TaskType> = Vec::new();
    assert(r@.unref() =~= types@.take(0).filter(keep)) by {
        reveal(Seq::filter);
    }
    for i in 0..types.len()
        invariant
            keep == (|t: TaskType| passes(t, search@, category_filter, active_filter)),
            needle@ == text::lowered(text::trimmed(search@)),
            r@.unref() == types@.take(i as int).filter(keep),
    {
        let t = &types[i];
        proof {
            reveal(Seq::filter);
            assert(types@.take(i + 1).drop_last() =~= types@.take(i as int));
        }
        let in_category = match category_filter {
            CategoryFilter::All => true,
            CategoryFilter::One(id) => t.category_id == id,
        };
        let in_use = match active_filter {
            ActiveFilter::All => true,
            ActiveFilter::ActiveOnly => t.is_active,
        };
        let shown = in_category && in_use && is_mentioned(t, needle.as_str());
        if shown {
            let ghost before = r@;
            r.push(t);
            assert(r@.unref() =~= before.unref().push(*t));
        }
    }
    assert(types@.take(types@.len() as int) =~= types@);
    r
}

/// The picker behind the "more" pill shows the categories whose name has the filter text in
/// it, without regard to case.
pub fn picker_shows(name: &str, filter: &str) -> (r: bool)
    ensures
        r == ({
            let needle = text::lowered(text::trimmed(filter@));
            needle.len() == 0 || text::has_part(text::lowered(name@), needle)
        }),
{
    let needle = text::lower(text::trim(filter).as_str());
    needle.as_str().is_empty() || text::contains(
        text::lower(name).as_str(),
        needle.as_str(),
    )
}

// --- reordering ---

/// `ids` with the id at `from` moved to `to`, counted without it; anything else stays in its
/// order. Nothing moves where `from` is `to` or no place of the list.
pub open spec fn moved<T>(ids: Seq<T>, from: int, to: int) -> Seq<T> {
    if from == to || from >= ids.len() {
        ids
    } else {
        let rest = ids.remove(from);
        rest.insert(
            if to < rest.len() {
                to
            } else {
                rest.len() as int
            },
            ids[from],
        )
    }
}

/// Moves the id at `from` to sit at index `to` (so the last index means "last"), leaving every
/// other id's relative order intact.
pub fn reordered_ids(ids: &[i64], from: usize, to: usize) -> (r: Vec<i64>)
    ensures
        r@ == moved(ids@, from as int, to as int),
{
    let mut v: Vec<i64> = Vec::new();
    for i in 0..ids.len()
        invariant
            v@ == ids@.take(i as int),
    {
        v.push(ids[i]);
    }
    assert(v@ =~= ids@);
    if from == to || from >= v.len() {
        return v;
    }
    let item: i64 = v.remove(from);
    let at: usize = if to < v.len() {
        to
    } else {
        v.len()
    };
    v.insert(at, item);
    v
}

/// Reordering neither loses nor adds an id.
pub proof fn law_reordering_is_a_permutation(ids: Seq<i64>, from: int, to: int)
    requires
        0 <= from,
        0 <= to,
    ensures
        moved(ids, from, to).to_multiset() == ids.to_multiset(),
{
    broadcast use vstd::seq_lib::group_to_multiset_ensures;

    if from != to && from < ids.len() {
        let rest = ids.remove(from);
        let at = if to < rest.len() {
            to
        } else {
            rest.len() as int
        };
        assert(ids =~= rest.insert(from, ids[from]));
        vstd::seq_lib::to_multiset_insert(rest, at, ids[from]);
        vstd::seq_lib::to_multiset_insert(rest, from, ids[from]);
    }
}

/// Apart from the one that is moved, the ids keep their order.
pub proof fn law_reordering_keeps_the_others_in_order(ids: Seq<i64>, from: int, to: int)
    requires
        0 <= from < ids.len(),
        0 <= to < ids.len(),
    ensures
        moved(ids, from, to)[to] == ids[from],
        moved(ids, from, to).remove(to) == ids.remove(from),
{
    assert(moved(ids, from, to).remove(to) =~= ids.remove(from));
}

/// Moving an id back undoes the move.
pub proof fn law_reordering_is_undone_by_moving_back(ids: Seq<i64>, from: int, to: int)
    requires
        0 <= from < ids.len(),
        0 <= to < ids.len(),
    ensures
        moved(moved(ids, from, to), to, from) == ids,
{
    law_reordering_keeps_the_others_in_order(ids, from, to);
    assert(moved(moved(ids, from, to), to, from) =~= ids);
}

// --- category totals ---

/// One category's row in the manage-categories dialog.
#[derive(Debug)]
pub struct CatAgg {
    pub id: i64,
    pub name: String,
    pub type_count: i64,
    pub tally_count: i64,
}

/// The lifetime total of a type: that of the first row for it, or 0.
pub open spec fn lifetime_of(totals: Seq<TypeLifetimeTotal>, type_id: i64) -> int
    decreases totals.len(),
{
    if totals.len() == 0 {
        0
    } else if totals[0].task_type_id == type_id {
        totals[0].total as int
    } else {
        lifetime_of(totals.drop_first(), type_id)
    }
}

/// How many of `types` are in a category.
pub open spec fn types_in(types: Seq<TaskType>, category_id: i64) -> int
    decreases types.len(),
{
    if types.len() == 0 {
        0
    } else {
        types_in(types.drop_last(), category_id) + (if types.last().category_id == category_id {
            1int
        } else {
            0int
        })
    }
}

/// The sum of the lifetime totals of the types in a category.
pub open spec fn tallies_in(
    types: Seq<TaskType>,
    totals: Seq<TypeLifetimeTotal>,
    category_id: i64,
) -> int
    decreases types.len(),
{
    if types.len() == 0 {
        0
    } else {
        tallies_in(types.drop_last(), totals, category_id) + (if types.last().category_id
            == category_id {
            lifetime_of(totals, types.last().id)
        } else {
            0
        })
    }
}

/// The lifetime totals of a category's types can be added up, type by type, without leaving
/// the range of the numbers.
pub open spec fn tallies_fit(
    types: Seq<TaskType>,
    totals: Seq<TypeLifetimeTotal>,
    category_id: i64,
) -> bool {
    forall|n: int|
        0 <= n <= types.len() ==> i64::MIN <= #[trigger] tallies_in(
            types.take(n),
            totals,
            category_id,
        ) <= i64::MAX
}

/// Whether `a` is the row of category `c`.
pub open spec fn is_row_of(
    a: CatAgg,
    c: Category,
    types: Seq<TaskType>,
    totals: Seq<TypeLifetimeTotal>,
) -> bool {
    &&& a.id == c.id
    &&& a.name@ == c.name@
    &&& a.type_count == types_in(types, c.id)
    &&& a.tally_count == tallies_in(types, totals, c.id)
}

fn find_lifetime(totals: &[TypeLifetimeTotal], type_id: i64) -> (r: i64)
    ensures
        r == lifetime_of(totals@, type_id),
{
    assert(totals@.skip(0) =~= totals@);
    for i in 0..totals.len()
        invariant
            lifetime_of(totals@, type_id) == lifetime_of(totals@.skip(i as int), type_id),
    {
        if totals[i].task_type_id == type_id {
            return totals[i].total;
        }
        assert(totals@.skip(i as int).drop_first() =~= totals@.skip(i + 1));
    }
    0
}

/// The sum of the lifetime totals of a category's types, where it can be built.
pub fn category_tallies(
    types: &[TaskType],
    totals: &[TypeLifetimeTotal],
    category_id: i64,
) -> (r: Option<i64>)
    ensures
        r matches Some(n) ==> tallies_fit(types@, totals@, category_id) && n == tallies_in(
            types@,
            totals@,
            category_id,
        ),
        r is None ==> !tallies_fit(types@, totals@, category_id),
{
    let mut sum: i64 = 0;
    for i in 0..types.len()
        invariant
            sum == tallies_in(types@.take(i as int), totals@, category_id),
            forall|n: int|
                0 <= n <= i ==> i64::MIN <= #[trigger] tallies_in(
                    types@.take(n),
                    totals@,
                    category_id,
                ) <= i64::MAX,
    {
        assert(types@.take(i + 1).drop_last() =~= types@.take(i as int));
        if types[i].category_id == category_id {
            match sum.checked_add(find_lifetime(totals, types[i].id)) {
                Some(s) => {
                    sum = s;
                },
                None => {
                    assert(!(i64::MIN <= tallies_in(types@.take(i + 1), totals@, category_id)
                        <= i64::MAX));
                    return None;
                },
            }
        }
    }
    assert(types@.take(types@.len() as int) =~= types@);
    Some(sum)
}

/// Whether the numbers of every category can be built.
pub open spec fn aggregates_fit(
    categories: Seq<Category>,
    types: Seq<TaskType>,
    totals: Seq<TypeLifetimeTotal>,
) -> bool {
    &&& types.len() <= i64::MAX
    &&& forall|i: int|
        0 <= i < categories.len() ==> tallies_fit(types, totals, (#[trigger] categories[i]).id)
}

/// Whether the numbers of every category can be built.
pub fn check_aggregates(
    categories: &[Category],
    types: &[TaskType],
    totals: &[TypeLifetimeTotal],
) -> (r: bool)
    ensures
        r == aggregates_fit(categories@, types@, totals@),
{
    if types.len() as u64 > i64::MAX as u64 {
        return false;
    }
    for i in 0..categories.len()
        invariant
            types@.len() <= i64::MAX,
            forall|k: int|
                0 <= k < i ==> tallies_fit(types@, totals@, (#[trigger] categories@[k]).id),
    {
        if category_tallies(types, totals, categories[i].id).is_none() {
            assert(!tallies_fit(types@, totals@, categories@[i as int].id));
            return false;
        }
    }
    true
}

fn count_types(types: &[TaskType], category_id: i64) -> (r: usize)
    ensures
        r == types_in(types@, category_id),
        r <= types@.len(),
{
    let mut n: usize = 0;
    for i in 0..types.len()
        invariant
            n == types_in(types@.take(i as int), category_id),
            n <= i,
    {
        assert(types@.take(i + 1).drop_last() =~= types@.take(i as int));
        if types[i].category_id == category_id {
            n = n + 1;
        }
    }
    assert(types@.take(types@.len() as int) =~= types@);
    n
}

/// Type count and summed lifetime tallies of each category, in the order of `categories`.
pub fn aggregate_categories(
    categories: &[Category],
    task_types: &[TaskType],
    lifetime_totals: &[TypeLifetimeTotal],
) -> (r: Vec<CatAgg>)
    requires
        aggregates_fit(categories@, task_types@, lifetime_totals@),
    ensures
        r@.len() == categories@.len(),
        forall|i: int|
            0 <= i < r@.len() ==> is_row_of(
                #[trigger] r@[i],
                categories@[i],
                task_types@,
                lifetime_totals@,
            ),
{
    let mut r: Vec<CatAgg> = Vec::new();
    for i in 0..categories.len()
        invariant
            aggregates_fit(categories@, task_types@, lifetime_totals@),
            r@.len() == i,
            forall|k: int|
                0 <= k < i ==> is_row_of(
                    #[trigger] r@[k],
                    categories@[k],
                    task_types@,
                    lifetime_totals@,
                ),
    {
        let c = &categories[i];
        assert(tallies_fit(task_types@, lifetime_totals@, categories@[i as int].id));
        let tally_count: i64 = category_tallies(task_types, lifetime_totals, c.id).unwrap();
        let type_count: usize = count_types(task_types, c.id);
        r.push(
            CatAgg { id: c.id, name: c.name.clone(), type_count: type_count as i64, tally_count },
        );
    }
    r
}

// --- pills ---

/// Whether the category at `j` is ranked before the one at `i`: it has more tallies, or as
/// many and comes first in the user's order.
pub open spec fn ranked_before(cats: Seq<CatAgg>, j: int, i: int) -> bool {
    cats[j].tally_count > cats[i].tally_count || (cats[j].tally_count == cats[i].tally_count && j
        < i)
}

/// How many of the first `n` categories are ranked before the one at `i`.
pub open spec fn rank_among(cats: Seq<CatAgg>, i: int, n: int) -> int
    decreases n,
{
    if n <= 0 {
        0
    } else {
        rank_among(cats, i, n - 1) + (if ranked_before(cats, n - 1, i) {
            1int
        } else {
            0int
        })
    }
}

/// Whether the category at `i` is one of the `n` most used.
pub open spec fn is_top(cats: Seq<CatAgg>, i: int, n: int) -> bool {
    0 <= i < cats.len() && rank_among(cats, i, cats.len() as int) < n
}

/// Whether a category id earns a pill: one of the most used has it, or it is the selected one.
pub open spec fn is_shown(cats: Seq<CatAgg>, selected: i64, n: int, id: i64) -> bool {
    id == selected || exists|i: int| #[trigger] is_top(cats, i, n) && cats[i].id == id
}

/// The ids of the first `k` categories that earn a pill, in the user's order.
pub open spec fn shown_ids(cats: Seq<CatAgg>, selected: i64, n: int, k: int) -> Seq<i64>
    decreases k,
{
    if k <= 0 {
        Seq::empty()
    } else if is_shown(cats, selected, n, cats[k - 1].id) {
        shown_ids(cats, selected, n, k - 1).push(cats[k - 1].id)
    } else {
        shown_ids(cats, selected, n, k - 1)
    }
}

fn rank_of(cats: &[CatAgg], i: usize) -> (r: usize)
    requires
        i < cats@.len(),
    ensures
        r == rank_among(cats@, i as int, cats@.len() as int),
{
    let mut r: usize = 0;
    for j in 0..cats.len()
        invariant
            i < cats@.len(),
            r == rank_among(cats@, i as int, j as int),
            r <= j,
    {
        if cats[j].tally_count > cats[i].tally_count || (cats[j].tally_count
            == cats[i].tally_count && j < i) {
            r = r + 1;
        }
    }
    r
}

fn earns_pill(cats: &[CatAgg], selected: i64, n: usize, id: i64) -> (r: bool)
    ensures
        r == is_shown(cats@, selected, n as int, id),
{
    if id == selected {
        return true;
    }
    for i in 0..cats.len()
        invariant
            id != selected,
            forall|k: int| 0 <= k < i ==> !(#[trigger] is_top(cats@, k, n as int) && cats@[k].id == id),
    {
        if cats[i].id == id && rank_of(cats, i) < n {
            assert(is_top(cats@, i as int, n as int));
            return true;
        }
    }
    false
}

proof fn lemma_shown_ids_length(cats: Seq<CatAgg>, selected: i64, n: int, k: int)
    requires
        0 <= k,
    ensures
        shown_ids(cats, selected, n, k).len() <= k,
    decreases k,
{
    if k > 0 {
        lemma_shown_ids_length(cats, selected, n, k - 1);
    }
}

/// Which categories earn a pill in the edit dialog: the `n` most used (of equally used ones
/// those that come first in the user's order), and the selected one wherever it ranks. Returns
/// the visible ids in the user's order and how many are left for the "more" popup.
pub fn pill_slots(cats: &[CatAgg], selected: i64, n: usize) -> (r: (Vec<i64>, usize))
    ensures
        r.0@ == shown_ids(cats@, selected, n as int, cats@.len() as int),
        r.1 == cats@.len() - r.0@.len(),
{
    let mut visible: Vec<i64> = Vec::new();
    for i in 0..cats.len()
        invariant
            visible@ == shown_ids(cats@, selected, n as int, i as int),
    {
        if earns_pill(cats, selected, n, cats[i].id) {
            visible.push(cats[i].id);
        }
    }
    proof {
        lemma_shown_ids_length(cats@, selected, n as int, cats@.len() as int);
    }
    let hidden: usize = cats.len() - visible.len();
    (visible, hidden)
}

proof fn lemma_shown_ids_hold(cats: Seq<CatAgg>, selected: i64, n: int, k: int, i: int)
    requires
        0 <= i < k <= cats.len(),
        is_shown(cats, selected, n, cats[i].id),
    ensures
        shown_ids(cats, selected, n, k).contains(cats[i].id),
    decreases k,
{
    let s = shown_ids(cats, selected, n, k);
    if i == k - 1 {
        assert(s.last() == cats[i].id);
        assert(s[s.len() - 1] == cats[i].id);
    } else {
        lemma_shown_ids_hold(cats, selected, n, k - 1, i);
        let t = shown_ids(cats, selected, n, k - 1);
        let j = choose|j: int| 0 <= j < t.len() && t[j] == cats[i].id;
        assert(s[j] == cats[i].id);
    }
}

/// The selected category always has a pill, as long as it exists: the form never looks as if
/// nothing were chosen.
pub proof fn law_selected_category_is_visible(cats: Seq<CatAgg>, selected: i64, n: int, i: int)
    requires
        0 <= i < cats.len(),
        cats[i].id == selected,
    ensures
        shown_ids(cats, selected, n, cats.len() as int).contains(selected),
{
    lemma_shown_ids_hold(cats, selected, n, cats.len() as int, i);
}

/// A category that earns a pill by use is ranked before one that does not: it is used more, or
/// as much and comes first in the user's order.
pub proof fn law_pills_go_to_the_most_used(cats: Seq<CatAgg>, n: int, i: int, j: int)
    requires
        is_top(cats, i, n),
        0 <= j < cats.len(),
        !is_top(cats, j, n),
    ensures
        ranked_before(cats, i, j),
{
    if ranked_before(cats, j, i) {
        lemma_rank_grows(cats, j, i, cats.len() as int);
    }
}

proof fn lemma_rank_grows(cats: Seq<CatAgg>, a: int, b: int, n: int)
    requires
        ranked_before(cats, a, b),
        0 <= n <= cats.len(),
    ensures
        rank_among(cats, a, n) <= rank_among(cats, b, n),
    decreases n,
{
    if n > 0 {
        lemma_rank_grows(cats, a, b, n - 1);
    }
}

// --- names ---

/// The first type that stands in the way of `name` in a category: another type of it whose
/// name is the same but for surrounding white space and case.
pub open spec fn name_conflict(
    types: Seq<TaskType>,
    category_id: i64,
    name: Seq<char>,
    editing_id: Option<i64>,
) -> Option<int>
    decreases types.len(),
{
    if types.len() == 0 {
        None
    } else if types[0].category_id == category_id && editing_id != Some(types[0].id)
        && text::same_name(text::trimmed(types[0].name@), text::trimmed(name)) {
        Some(0)
    } else {
        match name_conflict(types.drop_first(), category_id, name, editing_id) {
            Some(i) => Some(i + 1),
            None => None,
        }
    }
}

/// Checks the Name field of the form for a new or changed type: the name must not be empty,
/// and no other type of the category may have it. The message leaves out the category's name,
/// which the caller writes in front.
pub fn validate_type_name(
    types: &[TaskType],
    category_id: i64,
    name: &str,
    editing_id: Option<i64>,
) -> (r: Result<(), String>)
    ensures
        is_verdict(types@, category_id, name@, editing_id, r),
        match r {
            Ok(_) => text::trimmed(name@).len() > 0 && name_conflict(
                types@,
                category_id,
                name@,
                editing_id,
            ) is None,
            Err(e) => if text::trimmed(name@).len() == 0 {
                e@ == "Name can't be empty."@
            } else {
                &&& name_conflict(types@, category_id, name@, editing_id) matches Some(i)
                &&& e@ == "already has a type called "@ + types@[i].name@
                    + ". Names must be unique inside a category."@
            },
        },
{
    let trimmed = text::trim(name);
    if trimmed.as_str().is_empty() {
        return Err("Name can't be empty.".to_owned());
    }
    assert(types@.skip(0) =~= types@);
    for i in 0..types.len()
        invariant
            trimmed@ == text::trimmed(name@),
            trimmed@.len() > 0,
            match (
                name_conflict(types@, category_id, name@, editing_id),
                name_conflict(types@.skip(i as int), category_id, name@, editing_id),
            ) {
                (Some(a), Some(b)) => a == b + i,
                (None, None) => true,
                _ => false,
            },
    {
        let t = &types[i];
        let itself = match editing_id {
            Some(id) => id == t.id,
            None => false,
        };
        if t.category_id == category_id && !itself && text::is_same_name(
            text::trim(t.name.as_str()).as_str(),
            trimmed.as_str(),
        ) {
            let mut e = String::new();
            text::push_text(&mut e, "already has a type called ");
            text::push_text(&mut e, t.name.as_str());
            text::push_text(&mut e, ". Names must be unique inside a category.");
            assert(e@ =~= "already has a type called "@ + t.name@
                + ". Names must be unique inside a category."@);
            return Err(e);
        }
        assert(types@.skip(i as int).drop_first() =~= types@.skip(i + 1));
    }
    Ok(())
}

// --- laws ---

/// The table shows a type where the text that is searched for stands in its name or in its
/// description, whatever their case, it is of the chosen category, and it is active where only
/// active types are asked for.
pub proof fn law_table_shows_what_was_asked_for(
    t: TaskType,
    search: Seq<char>,
    category_filter: CategoryFilter,
    active_filter: ActiveFilter,
    before: Seq<char>,
    after: Seq<char>,
)
    ensures
        category_filter matches CategoryFilter::One(id) && id != t.category_id ==> !passes(
            t,
            search,
            category_filter,
            active_filter,
        ),
        active_filter == ActiveFilter::ActiveOnly && !t.is_active ==> !passes(
            t,
            search,
            category_filter,
            active_filter,
        ),
        text::lowered(text::trimmed(search)).len() > 0 && !text::has_part(
            text::lowered(t.name@),
            text::lowered(text::trimmed(search)),
        ) && !text::has_part(
            text::lowered(t.description@),
            text::lowered(text::trimmed(search)),
        ) ==> !passes(t, search, category_filter, active_filter),
        (category_filter == CategoryFilter::All || category_filter == CategoryFilter::One(
            t.category_id,
        )) && (active_filter == ActiveFilter::All || t.is_active) && (text::lowered(
            text::trimmed(search),
        ).len() == 0 || text::lowered(t.name@) == before + text::lowered(text::trimmed(search))
            + after || text::lowered(t.description@) == before + text::lowered(
            text::trimmed(search),
        ) + after) ==> passes(t, search, category_filter, active_filter),
{
    text::law_parts_are_found(before, text::lowered(text::trimmed(search)), after);
}

/// A type's lifetime total is that of the first row for it, and 0 where there is none.
pub proof fn law_first_row_of_a_type_counts(
    r: TypeLifetimeTotal,
    rest: Seq<TypeLifetimeTotal>,
    id: i64,
)
    ensures
        lifetime_of(Seq::empty(), id) == 0,
        r.task_type_id == id ==> lifetime_of(seq![r] + rest, id) == r.total,
        r.task_type_id != id ==> lifetime_of(seq![r] + rest, id) == lifetime_of(rest, id),
{
    assert((seq![r] + rest).drop_first() =~= rest);
}

/// Each type counts once for its own category, with its lifetime total, and not for another.
pub proof fn law_every_type_counts_for_its_category(
    types: Seq<TaskType>,
    t: TaskType,
    totals: Seq<TypeLifetimeTotal>,
    id: i64,
)
    ensures
        types_in(Seq::empty(), id) == 0,
        tallies_in(Seq::empty(), totals, id) == 0,
        t.category_id == id ==> types_in(types.push(t), id) == types_in(types, id) + 1,
        t.category_id != id ==> types_in(types.push(t), id) == types_in(types, id),
        t.category_id == id ==> tallies_in(types.push(t), totals, id) == tallies_in(
            types,
            totals,
            id,
        ) + lifetime_of(totals, t.id),
        t.category_id != id ==> tallies_in(types.push(t), totals, id) == tallies_in(
            types,
            totals,
            id,
        ),
{
    assert(types.push(t).drop_last() =~= types);
}

/// A category's numbers carry its id and name, the count of its types and the sum of their
/// lifetime totals.
pub proof fn law_numbers_are_those_of_the_category(
    a: CatAgg,
    c: Category,
    types: Seq<TaskType>,
    totals: Seq<TypeLifetimeTotal>,
)
    requires
        is_row_of(a, c, types, totals),
    ensures
        a.id == c.id,
        a.name@ == c.name@,
        a.type_count == types_in(types, c.id),
        a.tally_count == tallies_in(types, totals, c.id),
{
}

/// The category with more tallies is ranked first; of two with as many, the one that comes first
/// in the user's order.
pub proof fn law_more_tallies_rank_first(cats: Seq<CatAgg>, i: int, j: int)
    ensures
        cats[i].tally_count > cats[j].tally_count ==> ranked_before(cats, i, j) && !ranked_before(
            cats,
            j,
            i,
        ),
        cats[i].tally_count == cats[j].tally_count && i < j ==> ranked_before(cats, i, j)
            && !ranked_before(cats, j, i),
        !ranked_before(cats, i, i),
{
}

proof fn lemma_ranks_differ(cats: Seq<CatAgg>, a: int, b: int, n: int)
    requires
        ranked_before(cats, a, b),
        0 <= a < n <= cats.len(),
    ensures
        rank_among(cats, a, n) < rank_among(cats, b, n),
    decreases n,
{
    if a == n - 1 {
        lemma_rank_grows(cats, a, b, n - 1);
    } else {
        lemma_ranks_differ(cats, a, b, n - 1);
    }
}

proof fn lemma_rank_range(cats: Seq<CatAgg>, i: int, n: int)
    requires
        0 <= n,
    ensures
        0 <= rank_among(cats, i, n) <= n,
        0 <= i < n ==> rank_among(cats, i, n) < n,
    decreases n,
{
    if n > 0 {
        lemma_rank_range(cats, i, n - 1);
    }
}

/// No more than `n` categories earn a pill by use: however many are picked, they are at most
/// `n`. Where there are no more than `n` categories, each earns one.
pub proof fn law_at_most_n_pills_by_use(cats: Seq<CatAgg>, n: int, picked: Seq<int>)
    requires
        0 <= n,
        picked.no_duplicates(),
        forall|k: int| 0 <= k < picked.len() ==> is_top(cats, #[trigger] picked[k], n),
    ensures
        picked.len() <= n,
        forall|i: int| 0 <= i < cats.len() <= n ==> #[trigger] is_top(cats, i, n),
{
    let len = cats.len() as int;
    let ranks = Seq::new(picked.len(), |k: int| rank_among(cats, picked[k], len));
    assert forall|k: int| 0 <= k < picked.len() implies 0 <= #[trigger] ranks[k] < n by {
        assert(is_top(cats, picked[k], n));
        lemma_rank_range(cats, picked[k], len);
    }
    assert(ranks.no_duplicates()) by {
        assert forall|a: int, b: int|
            0 <= a < ranks.len() && 0 <= b < ranks.len() && a != b implies ranks[a]
            != ranks[b] by {
            let i = picked[a];
            let j = picked[b];
            assert(is_top(cats, i, n) && is_top(cats, j, n));
            if ranked_before(cats, i, j) {
                lemma_ranks_differ(cats, i, j, len);
            } else {
                assert(ranked_before(cats, j, i));
                lemma_ranks_differ(cats, j, i, len);
            }
        }
    }
    ranks.unique_seq_to_set();
    vstd::set_lib::lemma_int_range(0, n);
    assert(ranks.to_set().subset_of(vstd::set_lib::set_int_range(0, n)));
    vstd::set_lib::lemma_len_subset(ranks.to_set(), vstd::set_lib::set_int_range(0, n));
    assert forall|i: int| 0 <= i < cats.len() <= n implies #[trigger] is_top(cats, i, n) by {
        lemma_rank_range(cats, i, len);
    }
}

/// Of each category in the user's order, the id follows the pills before it where the category
/// is the selected one or among the `n` most used, and is left out otherwise.
pub proof fn law_pills_keep_the_users_order(cats: Seq<CatAgg>, selected: i64, n: int, k: int)
    requires
        0 <= k < cats.len(),
    ensures
        shown_ids(cats, selected, n, 0) == Seq::<i64>::empty(),
        cats[k].id == selected || is_top(cats, k, n) ==> shown_ids(cats, selected, n, k + 1)
            == shown_ids(cats, selected, n, k).push(cats[k].id),
        cats[k].id != selected && (forall|i: int| #[trigger]
            is_top(cats, i, n) ==> cats[i].id != cats[k].id) ==> shown_ids(cats, selected, n, k + 1)
            == shown_ids(cats, selected, n, k),
{
}

/// A name is taken where another type of the category has it, but for white space around it and
/// for case: the first such type stands in its way, and without one nothing does. The type that
/// is being edited does not stand in its own way.
pub proof fn law_taken_names_are_found(
    types: Seq<TaskType>,
    category_id: i64,
    name: Seq<char>,
    editing_id: Option<i64>,
)
    ensures
        name_conflict(types, category_id, name, editing_id) matches Some(i) ==> 0 <= i
            < types.len() && types[i].category_id == category_id && editing_id != Some(types[i].id)
            && text::same_name(text::trimmed(types[i].name@), text::trimmed(name)),
        name_conflict(types, category_id, name, editing_id) is None ==> forall|k: int|
            0 <= k < types.len() && (#[trigger] types[k]).category_id == category_id && editing_id
                != Some(types[k].id) ==> !text::same_name(
                text::trimmed(types[k].name@),
                text::trimmed(name),
            ),
    decreases types.len(),
{
    if types.len() > 0 {
        let rest = types.drop_first();
        law_taken_names_are_found(rest, category_id, name, editing_id);
        if name_conflict(types, category_id, name, editing_id) is None {
            assert forall|k: int|
                0 <= k < types.len() && (#[trigger] types[k]).category_id == category_id
                    && editing_id != Some(types[k].id) implies !text::same_name(
                text::trimmed(types[k].name@),
                text::trimmed(name),
            ) by {
                if k > 0 {
                    assert(rest[k - 1] == types[k]);
                }
            }
        }
    }
}

/// A category's tallies fit where every sum on the way to the whole is a 64-bit number.
pub proof fn law_tallies_fit_type_by_type(rows: Seq<TaskType>, r: TaskType, totals: Seq<TypeLifetimeTotal>, id: i64)
    ensures
        tallies_fit(Seq::empty(), totals, id),
        tallies_fit(rows.push(r), totals, id) <==> tallies_fit(rows, totals, id) && -9223372036854775808 <= tallies_in(
            rows.push(r), totals, id,
        ) <= 9223372036854775807,
{
    let all = rows.push(r);
    let whole = tallies_in(all.take(all.len() as int), totals, id);
    assert(all.take(all.len() as int) =~= all);
    assert forall|n: int| 0 <= n <= rows.len() implies #[trigger] rows.take(n) == all.take(n) by {
        assert(rows.take(n) =~= all.take(n));
    }
    if tallies_fit(all, totals, id) {
        assert forall|n: int| 0 <= n <= rows.len() implies i64::MIN <= #[trigger] tallies_in(
            rows.take(n), totals, id,
        ) <= i64::MAX by {
            assert(rows.take(n) == all.take(n));
            let same = tallies_in(all.take(n), totals, id);
        }
    }
    if tallies_fit(rows, totals, id) && i64::MIN <= whole <= i64::MAX {
        assert forall|n: int| 0 <= n <= all.len() implies i64::MIN <= #[trigger] tallies_in(
            all.take(n), totals, id,
        ) <= i64::MAX by {
            if n <= rows.len() {
                assert(rows.take(n) == all.take(n));
                let same = tallies_in(rows.take(n), totals, id);
            }
        }
    }
    assert(tallies_fit(Seq::<TaskType>::empty(), totals, id)) by {
        assert forall|n: int| 0 <= n <= 0 implies i64::MIN <= #[trigger] tallies_in(
            Seq::<TaskType>::empty().take(n), totals, id,
        ) <= i64::MAX by {
            assert(Seq::<TaskType>::empty().take(n) =~= Seq::<TaskType>::empty());
        }
    }
}

/// The numbers of the categories can be built where the types can be counted in 64 bits and the
/// tallies of each category fit.
pub proof fn law_numbers_fit_category_by_category(
    categories: Seq<Category>,
    types: Seq<TaskType>,
    totals: Seq<TypeLifetimeTotal>,
    k: int,
)
    ensures
        aggregates_fit(categories, types, totals) ==> types.len() <= 9223372036854775807,
        aggregates_fit(categories, types, totals) && 0 <= k < categories.len() ==> tallies_fit(
            types,
            totals,
            categories[k].id,
        ),
        types.len() <= 9223372036854775807 && (forall|i: int|
            0 <= i < categories.len() ==> tallies_fit(types, totals, (#[trigger] categories[i]).id))
            ==> aggregates_fit(categories, types, totals),
{
}

/// Whether `r` is the verdict on a name.
pub open spec fn is_verdict(
    types: Seq<TaskType>,
    category_id: i64,
    name: Seq<char>,
    editing_id: Option<i64>,
    r: Result<(), String>,
) -> bool {
    if text::trimmed(name).len() == 0 {
        r matches Err(e) && e@ == "Name can't be empty."@
    } else {
        match name_conflict(types, category_id, name, editing_id) {
            Some(i) => r matches Err(e) && e@ == "already has a type called "@ + types[i].name@
                + ". Names must be unique inside a category."@,
            None => r is Ok,
        }
    }
}

/// A blank name is refused as such, a taken one with the name of the type that has it, and any
/// other is fine.
pub proof fn law_names_are_judged(
    types: Seq<TaskType>,
    category_id: i64,
    name: Seq<char>,
    editing_id: Option<i64>,
    r: Result<(), String>,
)
    requires
        is_verdict(types, category_id, name, editing_id, r),
    ensures
        text::trimmed(name).len() == 0 ==> (r matches Err(e) && e@ == "Name can't be empty."@),
        text::trimmed(name).len() > 0 && name_conflict(
            types,
            category_id,
            name,
            editing_id,
        ) is None ==> r is Ok,
        text::trimmed(name).len() > 0 ==> (name_conflict(
            types,
            category_id,
            name,
            editing_id,
        ) matches Some(i) ==> (r matches Err(e) && e@ == "already has a type called "@
            + types[i].name@ + ". Names must be unique inside a category."@)),
{
}

} // verus!
